//! Collision-free name generation for uploaded videos.
//!
//! A candidate name is a random 21-character URL-safe identifier followed by
//! the literal extension `.mp4`. A candidate that already exists in the
//! content store is discarded and a fresh one drawn; after too many colliding
//! candidates, generation fails closed rather than loop forever.

use vstd::prelude::*;
use crate::mime::is_mp4_name;
use crate::paths::{has_dotdot, sep_free_char, valid_filename};
use crate::store::{ContentStore, ErrorKind};

verus! {

/// The number of identifier characters in a generated name.
pub const ID_LENGTH: usize = 21;

/// How many colliding candidates are tolerated before generation fails closed.
pub const MAX_ATTEMPTS: usize = 1000;

/// A character of the URL-safe identifier alphabet.
pub open spec fn id_char(c: char) -> bool {
    ||| c == '_'
    ||| c == '-'
    ||| '0' <= c <= '9'
    ||| 'a' <= c <= 'z'
    ||| 'A' <= c <= 'Z'
}

/// The name generated from an identifier: the identifier with `.mp4` behind it.
pub open spec fn candidate_of(id: Seq<char>) -> Seq<char> {
    id + ".mp4"@
}

/// An identifier whose candidate name is safe and not yet in the store.
pub open spec fn usable(m: Map<Seq<char>, Seq<u8>>, id: Seq<char>) -> bool {
    &&& valid_filename(candidate_of(id))
    &&& !m.contains_key(candidate_of(id))
}

/// Relies on `nanoid::format` with `nanoid::rngs::default` and the URL-safe
/// alphabet `nanoid::alphabet::SAFE`: a random identifier of exactly the
/// requested 21 characters, each drawn from that alphabet. Nothing is assumed
/// about which identifier comes back.
#[verifier::external_body]
fn random_id() -> (r: String)
    ensures
        r@.len() == ID_LENGTH,
        forall|i: int| 0 <= i < r@.len() ==> id_char(#[trigger] r@[i]),
{
    nanoid::format(nanoid::rngs::default, &nanoid::alphabet::SAFE, ID_LENGTH)
}

/// An identifier of URL-safe characters makes a safe `.mp4` candidate name.
pub proof fn lemma_id_candidate_valid(id: Seq<char>)
    requires
        forall|i: int| 0 <= i < id.len() ==> id_char(#[trigger] id[i]),
    ensures
        valid_filename(candidate_of(id)),
        id.len() > 0 ==> is_mp4_name(candidate_of(id)),
        candidate_of(id).len() == id.len() + 4,
{
    reveal_strlit(".mp4");
    let c = candidate_of(id);
    assert(c.len() == id.len() + 4);
    assert forall|i: int| 0 <= i < c.len() implies sep_free_char(#[trigger] c[i]) by {
        if i < id.len() {
            assert(id_char(id[i]));
        }
    }
    assert forall|i: int| 0 <= i && i + 1 < c.len() implies !(#[trigger] c[i] == '.' && c[i + 1]
        == '.') by {
        if i < id.len() {
            assert(id_char(id[i]));
        } else {
            assert(c[i + 1] != '.');
        }
    }
    assert(!has_dotdot(c));
    if id.len() > 0 {
        assert(c.subrange(c.len() - 4, c.len() as int) =~= ".mp4"@);
    }
}

/// Picks the name for an upload from the given candidate identifiers: the
/// first identifier whose `.mp4` candidate is a safe file name and does not
/// exist in the store wins; if none does, generation reports the name space
/// exhausted. Deterministic in its inputs, so a caller can inject the
/// identifier source.
pub fn generate_with_ids(store: &ContentStore, ids: &Vec<String>) -> (r: Result<String, ErrorKind>)
    requires
        store.wf(),
    ensures
        r is Ok <==> exists|k: int| 0 <= k < ids@.len() && usable(store@, #[trigger] ids@[k]@),
        r matches Ok(n) ==> exists|k: int|
            {
                &&& 0 <= k < ids@.len()
                &&& #[trigger] usable(store@, ids@[k]@)
                &&& n@ == candidate_of(ids@[k]@)
                &&& forall|j: int| 0 <= j < k ==> !usable(store@, #[trigger] ids@[j]@)
            },
        r matches Ok(n) ==> valid_filename(n@) && !store@.contains_key(n@),
        r is Err ==> r == Err::<String, ErrorKind>(ErrorKind::NameSpaceExhausted),
{
    let mut k: usize = 0;
    while k < ids.len()
        invariant
            store.wf(),
            0 <= k <= ids@.len(),
            forall|j: int| 0 <= j < k ==> !usable(store@, #[trigger] ids@[j]@),
        decreases ids@.len() - k,
    {
        let candidate = ids[k].clone().concat(".mp4");
        proof {
            assert(candidate@ == candidate_of(ids@[k as int]@));
        }
        if crate::paths::is_safe_filename(candidate.as_str()) {
            if !store.exists_file(&candidate) {
                proof {
                    assert(usable(store@, ids@[k as int]@));
                }
                return Ok(candidate);
            }
        }
        k = k + 1;
    }
    Err(ErrorKind::NameSpaceExhausted)
}

/// Generates a name for an upload: a random 21-character identifier from the
/// URL-safe alphabet with `.mp4` behind it, guaranteed absent from the store
/// at generation time. A colliding candidate is discarded and a fresh one
/// drawn; after `MAX_ATTEMPTS` collisions the generator fails closed with
/// `NameSpaceExhausted` instead of looping forever. Giving up is owed only to
/// collisions, so it can happen only where the store actually holds a
/// candidate-shaped name: on a store without one — in particular an empty
/// store — generation succeeds.
pub fn generate(store: &ContentStore) -> (r: Result<String, ErrorKind>)
    requires
        store.wf(),
    ensures
        r matches Ok(n) ==> {
            &&& valid_filename(n@)
            &&& !store@.contains_key(n@)
            &&& is_mp4_name(n@)
            &&& n@.len() == ID_LENGTH + 4
            &&& forall|i: int| 0 <= i < ID_LENGTH ==> id_char(#[trigger] n@[i])
        },
        r is Err ==> r == Err::<String, ErrorKind>(ErrorKind::NameSpaceExhausted),
        r is Err ==> exists|k: Seq<char>|
            {
                &&& #[trigger] store@.contains_key(k)
                &&& k.len() == ID_LENGTH + 4
                &&& is_mp4_name(k)
            },
{
    let mut attempts: usize = 0;
    while attempts < MAX_ATTEMPTS
        invariant
            store.wf(),
            attempts > 0 ==> exists|k: Seq<char>|
                {
                    &&& #[trigger] store@.contains_key(k)
                    &&& k.len() == ID_LENGTH + 4
                    &&& is_mp4_name(k)
                },
        decreases MAX_ATTEMPTS - attempts,
    {
        let id = random_id();
        let candidate = id.concat(".mp4");
        proof {
            lemma_id_candidate_valid(id@);
        }
        if !store.exists_file(&candidate) {
            proof {
                assert forall|i: int| 0 <= i < ID_LENGTH implies id_char(
                    #[trigger] candidate@[i],
                ) by {
                    assert(candidate@[i] == id@[i]);
                }
            }
            return Ok(candidate);
        }
        proof {
            assert(store@.contains_key(candidate@) && candidate@.len() == ID_LENGTH + 4
                && is_mp4_name(candidate@));
        }
        attempts = attempts + 1;
    }
    Err(ErrorKind::NameSpaceExhausted)
}

} // verus!
