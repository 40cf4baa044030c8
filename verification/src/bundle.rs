//! The asset bundle: the read-only key-value store of bundled static assets.
//!
//! It is populated once at process start from build-time data and never
//! changes afterwards; lookups normalize the client-supplied path and answer
//! with the asset's bytes and inferred MIME type.

use vstd::prelude::*;
use crate::mime::{guess_mime, mime_of};
use crate::paths::{
    has_dotdot, is_safe_asset_path, lemma_traversal_never_valid, normalize, normalize_path,
    valid_asset_path,
};
use crate::table::KvTable;

verus! {

/// A read-only key-value store of asset paths to asset bytes.
pub struct AssetBundle {
    table: KvTable,
}

impl View for AssetBundle {
    type V = Map<Seq<char>, Seq<u8>>;

    closed spec fn view(&self) -> Map<Seq<char>, Seq<u8>> {
        self.table@
    }
}

impl AssetBundle {
    /// Every key is a safe relative path, and keys are unique.
    pub closed spec fn wf(&self) -> bool {
        &&& self.table.wf()
        &&& forall|k: Seq<char>| self.table@.contains_key(k) ==> valid_asset_path(k)
    }

    /// A well-formed bundle holds safe relative paths only.
    pub proof fn lemma_wf_keys_valid(&self)
        requires
            self.wf(),
        ensures
            forall|k: Seq<char>| self@.contains_key(k) ==> valid_asset_path(k),
    {
    }

    /// The empty bundle.
    pub fn new() -> (r: AssetBundle)
        ensures
            r.wf(),
            r@ == Map::<Seq<char>, Seq<u8>>::empty(),
    {
        AssetBundle { table: KvTable::new() }
    }

    /// Adds one asset while the bundle is being populated at process start.
    /// A path that could escape the asset directory, or one already present,
    /// is refused.
    pub fn insert(&mut self, path: String, content: Vec<u8>) -> (r: bool)
        requires
            old(self).wf(),
        ensures
            final(self).wf(),
            r == (valid_asset_path(path@) && !old(self)@.contains_key(path@)),
            r ==> final(self)@ == old(self)@.insert(path@, content@),
            !r ==> final(self)@ == old(self)@,
    {
        if !is_safe_asset_path(path.as_str()) {
            return false;
        }
        self.table.insert_new(path, content)
    }

    /// Looks `path` up: a single leading slash is stripped and an empty path
    /// defaults to `index.html`; the lookup is an exact match against the
    /// bundle's keys. On a hit, the asset's bytes come with the MIME type
    /// inferred from the path.
    pub fn get(&self, path: &str) -> (r: Option<(Vec<u8>, String)>)
        requires
            self.wf(),
        ensures
            r is Some <==> self@.contains_key(normalize_path(path@)),
            r matches Some(p) ==> p.0@ == self@[normalize_path(path@)] && p.1@ == mime_of(
                normalize_path(path@),
            ),
    {
        let resolved = normalize(path);
        match self.table.get_copy(&resolved) {
            Some(data) => Some((data, guess_mime(resolved.as_str()))),
            None => None,
        }
    }
}

/// A path traversal attempt (one that names a parent directory) never
/// resolves to a bundled asset: normalization does not launder it, and the
/// bundle's keys never leave the asset directory, so the static handler
/// answers such a request with 404.
pub proof fn lemma_traversal_misses_bundle(bundle: &AssetBundle, p: Seq<char>)
    requires
        bundle.wf(),
        has_dotdot(p),
    ensures
        !bundle@.contains_key(normalize_path(p)),
{
    lemma_traversal_never_valid(p);
    bundle.lemma_wf_keys_valid();
}

} // verus!
