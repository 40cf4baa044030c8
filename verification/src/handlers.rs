//! The request handlers: resolve a static path against the asset bundle,
//! resolve a video path against the content store, and accept an upload.
//!
//! Each handler takes the request's already-extracted plain values (the path
//! parameter, the multipart fields) and produces the `HttpResponse` to send.

use vstd::prelude::*;
use crate::bundle::AssetBundle;
use crate::mime::{is_mp4_name, mime_of};
use crate::names::{generate, generate_with_ids, id_char, usable, ID_LENGTH};
use crate::paths::{normalize_path, valid_filename};
use crate::response::{bytes_of_text, text_bytes, HttpResponse};
use crate::store::ContentStore;

verus! {

/// One named part of a multipart upload request.
pub struct MultipartField {
    /// The field's name.
    pub name: String,
    /// The field's byte payload.
    pub data: Vec<u8>,
}

/// The field carries the upload payload: its name is `file`.
pub open spec fn is_file_field(f: MultipartField) -> bool {
    f.name@ == "file"@
}

/// Some field of the request is named `file`.
pub open spec fn has_file_field(fields: Seq<MultipartField>) -> bool {
    exists|i: int| 0 <= i < fields.len() && #[trigger] is_file_field(fields[i])
}

/// `i` is the first field named `file`.
pub open spec fn first_file_field(fields: Seq<MultipartField>, i: int) -> bool {
    &&& 0 <= i < fields.len()
    &&& is_file_field(fields[i])
    &&& forall|j: int| 0 <= j < i ==> !is_file_field(#[trigger] fields[j])
}

/// The name announced when the request carried no `file` field.
pub open spec fn sentinel_name() -> Seq<char> {
    "[[Something went wrong]]"@
}

/// A name with its last four characters (the `.mp4` extension) stripped.
pub open spec fn strip_extension(n: Seq<char>) -> Seq<char> {
    if n.len() >= 4 {
        n.subrange(0, n.len() - 4)
    } else {
        n
    }
}

/// The upload response body: it announces the assigned identifier, extension
/// stripped, for the client to combine with its watch-URL convention.
pub open spec fn announce_body(n: Seq<char>) -> Seq<char> {
    "Video uploaded successfully: ?watch="@ + strip_extension(n)
}

/// The body sent when persisting an upload fails.
pub open spec fn failure_body() -> Seq<char> {
    "Failed to save video to disk."@
}

/// Relies on `substring::Substring for str`: the slice of the characters of
/// `s` from `from` (inclusive) to `to` (exclusive), counted in characters.
#[verifier::external_body]
fn substring_chars(s: &str, from: usize, to: usize) -> (r: &str)
    requires
        from <= to <= s@.len(),
    ensures
        r@ == s@.subrange(from as int, to as int),
{
    substring::Substring::substring(s, from, to)
}

/// Builds the response that announces `name` as the upload's identifier.
/// Announcing an accepted upload is a success, so the status is 200; a
/// not-found-class status here would mislead clients.
fn announce_response(name: &String) -> (r: HttpResponse)
    ensures
        r.status == 200,
        r.content_type is None,
        r.body@ == bytes_of_text(announce_body(name@)),
{
    let n = name.as_str().unicode_len();
    let stripped: &str = if n >= 4 {
        substring_chars(name.as_str(), 0, n - 4)
    } else {
        name.as_str()
    };
    let text = String::from_str("Video uploaded successfully: ?watch=").concat(stripped);
    HttpResponse { status: 200, content_type: None, body: text_bytes(text.as_str()) }
}

/// The static path a request asks for: the path parameter, or `index.html`
/// where the route carried none.
pub open spec fn requested_static(path: Option<String>) -> Seq<char> {
    match path {
        Option::None => "index.html"@,
        Option::Some(p) => p@,
    }
}

/// The video name a request asks for: the path parameter, or a sentinel
/// nonexistent name where the route carried none.
pub open spec fn requested_video(path: Option<String>) -> Seq<char> {
    match path {
        Option::None => "not_exists.mp4"@,
        Option::Some(p) => p@,
    }
}

/// Serves a bundled static asset: 200 with the asset's bytes and its inferred
/// MIME type on a hit, 404 with an empty body on a miss.
pub fn handle_static(bundle: &AssetBundle, path: &Option<String>) -> (r: HttpResponse)
    requires
        bundle.wf(),
    ensures
        ({
            let resolved = normalize_path(requested_static(*path));
            &&& bundle@.contains_key(resolved) ==> {
                &&& r.status == 200
                &&& r.body@ == bundle@[resolved]
                &&& r.content_type matches Some(m) && m@ == mime_of(resolved)
            }
            &&& !bundle@.contains_key(resolved) ==> {
                &&& r.status == 404
                &&& r.body@.len() == 0
                &&& r.content_type is None
            }
        }),
{
    let requested = match path {
        Option::None => String::from_str("index.html"),
        Option::Some(p) => p.clone(),
    };
    match bundle.get(requested.as_str()) {
        Option::Some((data, mime)) => HttpResponse {
            status: 200,
            content_type: Some(mime),
            body: data,
        },
        Option::None => HttpResponse { status: 404, content_type: None, body: Vec::new() },
    }
}

/// Serves an uploaded video: the named video's bytes and inferred MIME type
/// on a hit; 404 with the body `Video does not exist.` where the name is
/// absent or fails safety validation. The store is consulted on every request, since it grows
/// at runtime.
pub fn handle_static_videos(store: &ContentStore, path: &Option<String>) -> (r: HttpResponse)
    requires
        store.wf(),
    ensures
        ({
            let resolved = requested_video(*path);
            &&& valid_filename(resolved) && store@.contains_key(resolved) ==> {
                &&& r.status == 200
                &&& r.body@ == store@[resolved]
                &&& r.content_type matches Some(m) && m@ == mime_of(resolved)
            }
            &&& !(valid_filename(resolved) && store@.contains_key(resolved)) ==> {
                &&& r.status == 404
                &&& r.body@ == bytes_of_text("Video does not exist."@)
                &&& r.content_type is None
            }
        }),
{
    let requested = match path {
        Option::None => String::from_str("not_exists.mp4"),
        Option::Some(p) => p.clone(),
    };
    match store.read(&requested) {
        Result::Ok((data, mime)) => HttpResponse {
            status: 200,
            content_type: Some(mime),
            body: data,
        },
        Result::Err(_) => HttpResponse {
            status: 404,
            content_type: None,
            body: text_bytes("Video does not exist."),
        },
    }
}

/// Accepts an upload, picking the video's name from the given candidate
/// identifiers; deterministic in its inputs, so a caller can inject the
/// identifier source. Only the first field named `file` is processed: its
/// bytes are stored under the first usable candidate name, and the response
/// announces that name. Where no candidate is usable, nothing is stored and
/// the request fails with 500. Where no field is named `file`, nothing is
/// stored and the response announces the sentinel name.
pub fn upload_with_ids(
    store: &mut ContentStore,
    fields: &Vec<MultipartField>,
    ids: &Vec<String>,
) -> (r: HttpResponse)
    requires
        old(store).wf(),
    ensures
        final(store).wf(),
        !has_file_field(fields@) ==> {
            &&& final(store)@ == old(store)@
            &&& r.status == 200
            &&& r.content_type is None
            &&& r.body@ == bytes_of_text(announce_body(sentinel_name()))
        },
        has_file_field(fields@) ==> exists|i: int|
            {
                &&& #[trigger] first_file_field(fields@, i)
                &&& ({
                    ||| exists|k: int|
                        {
                            &&& 0 <= k < ids@.len()
                            &&& #[trigger] usable(old(store)@, ids@[k]@)
                            &&& forall|j: int| 0 <= j < k ==> !usable(
                                old(store)@,
                                #[trigger] ids@[j]@,
                            )
                            &&& final(store)@ == old(store)@.insert(
                                crate::names::candidate_of(ids@[k]@),
                                fields@[i].data@,
                            )
                            &&& r.status == 200
                            &&& r.content_type is None
                            &&& r.body@ == bytes_of_text(
                                announce_body(crate::names::candidate_of(ids@[k]@)),
                            )
                        }
                    ||| ({
                        &&& forall|k: int| 0 <= k < ids@.len() ==> !usable(
                            old(store)@,
                            #[trigger] ids@[k]@,
                        )
                        &&& final(store)@ == old(store)@
                        &&& r.status == 500
                        &&& r.content_type is None
                        &&& r.body@ == bytes_of_text(failure_body())
                    })
                })
            },
{
    let file_key = String::from_str("file");
    let mut i: usize = 0;
    while i < fields.len()
        invariant
            store.wf(),
            *store == *old(store),
            file_key@ == "file"@,
            0 <= i <= fields@.len(),
            forall|j: int| 0 <= j < i ==> !is_file_field(#[trigger] fields@[j]),
        decreases fields@.len() - i,
    {
        if fields[i].name == file_key {
            proof {
                assert(first_file_field(fields@, i as int));
            }
            match generate_with_ids(store, ids) {
                Result::Ok(name) => {
                    let written = store.write(&name, &fields[i].data);
                    match written {
                        Result::Ok(()) => {
                            return announce_response(&name);
                        },
                        Result::Err(_) => {
                            return HttpResponse {
                                status: 500,
                                content_type: None,
                                body: text_bytes("Failed to save video to disk."),
                            };
                        },
                    }
                },
                Result::Err(_) => {
                    return HttpResponse {
                        status: 500,
                        content_type: None,
                        body: text_bytes("Failed to save video to disk."),
                    };
                },
            }
        }
        i = i + 1;
    }
    let sentinel = String::from_str("[[Something went wrong]]");
    announce_response(&sentinel)
}

/// Accepts an upload: the bytes of the first field named `file` are stored
/// under a freshly generated collision-free name, and the response announces
/// that name, extension stripped. Where no field is named `file`, nothing is
/// stored and the response announces the sentinel name. Where the name
/// generator gives up, nothing new is stored and the request fails with 500;
/// that can only happen to collisions, so only where the store already held a
/// candidate-shaped name — against a store without one, a request carrying a
/// `file` field is owed the success branch.
pub fn upload(store: &mut ContentStore, fields: &Vec<MultipartField>) -> (r: HttpResponse)
    requires
        old(store).wf(),
    ensures
        final(store).wf(),
        !has_file_field(fields@) ==> {
            &&& final(store)@ == old(store)@
            &&& r.status == 200
            &&& r.content_type is None
            &&& r.body@ == bytes_of_text(announce_body(sentinel_name()))
        },
        has_file_field(fields@) ==> exists|i: int|
            {
                &&& #[trigger] first_file_field(fields@, i)
                &&& ({
                    ||| exists|n: Seq<char>|
                        {
                            &&& valid_filename(n)
                            &&& is_mp4_name(n)
                            &&& n.len() == ID_LENGTH + 4
                            &&& (forall|c: int| 0 <= c < ID_LENGTH ==> id_char(#[trigger] n[c]))
                            &&& !old(store)@.contains_key(n)
                            &&& final(store)@ == old(store)@.insert(n, fields@[i].data@)
                            &&& r.status == 200
                            &&& r.content_type is None
                            &&& r.body@ == bytes_of_text(announce_body(n))
                        }
                    ||| ({
                        &&& exists|k: Seq<char>|
                            {
                                &&& #[trigger] old(store)@.contains_key(k)
                                &&& k.len() == ID_LENGTH + 4
                                &&& is_mp4_name(k)
                            }
                        &&& final(store)@ == old(store)@
                        &&& r.status == 500
                        &&& r.content_type is None
                        &&& r.body@ == bytes_of_text(failure_body())
                    })
                })
            },
{
    let file_key = String::from_str("file");
    let mut i: usize = 0;
    while i < fields.len()
        invariant
            store.wf(),
            *store == *old(store),
            file_key@ == "file"@,
            0 <= i <= fields@.len(),
            forall|j: int| 0 <= j < i ==> !is_file_field(#[trigger] fields@[j]),
        decreases fields@.len() - i,
    {
        if fields[i].name == file_key {
            proof {
                assert(first_file_field(fields@, i as int));
            }
            match generate(store) {
                Result::Ok(name) => {
                    let written = store.write(&name, &fields[i].data);
                    match written {
                        Result::Ok(()) => {
                            return announce_response(&name);
                        },
                        Result::Err(_) => {
                            return HttpResponse {
                                status: 500,
                                content_type: None,
                                body: text_bytes("Failed to save video to disk."),
                            };
                        },
                    }
                },
                Result::Err(_) => {
                    return HttpResponse {
                        status: 500,
                        content_type: None,
                        body: text_bytes("Failed to save video to disk."),
                    };
                },
            }
        }
        i = i + 1;
    }
    let sentinel = String::from_str("[[Something went wrong]]");
    announce_response(&sentinel)
}

} // verus!
