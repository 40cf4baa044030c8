//! The content store: the key-value store of uploaded videos.
//!
//! The store maps each uploaded video's file name to its bytes. The
//! surrounding process mirrors it onto the content directory; everything the
//! service decides about a name or its content is decided here.

use vstd::prelude::*;
use crate::mime::{guess_mime, mime_of};
use crate::paths::{has_dotdot, is_safe_filename, lemma_traversal_never_valid, valid_filename};
use crate::table::KvTable;

verus! {

/// The error kinds of the library.
#[derive(Clone, Copy, Debug, PartialEq, Eq, Structural)]
pub enum ErrorKind {
    /// The file name fails safety validation; nothing is written or read.
    InvalidName,
    /// A lookup missed, or a read could not be served.
    NotFound,
    /// A write could not be completed durably.
    IoFailure,
    /// Name generation gave up after too many colliding candidates.
    NameSpaceExhausted,
}

/// A key-value store of video file names to video bytes.
pub struct ContentStore {
    table: KvTable,
}

impl View for ContentStore {
    type V = Map<Seq<char>, Seq<u8>>;

    closed spec fn view(&self) -> Map<Seq<char>, Seq<u8>> {
        self.table@
    }
}

impl ContentStore {
    /// Every key is a safe file name, and keys are unique.
    pub closed spec fn wf(&self) -> bool {
        &&& self.table.wf()
        &&& forall|k: Seq<char>| self.table@.contains_key(k) ==> valid_filename(k)
    }

    /// A well-formed store holds safe file names only.
    pub proof fn lemma_wf_keys_valid(&self)
        requires
            self.wf(),
        ensures
            forall|k: Seq<char>| self@.contains_key(k) ==> valid_filename(k),
    {
    }

    /// The empty store.
    pub fn new() -> (r: ContentStore)
        ensures
            r.wf(),
            r@ == Map::<Seq<char>, Seq<u8>>::empty(),
    {
        ContentStore { table: KvTable::new() }
    }

    /// Whether a video named `filename` is present. A name that fails safety
    /// validation is treated as not existing: it can never have been written.
    pub fn exists_file(&self, filename: &String) -> (r: bool)
        requires
            self.wf(),
        ensures
            r == (valid_filename(filename@) && self@.contains_key(filename@)),
    {
        if !is_safe_filename(filename.as_str()) {
            return false;
        }
        self.table.contains(filename)
    }

    /// Whether no video named `filename` is present.
    pub fn validate_video_not_exists(&self, filename: &String) -> (r: bool)
        requires
            self.wf(),
        ensures
            r == !(valid_filename(filename@) && self@.contains_key(filename@)),
    {
        !self.exists_file(filename)
    }

    /// Stores `data` under `filename`. A name that fails safety validation is rejected as
    /// `InvalidName`; a name already present is rejected as `IoFailure`, as an
    /// exclusive creation of an existing file fails at the filesystem.
    pub fn write(&mut self, filename: &String, data: &Vec<u8>) -> (r: Result<(), ErrorKind>)
        requires
            old(self).wf(),
        ensures
            final(self).wf(),
            r is Ok <==> (valid_filename(filename@) && !old(self)@.contains_key(filename@)),
            r is Ok ==> final(self)@ == old(self)@.insert(filename@, data@),
            r is Err ==> final(self)@ == old(self)@,
            !valid_filename(filename@) ==> r == Err::<(), ErrorKind>(ErrorKind::InvalidName),
            valid_filename(filename@) && old(self)@.contains_key(filename@) ==> r == Err::<
                (),
                ErrorKind,
            >(ErrorKind::IoFailure),
    {
        if !is_safe_filename(filename.as_str()) {
            return Err(ErrorKind::InvalidName);
        }
        let inserted = self.table.insert_new(filename.clone(), crate::table::copy_bytes(data));
        if inserted {
            Ok(())
        } else {
            Err(ErrorKind::IoFailure)
        }
    }

    /// Reads the video named `filename` back, with its inferred MIME type.
    /// An absent name, or one that fails safety validation, is a `NotFound`: the client cannot tell the
    /// two apart.
    pub fn read(&self, filename: &String) -> (r: Result<(Vec<u8>, String), ErrorKind>)
        requires
            self.wf(),
        ensures
            r is Ok <==> (valid_filename(filename@) && self@.contains_key(filename@)),
            r matches Ok(p) ==> p.0@ == self@[filename@] && p.1@ == mime_of(filename@),
            r is Err ==> r == Err::<(Vec<u8>, String), ErrorKind>(ErrorKind::NotFound),
    {
        if !is_safe_filename(filename.as_str()) {
            return Err(ErrorKind::NotFound);
        }
        match self.table.get_copy(filename) {
            Some(data) => Ok((data, guess_mime(filename.as_str()))),
            None => Err(ErrorKind::NotFound),
        }
    }

    /// The number of videos the store holds.
    pub fn count(&self) -> (r: usize)
        requires
            self.wf(),
        ensures
            r as nat == self@.len(),
    {
        self.table.count()
    }
}

/// Writing `data` under a name puts exactly `data` there: after a write of
/// `f`, the store contains `f` and a read of `f` yields `data` back, while a
/// name is absent until something is written under it.
pub proof fn lemma_write_then_read(m: Map<Seq<char>, Seq<u8>>, f: Seq<char>, d: Seq<u8>)
    ensures
        m.insert(f, d).contains_key(f),
        m.insert(f, d)[f] == d,
{
}

/// A path traversal attempt (one that names a parent directory) never
/// resolves to a stored video: it is not a safe file name, so it was never
/// written and is never read back, and the video handler answers such a
/// request with 404.
pub proof fn lemma_traversal_misses_store(store: &ContentStore, p: Seq<char>)
    requires
        store.wf(),
        has_dotdot(p),
    ensures
        !valid_filename(p),
        !store@.contains_key(p),
{
    lemma_traversal_never_valid(p);
    store.lemma_wf_keys_valid();
}

} // verus!
