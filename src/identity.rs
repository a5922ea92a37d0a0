//! The identity of the open document: its path and the fingerprint of the
//! content last read from or written to it.
use vstd::prelude::*;

verus! {

/// What Keccak-512 yields on a byte sequence.
pub uninterp spec fn keccak512_of(data: Seq<u8>) -> Seq<u8>;

/// Relies on `tiny_keccak::keccak512`: the 64-byte Keccak-512 digest of `data`,
/// which depends on the bytes alone.
#[verifier::external_body]
fn keccak512(data: &[u8]) -> (r: [u8; 64])
    ensures
        r@ == keccak512_of(data@),
{
    tiny_keccak::keccak512(data)
}

/// What `std::path::Path::parent` yields on a path, as text.
pub uninterp spec fn parent_of(path: Seq<char>) -> Option<Seq<char>>;

/// What `std::path::Path::file_name` yields on a path, as text.
pub uninterp spec fn file_name_of(path: Seq<char>) -> Option<Seq<char>>;

/// The text an optional string holds.
pub open spec fn text_of(s: Option<String>) -> Option<Seq<char>> {
    match s {
        Some(t) => Some(t@),
        None => None,
    }
}

/// Relies on `std::path::Path::parent`: the path without its final component,
/// or nothing for a root or an empty path. The parent of a UTF-8 path is UTF-8,
/// so the conversion back to text loses nothing.
#[verifier::external_body]
pub(crate) fn path_parent(path: &str) -> (r: Option<String>)
    ensures
        text_of(r) == parent_of(path@),
{
    std::path::Path::new(path).parent().map(|d| d.to_string_lossy().into_owned())
}

/// Relies on `std::path::Path::file_name`: the final component of the path,
/// or nothing where there is none (a root, an empty path, one that ends in
/// `..`). The component of a UTF-8 path is UTF-8, so the conversion back to
/// text loses nothing.
#[verifier::external_body]
pub(crate) fn path_file_name(path: &str) -> (r: Option<String>)
    ensures
        text_of(r) == file_name_of(path@),
{
    std::path::Path::new(path).file_name().map(|n| n.to_string_lossy().into_owned())
}

/// The fingerprint that stands for a content.
pub open spec fn fingerprint_of(data: Seq<u8>) -> Seq<u8> {
    keccak512_of(data)
}

/// The mathematical model of a [`DocumentIdentity`].
pub ghost struct IdentityModel {
    pub path: Seq<char>,
    pub fingerprint: Seq<u8>,
}

impl IdentityModel {
    /// The identity of the file at `path` whose content is `data`.
    pub open spec fn created(path: Seq<char>, data: Seq<u8>) -> IdentityModel {
        IdentityModel { path, fingerprint: fingerprint_of(data) }
    }

    /// Whether `data` is the content this identity was last synchronised with.
    pub open spec fn same_as(self, data: Seq<u8>) -> bool {
        fingerprint_of(data) == self.fingerprint
    }

    /// The identity after the content `data` has been written to its path.
    pub open spec fn with_sum(self, data: Seq<u8>) -> IdentityModel {
        IdentityModel { path: self.path, fingerprint: fingerprint_of(data) }
    }
}

/// An open file: where it lives and the digest of its last known saved content.
pub struct DocumentIdentity {
    path: String,
    sum: [u8; 64],
}

impl View for DocumentIdentity {
    type V = IdentityModel;

    closed spec fn view(&self) -> IdentityModel {
        IdentityModel { path: self.path@, fingerprint: self.sum@ }
    }
}

impl DocumentIdentity {
    /// The identity of the file at `path` that holds `data`.
    pub fn new(path: String, data: &[u8]) -> (r: DocumentIdentity)
        ensures
            r@ == IdentityModel::created(path@, data@),
    {
        DocumentIdentity { path, sum: keccak512(data) }
    }

    /// Whether `sum` is the fingerprint this identity holds.
    pub fn matches_sum(&self, sum: &[u8; 64]) -> (r: bool)
        ensures
            r == (sum@ == self@.fingerprint),
    {
        let mut i: usize = 0;
        while i < 64
            invariant
                0 <= i <= 64,
                forall|j: int| 0 <= j < i ==> sum@[j] == self.sum@[j],
            decreases 64 - i,
        {
            if sum[i] != self.sum[i] {
                return false;
            }
            i = i + 1;
        }
        assert(sum@ =~= self.sum@);
        true
    }

    /// Whether `data` is the content last read from or written to the file.
    pub fn is_same_as(&self, data: &[u8]) -> (r: bool)
        ensures
            r == self@.same_as(data@),
    {
        let sum = keccak512(data);
        self.matches_sum(&sum)
    }

    /// Records that `data` has just been written to the file.
    pub fn set_sum(&mut self, data: &[u8])
        ensures
            final(self)@ == old(self)@.with_sum(data@),
    {
        self.sum = keccak512(data);
    }

    /// The path of the file.
    pub fn get_path(&self) -> (r: &str)
        ensures
            r@ == self@.path,
    {
        self.path.as_str()
    }

    /// The directory that holds the file, used to seed the next file dialog.
    pub fn get_dir(&self) -> (r: Option<String>)
        ensures
            text_of(r) == parent_of(self@.path),
    {
        path_parent(self.path.as_str())
    }
}

/// An identity made from some content recognises that same content.
pub proof fn lemma_new_is_same_as(path: Seq<char>, data: Seq<u8>)
    ensures
        IdentityModel::created(path, data).same_as(data),
{
}

/// After the fingerprint is refreshed from `b1`, the identity recognises `b1`
/// and no content whose digest differs from that of `b1`. Distinct contents
/// differ in digest unless they collide under Keccak-512.
pub proof fn lemma_set_sum_distinguishes(id: IdentityModel, b1: Seq<u8>, b2: Seq<u8>)
    requires
        fingerprint_of(b1) != fingerprint_of(b2),
    ensures
        id.with_sum(b1).same_as(b1),
        !id.with_sum(b1).same_as(b2),
        id.with_sum(b1).path == id.path,
{
}

} // verus!
