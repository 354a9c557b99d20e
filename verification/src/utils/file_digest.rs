//! Content digests, by which two archives are told apart.

use vstd::prelude::*;

verus! {

/// The SHA-256 digest of `data`, as `sha2` computes it.
pub uninterp spec fn sha256(data: Seq<u8>) -> Seq<u8>;

/// Calls `Sha256::digest` of `sha2` on `data` and copies the output into a
/// vector. The contract names the outcome and states its length: the output
/// type of the hasher is an array of 32 bytes.
#[verifier::external_body]
fn sha256_of(data: &[u8]) -> (r: Vec<u8>)
    ensures
        r@ == sha256(data@),
        r@.len() == 32,
{
    <sha2::Sha256 as sha2::Digest>::digest(data).to_vec()
}

/// The digest of the content of a file. Its view is the bytes of the digest.
#[derive(Debug)]
pub struct FileDigest {
    digest: Vec<u8>,
}

impl View for FileDigest {
    type V = Seq<u8>;

    closed spec fn view(&self) -> Seq<u8> {
        self.digest@
    }
}

impl FileDigest {
    /// The digest of a file whose content is `content`.
    pub fn from_bytes(content: &[u8]) -> (r: Self)
        ensures
            r@ == sha256(content@),
            r@.len() == 32,
    {
        FileDigest { digest: sha256_of(content) }
    }

    /// The bytes of the digest.
    pub fn as_bytes(&self) -> (r: &[u8])
        ensures
            r@ == self@,
    {
        self.digest.as_slice()
    }

    /// Whether two digests are the same, byte for byte.
    pub fn same_as(&self, other: &FileDigest) -> (r: bool)
        ensures
            r == (self@ == other@),
    {
        if self.digest.len() != other.digest.len() {
            return false;
        }
        let mut i: usize = 0;
        while i < self.digest.len()
            invariant
                i <= self.digest@.len(),
                self.digest@.len() == other.digest@.len(),
                forall|k: int| 0 <= k < i ==> self.digest@[k] == other.digest@[k],
            decreases self.digest@.len() - i,
        {
            if self.digest[i] != other.digest[i] {
                return false;
            }
            i = i + 1;
        }
        assert(self@ =~= other@);
        true
    }
}

impl Clone for FileDigest {
    fn clone(&self) -> (r: Self)
        ensures
            r@ == self@,
    {
        FileDigest { digest: self.digest.clone() }
    }
}

impl PartialEq for FileDigest {
    fn eq(&self, other: &Self) -> (r: bool) {
        self.same_as(other)
    }
}

impl Eq for FileDigest {

}

impl vstd::std_specs::cmp::PartialEqSpecImpl for FileDigest {
    open spec fn obeys_eq_spec() -> bool {
        true
    }

    open spec fn eq_spec(&self, other: &Self) -> bool {
        self@ == other@
    }
}

} // verus!
