//! A wrapper for binary data with a concise summary (size, hash, head and
//! tail bytes) in place of the full content.
use vstd::prelude::*;
use sha2::{Digest, Sha256};

verus! {

/// The SHA-256 digest of a byte sequence.
pub uninterp spec fn sha256_of(data: Seq<u8>) -> Seq<u8>;

/// Computes the SHA-256 digest with `sha2::Sha256::digest` (which feeds the
/// data to a fresh hasher and finalises it). The digest is named, not
/// described; its 32-byte length is the output size of SHA-256.
#[verifier::external_body]
fn sha256_digest(data: &[u8]) -> (r: Vec<u8>)
    ensures
        r@ == sha256_of(data@),
        r@.len() == 32,
{
    Sha256::digest(data).to_vec()
}

/// The lowercase hexadecimal digit of a value below 16.
pub open spec fn hex_digit(n: int) -> char {
    if n < 10 {
        (n + 48) as char
    } else {
        (n - 10 + 97) as char
    }
}

/// Lowercase hexadecimal text of bytes: two digits per byte, high nibble
/// first.
pub open spec fn hex_lower(bytes: Seq<u8>) -> Seq<char>
    decreases bytes.len(),
{
    if bytes.len() == 0 {
        Seq::empty()
    } else {
        seq![hex_digit(bytes[0] as int / 16), hex_digit(bytes[0] as int % 16)] + hex_lower(bytes.drop_first())
    }
}

/// Encodes bytes as lowercase hexadecimal text with `hex::encode`, which
/// writes each byte as its high and then its low nibble from the table
/// `0123456789abcdef`.
#[verifier::external_body]
fn hex_encode(bytes: &[u8]) -> (r: String)
    ensures
        r@ == hex_lower(bytes@),
{
    hex::encode(bytes)
}

/// Summary of binary data shown in place of its full content.
pub struct BinaryDataSummary {
    /// Number of bytes.
    pub len: usize,
    /// Lowercase hexadecimal SHA-256 digest of the bytes.
    pub sha256: String,
    /// The first (at most) four bytes.
    pub head: Vec<u8>,
    /// The last four bytes when there are more than four, else nothing.
    pub tail: Vec<u8>,
}

/// The first (at most) four bytes.
pub open spec fn head_bytes(bytes: Seq<u8>) -> Seq<u8> {
    if bytes.len() < 4 {
        bytes
    } else {
        bytes.take(4)
    }
}

/// The last four bytes of data longer than four bytes; nothing otherwise.
pub open spec fn tail_bytes(bytes: Seq<u8>) -> Seq<u8> {
    if bytes.len() > 4 {
        bytes.skip(bytes.len() - 4)
    } else {
        Seq::empty()
    }
}

/// Summarises bytes: their length, SHA-256 digest in hexadecimal, first four
/// bytes and, for data longer than four bytes, last four bytes.
pub fn summarize_bytes(bytes: &[u8]) -> (r: BinaryDataSummary)
    ensures
        r.len == bytes@.len(),
        r.sha256@ == hex_lower(sha256_of(bytes@)),
        r.head@ == head_bytes(bytes@),
        r.tail@ == tail_bytes(bytes@),
{
    let len = bytes.len();
    let digest = sha256_digest(bytes);
    let sha256 = hex_encode(digest.as_slice());
    let mut head: Vec<u8> = Vec::new();
    let head_len = if len < 4 {
        len
    } else {
        4
    };
    let mut i: usize = 0;
    while i < head_len
        invariant
            head_len <= len,
            len == bytes@.len(),
            i <= head_len,
            head@ == bytes@.take(i as int),
        decreases head_len - i,
    {
        head.push(bytes[i]);
        i = i + 1;
        assert(head@ =~= bytes@.take(i as int));
    }
    let mut tail: Vec<u8> = Vec::new();
    if len > 4 {
        let start = len - 4;
        let mut j: usize = start;
        while j < len
            invariant
                len == bytes@.len(),
                start == len - 4,
                start <= j <= len,
                tail@ == bytes@.subrange(start as int, j as int),
            decreases len - j,
        {
            tail.push(bytes[j]);
            j = j + 1;
            assert(tail@ =~= bytes@.subrange(start as int, j as int));
        }
    }
    proof {
        assert(head@ =~= head_bytes(bytes@));
        assert(tail@ =~= tail_bytes(bytes@));
    }
    BinaryDataSummary { len, sha256, head, tail }
}

/// A wrapper for binary data whose summary shows its size, hash and a
/// sample of head and tail bytes instead of the full content.
#[derive(Clone, PartialEq, Eq, Hash)]
pub struct BinaryData<T>(pub T);

impl<T> BinaryData<T> {
    /// Creates a new wrapper.
    pub fn new(data: T) -> (r: Self)
        ensures
            r.0 == data,
    {
        BinaryData(data)
    }
}

impl BinaryData<Vec<u8>> {
    /// The summary of the wrapped bytes.
    pub fn summary(&self) -> (r: BinaryDataSummary)
        ensures
            r.len == self.0@.len(),
            r.sha256@ == hex_lower(sha256_of(self.0@)),
            r.head@ == head_bytes(self.0@),
            r.tail@ == tail_bytes(self.0@),
    {
        summarize_bytes(self.0.as_slice())
    }
}

impl<T> core::ops::Deref for BinaryData<T> {
    type Target = T;

    fn deref(&self) -> (r: &T)
        ensures
            *r == self.0,
    {
        &self.0
    }
}

impl<T> core::ops::DerefMut for BinaryData<T> {
    fn deref_mut(&mut self) -> (r: &mut T)
        ensures
            *r == old(self).0,
            final(self).0 == *final(r),
    {
        &mut self.0
    }
}

impl<T> From<T> for BinaryData<T> {
    fn from(data: T) -> (r: Self) {
        BinaryData(data)
    }
}

impl<T> vstd::std_specs::convert::FromSpecImpl<T> for BinaryData<T> {
    open spec fn obeys_from_spec() -> bool {
        true
    }

    open spec fn from_spec(data: T) -> Self {
        BinaryData(data)
    }
}

} // verus!
