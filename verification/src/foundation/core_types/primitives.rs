//! Primitive value types: content hash, manifest discriminator, instant and byte count.

use vstd::prelude::*;

verus! {

/// The lowercase hexadecimal digit of `d < 16`.
pub open spec fn hex_digit(d: nat) -> char {
    seq!['0', '1', '2', '3', '4', '5', '6', '7', '8', '9', 'a', 'b', 'c', 'd', 'e', 'f'][d as int]
}

/// Two lowercase hexadecimal digits per byte, in order.
pub open spec fn hex_of(bytes: Seq<u8>) -> Seq<char>
    decreases bytes.len(),
{
    if bytes.len() == 0 {
        Seq::empty()
    } else {
        hex_of(bytes.drop_last()) + seq![
            hex_digit((bytes.last() / 16) as nat),
            hex_digit((bytes.last() % 16) as nat),
        ]
    }
}

/// The lowercase hexadecimal text of 32 bytes.
fn hex_text(bytes: &[u8; 32]) -> (s: String)
    ensures
        s@ == hex_of(bytes@),
{
    let digits: [char; 16] = ['0', '1', '2', '3', '4', '5', '6', '7', '8', '9', 'a', 'b', 'c', 'd', 'e', 'f'];
    assert(digits@ =~= seq!['0', '1', '2', '3', '4', '5', '6', '7', '8', '9', 'a', 'b', 'c', 'd', 'e', 'f']);
    let mut s = String::new();
    let mut i: usize = 0;
    while i < 32
        invariant
            i <= 32,
            bytes@.len() == 32,
            digits@ == seq!['0', '1', '2', '3', '4', '5', '6', '7', '8', '9', 'a', 'b', 'c', 'd', 'e', 'f'],
            s@ == hex_of(bytes@.take(i as int)),
        decreases 32 - i,
    {
        let b = bytes[i];
        crate::text::push_char(&mut s, digits[(b / 16) as usize]);
        crate::text::push_char(&mut s, digits[(b % 16) as usize]);
        assert(bytes@.take(i + 1).drop_last() =~= bytes@.take(i as int));
        i = i + 1;
    }
    assert(bytes@.take(32) =~= bytes@);
    s
}

/// Standard SHA-256 digest of a file's bytes (exactly 32 bytes).
#[derive(Debug, Clone, Copy, PartialEq, Eq, PartialOrd, Ord, Hash)]
pub struct Sha256Digest(pub [u8; 32]);

impl Sha256Digest {
    /// Builds a digest from its 32 octets.
    pub fn from_bytes(bytes: [u8; 32]) -> (d: Self)
        ensures
            d.0 == bytes,
    {
        Sha256Digest(bytes)
    }

    /// Returns the 32 octets of the digest.
    pub fn as_bytes(&self) -> (b: &[u8; 32])
        ensures
            *b == self.0,
    {
        &self.0
    }

    /// The digest as 64 lowercase hexadecimal digits (its display form).
    pub fn to_hex(&self) -> (s: String)
        ensures
            s@ == hex_of(self.0@),
    {
        hex_text(&self.0)
    }
}

/// Local no-op discriminator of a whole manifest; a type distinct from `Sha256Digest`.
#[derive(Debug, Clone, Copy, PartialEq, Eq, PartialOrd, Ord, Hash)]
pub struct ManifestDigest(pub [u8; 32]);

impl ManifestDigest {
    /// Builds a manifest digest from its 32 octets.
    pub fn from_bytes(bytes: [u8; 32]) -> (d: Self)
        ensures
            d.0 == bytes,
    {
        ManifestDigest(bytes)
    }

    /// Returns the 32 octets of the manifest digest.
    pub fn as_bytes(&self) -> (b: &[u8; 32])
        ensures
            *b == self.0,
    {
        &self.0
    }

    /// The digest as 64 lowercase hexadecimal digits (its display form).
    pub fn to_hex(&self) -> (s: String)
        ensures
            s@ == hex_of(self.0@),
    {
        hex_text(&self.0)
    }
}

/// UTC instant stored as nanoseconds since the Unix epoch; ordered past to future.
#[derive(Debug, Clone, Copy, PartialEq, Eq, PartialOrd, Ord, Hash)]
pub struct Timestamp(pub i64);

impl Timestamp {
    /// Builds an instant from nanoseconds since the Unix epoch (UTC).
    pub fn from_unix_nanos(nanos: i64) -> (t: Self)
        ensures
            t.0 == nanos,
    {
        Timestamp(nanos)
    }

    /// Returns the nanoseconds since the Unix epoch (UTC).
    pub fn as_unix_nanos(&self) -> (n: i64)
        ensures
            n == self.0,
    {
        self.0
    }
}

/// Non-negative 64-bit byte count.
#[derive(Debug, Clone, Copy, PartialEq, Eq, PartialOrd, Ord, Hash)]
pub struct ByteCount(pub u64);

impl ByteCount {
    /// Builds a byte count from a raw number of bytes.
    pub fn new(value: u64) -> (c: Self)
        ensures
            c.0 == value,
    {
        ByteCount(value)
    }

    /// Returns the raw number of bytes.
    pub fn get(&self) -> (v: u64)
        ensures
            v == self.0,
    {
        self.0
    }
}

} // verus!
