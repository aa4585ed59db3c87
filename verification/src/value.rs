//! Values that can be stored in a buffer: a known byte size and a
//! little-endian byte encoding that round-trips exactly.

use vstd::bytes::lemma_auto_spec_u16_to_from_le_bytes;
use vstd::bytes::lemma_auto_spec_u32_to_from_le_bytes;
use vstd::bytes::lemma_auto_spec_u64_to_from_le_bytes;
use vstd::bytes::spec_u16_from_le_bytes;
use vstd::bytes::spec_u16_to_le_bytes;
use vstd::bytes::spec_u32_from_le_bytes;
use vstd::bytes::spec_u32_to_le_bytes;
use vstd::bytes::spec_u64_from_le_bytes;
use vstd::bytes::spec_u64_to_le_bytes;
use vstd::bytes::u16_from_le_bytes;
use vstd::bytes::u16_to_le_bytes;
use vstd::bytes::u32_from_le_bytes;
use vstd::bytes::u32_to_le_bytes;
use vstd::bytes::u64_from_le_bytes;
use vstd::bytes::u64_to_le_bytes;
use vstd::prelude::*;
use vstd::slice::slice_index_get;

verus! {

/// A type that occupies a fixed number of bytes inside a [`crate::MemBuffer`],
/// stored in little-endian byte order.
///
/// The two spec functions fix the encoding mathematically; the proof
/// obligations make every implementation's encoding a bijection between
/// values and byte sequences of length [`MemValue::size_spec`], so a value
/// written to a buffer reads back bit-identical.
pub trait MemValue: Sized {
    /// The number of bytes the type occupies.
    spec fn size_spec() -> nat;

    /// The little-endian byte encoding of a value.
    spec fn to_bytes_spec(self) -> Seq<u8>;

    /// The value encoded by a byte sequence of length [`MemValue::size_spec`].
    spec fn from_bytes_spec(b: Seq<u8>) -> Self;

    /// The encoding has exactly [`MemValue::size_spec`] bytes.
    proof fn lemma_to_bytes_len(self)
        ensures
            self.to_bytes_spec().len() == Self::size_spec(),
    ;

    /// Decoding an encoded value gives the value back.
    proof fn lemma_from_to(self)
        ensures
            Self::from_bytes_spec(self.to_bytes_spec()) == self,
    ;

    /// Encoding a decoded byte sequence gives the bytes back.
    proof fn lemma_to_from(b: Seq<u8>)
        requires
            b.len() == Self::size_spec(),
        ensures
            Self::from_bytes_spec(b).to_bytes_spec() == b,
    ;

    /// The byte size as a machine integer.
    fn byte_size() -> (s: usize)
        ensures
            s == Self::size_spec(),
    ;

    /// Encode a value into its bytes.
    fn to_bytes(&self) -> (b: Vec<u8>)
        ensures
            b@ == self.to_bytes_spec(),
    ;

    /// Decode a value from exactly [`MemValue::size_spec`] bytes.
    fn from_bytes(b: &[u8]) -> (v: Self)
        requires
            b@.len() == Self::size_spec(),
        ensures
            v == Self::from_bytes_spec(b@),
    ;
}

/// The degenerate zero-sized value: it occupies no bytes, so it fits at any
/// in-range offset, including exactly at the end of a buffer.
impl MemValue for () {
    open spec fn size_spec() -> nat {
        0
    }

    open spec fn to_bytes_spec(self) -> Seq<u8> {
        Seq::empty()
    }

    open spec fn from_bytes_spec(b: Seq<u8>) -> Self {
        ()
    }

    proof fn lemma_to_bytes_len(self) {
    }

    proof fn lemma_from_to(self) {
    }

    proof fn lemma_to_from(b: Seq<u8>) {
        assert(Seq::<u8>::empty() =~= b);
    }

    fn byte_size() -> (s: usize) {
        0
    }

    fn to_bytes(&self) -> (b: Vec<u8>) {
        Vec::new()
    }

    fn from_bytes(b: &[u8]) -> (v: Self) {
        ()
    }
}

impl MemValue for u8 {
    open spec fn size_spec() -> nat {
        1
    }

    open spec fn to_bytes_spec(self) -> Seq<u8> {
        seq![self]
    }

    open spec fn from_bytes_spec(b: Seq<u8>) -> Self {
        b[0]
    }

    proof fn lemma_to_bytes_len(self) {
    }

    proof fn lemma_from_to(self) {
    }

    proof fn lemma_to_from(b: Seq<u8>) {
        assert(seq![b[0]] =~= b);
    }

    fn byte_size() -> (s: usize) {
        1
    }

    fn to_bytes(&self) -> (b: Vec<u8>) {
        let mut v: Vec<u8> = Vec::new();
        v.push(*self);
        proof {
            assert(v@ =~= seq![*self]);
        }
        v
    }

    fn from_bytes(b: &[u8]) -> (v: Self) {
        *slice_index_get(b, 0)
    }
}

impl MemValue for u16 {
    open spec fn size_spec() -> nat {
        2
    }

    open spec fn to_bytes_spec(self) -> Seq<u8> {
        spec_u16_to_le_bytes(self)
    }

    open spec fn from_bytes_spec(b: Seq<u8>) -> Self {
        spec_u16_from_le_bytes(b)
    }

    proof fn lemma_to_bytes_len(self) {
        lemma_auto_spec_u16_to_from_le_bytes();
    }

    proof fn lemma_from_to(self) {
        lemma_auto_spec_u16_to_from_le_bytes();
        assert(spec_u16_to_le_bytes(self).len() == 2);
    }

    proof fn lemma_to_from(b: Seq<u8>) {
        lemma_auto_spec_u16_to_from_le_bytes();
    }

    fn byte_size() -> (s: usize) {
        2
    }

    fn to_bytes(&self) -> (b: Vec<u8>) {
        u16_to_le_bytes(*self)
    }

    fn from_bytes(b: &[u8]) -> (v: Self) {
        u16_from_le_bytes(b)
    }
}

impl MemValue for u32 {
    open spec fn size_spec() -> nat {
        4
    }

    open spec fn to_bytes_spec(self) -> Seq<u8> {
        spec_u32_to_le_bytes(self)
    }

    open spec fn from_bytes_spec(b: Seq<u8>) -> Self {
        spec_u32_from_le_bytes(b)
    }

    proof fn lemma_to_bytes_len(self) {
        lemma_auto_spec_u32_to_from_le_bytes();
    }

    proof fn lemma_from_to(self) {
        lemma_auto_spec_u32_to_from_le_bytes();
        assert(spec_u32_to_le_bytes(self).len() == 4);
    }

    proof fn lemma_to_from(b: Seq<u8>) {
        lemma_auto_spec_u32_to_from_le_bytes();
    }

    fn byte_size() -> (s: usize) {
        4
    }

    fn to_bytes(&self) -> (b: Vec<u8>) {
        u32_to_le_bytes(*self)
    }

    fn from_bytes(b: &[u8]) -> (v: Self) {
        u32_from_le_bytes(b)
    }
}

impl MemValue for u64 {
    open spec fn size_spec() -> nat {
        8
    }

    open spec fn to_bytes_spec(self) -> Seq<u8> {
        spec_u64_to_le_bytes(self)
    }

    open spec fn from_bytes_spec(b: Seq<u8>) -> Self {
        spec_u64_from_le_bytes(b)
    }

    proof fn lemma_to_bytes_len(self) {
        lemma_auto_spec_u64_to_from_le_bytes();
    }

    proof fn lemma_from_to(self) {
        lemma_auto_spec_u64_to_from_le_bytes();
        assert(spec_u64_to_le_bytes(self).len() == 8);
    }

    proof fn lemma_to_from(b: Seq<u8>) {
        lemma_auto_spec_u64_to_from_le_bytes();
    }

    fn byte_size() -> (s: usize) {
        8
    }

    fn to_bytes(&self) -> (b: Vec<u8>) {
        u64_to_le_bytes(*self)
    }

    fn from_bytes(b: &[u8]) -> (v: Self) {
        u64_from_le_bytes(b)
    }
}

} // verus!
