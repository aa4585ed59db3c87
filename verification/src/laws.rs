//! The laws the accessor family obeys, stated over the spec functions of
//! [`crate::region`] and proved once for every value type and every buffer.

use crate::region::spec_fits;
use crate::region::spec_read;
use crate::region::spec_resolve;
use crate::region::spec_write_bytes;
use crate::region::MemErr;
use crate::region::MemOffset;
use crate::value::MemValue;
use vstd::prelude::*;

verus! {

/// Bounds exactness: a read of a type of size `size_of(T)` at byte offset
/// `byte_off` in a region of length `len` succeeds if and only if
/// `byte_off + size_of(T) <= len`. In particular a zero-sized type fits at
/// every offset up to and including `len` itself.
pub proof fn lemma_bounds_exactness<T: MemValue>(region: Seq<u8>, byte_off: nat)
    ensures
        spec_read::<T>(region, byte_off) is Ok <==> byte_off + T::size_spec() <= region.len(),
        spec_read::<T>(region, byte_off) is Err ==> spec_read::<T>(region, byte_off) == Err::<
            T,
            MemErr,
        >(MemErr::OutOfRange),
{
}

/// Flavor equivalence: a unit offset `k` resolves to the byte offset
/// `k * size_of(T)` and a byte offset resolves to itself, so an access at
/// unit offset `k` has exactly the same outcome, success or failure, as the
/// same access at byte offset `k * size_of(T)`.
pub proof fn lemma_flavor_equivalence<T: MemValue>(region: Seq<u8>, k: usize, b: usize)
    ensures
        spec_resolve::<T>(MemOffset::TypeOffset(k)) == (k as nat) * T::size_spec(),
        spec_resolve::<T>(MemOffset::ByteOffset(b)) == b,
        spec_read::<T>(region, spec_resolve::<T>(MemOffset::TypeOffset(k))) == spec_read::<T>(
            region,
            (k as nat) * T::size_spec(),
        ),
{
}

/// Write/read round trip: after a value is written at an in-range byte
/// offset, a read at that offset succeeds and returns the value, bit for
/// bit.
pub proof fn lemma_write_read_roundtrip<T: MemValue>(region: Seq<u8>, byte_off: nat, val: T)
    requires
        spec_fits(byte_off, T::size_spec(), region.len()),
    ensures
        spec_read::<T>(spec_write_bytes(region, byte_off, val.to_bytes_spec()), byte_off) == Ok::<
            T,
            MemErr,
        >(val),
{
    val.lemma_to_bytes_len();
    let written = spec_write_bytes(region, byte_off, val.to_bytes_spec());
    assert(written.subrange(byte_off as int, byte_off + T::size_spec() as int)
        =~= val.to_bytes_spec());
    val.lemma_from_to();
}

/// Read/write round trip, the converse direction: any in-range byte pattern
/// is the encoding of the value read from it, so writing back the value just
/// read leaves the region bit-identical. Together with
/// [`lemma_write_read_roundtrip`] this makes the encoding a bijection between
/// values and byte patterns.
pub proof fn lemma_read_write_roundtrip<T: MemValue>(region: Seq<u8>, byte_off: nat)
    requires
        spec_fits(byte_off, T::size_spec(), region.len()),
    ensures
        spec_read::<T>(region, byte_off) matches Ok(v) && spec_write_bytes(
            region,
            byte_off,
            v.to_bytes_spec(),
        ) == region,
{
    let window = region.subrange(byte_off as int, byte_off + T::size_spec() as int);
    T::lemma_to_from(window);
    assert(spec_write_bytes(region, byte_off, window) =~= region);
}

/// Write isolation: a write at byte offset `byte_off` keeps the region's
/// length and leaves every byte outside `[byte_off, byte_off + size_of(T))`
/// exactly as it was.
pub proof fn lemma_write_isolation<T: MemValue>(region: Seq<u8>, byte_off: nat, val: T)
    ensures
        spec_write_bytes(region, byte_off, val.to_bytes_spec()).len() == region.len(),
        forall|i: int|
            0 <= i < region.len() && !(byte_off <= i < byte_off + T::size_spec())
                ==> spec_write_bytes(region, byte_off, val.to_bytes_spec())[i] == region[i],
{
    val.lemma_to_bytes_len();
}

/// View aliasing: a write at a view's position keeps the region's length, so
/// the view stays well formed, and the bytes at the view's position are the
/// written value's bytes, so a later read through the view returns the value
/// just written, not a stale one.
pub proof fn lemma_view_sees_write<T: MemValue>(region: Seq<u8>, byte_off: nat, val: T)
    requires
        spec_fits(byte_off, T::size_spec(), region.len()),
    ensures
        spec_write_bytes(region, byte_off, val.to_bytes_spec()).len() == region.len(),
        T::from_bytes_spec(
            spec_write_bytes(region, byte_off, val.to_bytes_spec()).subrange(
                byte_off as int,
                byte_off + T::size_spec() as int,
            ),
        ) == val,
{
    val.lemma_to_bytes_len();
    let written = spec_write_bytes(region, byte_off, val.to_bytes_spec());
    assert(written.subrange(byte_off as int, byte_off + T::size_spec() as int)
        =~= val.to_bytes_spec());
    val.lemma_from_to();
}

} // verus!
