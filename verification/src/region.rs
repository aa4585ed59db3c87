//! The bounded memory region and its typed accessors.
//!
//! A [`MemBuffer`] owns a fixed-length span of bytes. Positions are resolved
//! to byte offsets ([`spec_resolve`]) and validated by one shared bounds
//! check ([`MemBuffer::get_ptr_byte_offset`]); every accessor flavor funnels
//! through it. A successful check produces a [`MemView`], a typed slot that
//! carries its bounds proof, through which the bytes are copied out, copied
//! in, or kept for later access.

use crate::value::MemValue;
use core::marker::PhantomData;
use vstd::prelude::*;
use vstd::slice::slice_subrange;

verus! {

/// A position inside a buffer: either a count of `T`-sized units from the
/// start, or a count of bytes from the start.
#[derive(Clone, Copy, Debug, PartialEq, Eq, Structural)]
pub enum MemOffset {
    /// A count of type-sized units from the start of the buffer.
    TypeOffset(usize),
    /// A count of bytes from the start of the buffer.
    ByteOffset(usize),
}

/// The one failure an accessor can report: the requested span of bytes does
/// not lie inside the buffer.
#[derive(Clone, Copy, Debug, PartialEq, Eq, Structural)]
pub enum MemErr {
    /// The requested position plus the requested type's size exceeds the
    /// buffer's length.
    OutOfRange,
}

/// Whether `size` bytes starting at `byte_off` lie inside a region of `len`
/// bytes. A zero-sized access fits at any offset up to and including `len`.
pub open spec fn spec_fits(byte_off: nat, size: nat, len: nat) -> bool {
    byte_off + size <= len
}

/// The byte offset that a position resolves to for values of type `T`:
/// a unit offset `k` resolves to `k * size_of(T)`, a byte offset passes
/// through unchanged.
pub open spec fn spec_resolve<T: MemValue>(offset: MemOffset) -> nat {
    match offset {
        MemOffset::TypeOffset(k) => (k as nat) * T::size_spec(),
        MemOffset::ByteOffset(b) => b as nat,
    }
}

/// The contents of `region` after `bytes` is copied in at `byte_off`:
/// positions inside `[byte_off, byte_off + bytes.len())` take the new bytes,
/// every other position keeps its old byte.
pub open spec fn spec_write_bytes(region: Seq<u8>, byte_off: nat, bytes: Seq<u8>) -> Seq<u8> {
    Seq::new(
        region.len(),
        |i: int|
            if byte_off <= i < byte_off + bytes.len() {
                bytes[i - byte_off]
            } else {
                region[i]
            },
    )
}

/// The outcome of reading a `T` at `byte_off`: the value decoded from the
/// `size_of(T)` bytes there if they fit, `OutOfRange` otherwise.
pub open spec fn spec_read<T: MemValue>(region: Seq<u8>, byte_off: nat) -> Result<T, MemErr> {
    if spec_fits(byte_off, T::size_spec(), region.len()) {
        Ok(
            T::from_bytes_spec(
                region.subrange(byte_off as int, byte_off + T::size_spec() as int),
            ),
        )
    } else {
        Err(MemErr::OutOfRange)
    }
}

/// A bounded memory region: the sole owner of a fixed-length span of bytes.
/// It is created once, from a size or from caller-supplied bytes, and never
/// resized.
pub struct MemBuffer {
    data: Vec<u8>,
}

impl View for MemBuffer {
    type V = Seq<u8>;

    closed spec fn view(&self) -> Seq<u8> {
        self.data@
    }
}

/// A typed, non-owning view into a buffer: a byte offset that was validated
/// for values of type `T` when the view was produced. Reading or writing
/// through the view performs no fresh bounds check; its validity is the
/// well-formedness [`MemView::wf`] established at creation.
pub struct MemView<T> {
    byte_off: usize,
    marker: PhantomData<T>,
}

impl<T: MemValue> MemView<T> {
    /// The byte offset this view designates.
    pub closed spec fn byte_off_spec(self) -> nat {
        self.byte_off as nat
    }

    /// The view's bounds proof: `size_of(T)` bytes starting at its offset lie
    /// inside the region.
    pub open spec fn wf(self, region: Seq<u8>) -> bool {
        spec_fits(self.byte_off_spec(), T::size_spec(), region.len())
    }

    /// A view at the given byte offset. The offset is not validated here;
    /// only a view that is well formed for a buffer can access it.
    pub fn new(byte_off: usize) -> (v: Self)
        ensures
            v.byte_off_spec() == byte_off,
    {
        MemView { byte_off, marker: PhantomData }
    }

    /// Copy the `size_of(T)` bytes at the view's offset out of `buf` and
    /// decode them. The buffer is read as it is now, so a write made after
    /// the view was produced is seen.
    pub fn read(&self, buf: &MemBuffer) -> (v: T)
        requires
            self.wf(buf@),
        ensures
            v == T::from_bytes_spec(
                buf@.subrange(
                    self.byte_off_spec() as int,
                    self.byte_off_spec() + T::size_spec() as int,
                ),
            ),
    {
        let size = T::byte_size();
        // Binding the length as a usize shows the offset sum below fits.
        let _len: usize = buf.len();
        let whole = buf.as_bytes();
        let part = slice_subrange(whole, self.byte_off, self.byte_off + size);
        T::from_bytes(part)
    }

    /// Encode `val` and copy its bytes into `buf` at the view's offset,
    /// overwriting what was there; every byte outside the written window
    /// keeps its value.
    pub fn write(&self, buf: &mut MemBuffer, val: T)
        requires
            self.wf(old(buf)@),
        ensures
            final(buf)@ == spec_write_bytes(old(buf)@, self.byte_off_spec(), val.to_bytes_spec()),
    {
        let bytes = val.to_bytes();
        proof {
            val.lemma_to_bytes_len();
        }
        buf.put_bytes(self.byte_off, &bytes);
    }
}

impl MemBuffer {
    /// A buffer of `size` zero-initialized bytes.
    pub fn from_size(size: usize) -> (buf: MemBuffer)
        ensures
            buf@.len() == size,
            forall|i: int| 0 <= i < size ==> buf@[i] == 0u8,
    {
        let mut data: Vec<u8> = Vec::new();
        let mut i: usize = 0;
        while i < size
            invariant
                i <= size,
                data@.len() == i,
                forall|j: int| 0 <= j < i ==> data@[j] == 0u8,
            decreases size - i,
        {
            data.push(0u8);
            i = i + 1;
        }
        MemBuffer { data }
    }

    /// A buffer that takes ownership of caller-supplied bytes and keeps them
    /// unchanged. The buffer is the sole owner of the bytes from here on; to
    /// observe them again, read through the buffer or [`MemBuffer::as_bytes`].
    pub fn from_bytes(bytes: Vec<u8>) -> (buf: MemBuffer)
        ensures
            buf@ == bytes@,
    {
        MemBuffer { data: bytes }
    }

    /// The buffer's length in bytes.
    pub fn len(&self) -> (n: usize)
        ensures
            n == self@.len(),
    {
        self.data.len()
    }

    /// The whole region as a byte slice.
    pub fn as_bytes(&self) -> (s: &[u8])
        ensures
            s@ == self@,
    {
        self.data.as_slice()
    }

    /// Resolve a typed slot at the start of the buffer: the degenerate
    /// position "byte offset 0".
    pub fn get_ptr<T: MemValue>(&self) -> (r: Result<MemView<T>, MemErr>)
        ensures
            r is Ok <==> spec_fits(0, T::size_spec(), self@.len()),
            r matches Ok(slot) ==> slot.byte_off_spec() == 0 && slot.wf(self@),
            r is Err ==> r == Err::<MemView<T>, MemErr>(MemErr::OutOfRange),
    {
        self.get_ptr_byte_offset::<T>(0)
    }

    /// Resolve a typed slot at an explicit position: a unit offset is
    /// converted to a byte offset, a byte offset passes through, and the
    /// byte-offset path makes the one bounds check.
    pub fn get_ptr_offset<T: MemValue>(&self, offset: MemOffset) -> (r: Result<
        MemView<T>,
        MemErr,
    >)
        ensures
            r is Ok <==> spec_fits(spec_resolve::<T>(offset), T::size_spec(), self@.len()),
            r matches Ok(slot) ==> slot.byte_off_spec() == spec_resolve::<T>(offset) && slot.wf(
                self@,
            ),
            r is Err ==> r == Err::<MemView<T>, MemErr>(MemErr::OutOfRange),
    {
        match offset {
            MemOffset::TypeOffset(k) => self.get_ptr_type_offset::<T>(k),
            MemOffset::ByteOffset(b) => self.get_ptr_byte_offset::<T>(b),
        }
    }

    /// Resolve a typed slot at a count of `T`-sized units from the start:
    /// unit offset `k` means byte offset `k * size_of(T)`. A multiplication
    /// that does not fit in `usize` cannot name a byte inside the buffer and
    /// is rejected as out of range.
    pub fn get_ptr_type_offset<T: MemValue>(&self, type_offset: usize) -> (r: Result<
        MemView<T>,
        MemErr,
    >)
        ensures
            r is Ok <==> spec_fits(
                (type_offset as nat) * T::size_spec(),
                T::size_spec(),
                self@.len(),
            ),
            r matches Ok(slot) ==> slot.byte_off_spec() == (type_offset as nat) * T::size_spec()
                && slot.wf(self@),
            r is Err ==> r == Err::<MemView<T>, MemErr>(MemErr::OutOfRange),
    {
        let size = T::byte_size();
        // Binding the length as a usize shows that a product too large for
        // usize is also too large for the buffer.
        let _len: usize = self.data.len();
        match type_offset.checked_mul(size) {
            Some(byte_offset) => self.get_ptr_byte_offset::<T>(byte_offset),
            None => Err(MemErr::OutOfRange),
        }
    }

    /// The single bounds check of the whole system: `size_of(T)` bytes at
    /// `byte_offset` must lie inside the buffer. On success the validated
    /// slot is returned; a sum that does not fit in `usize` cannot lie inside
    /// the buffer and is rejected as out of range. Nothing is mutated.
    pub fn get_ptr_byte_offset<T: MemValue>(&self, byte_offset: usize) -> (r: Result<
        MemView<T>,
        MemErr,
    >)
        ensures
            r is Ok <==> spec_fits(byte_offset as nat, T::size_spec(), self@.len()),
            r matches Ok(slot) ==> slot.byte_off_spec() == byte_offset && slot.wf(self@),
            r is Err ==> r == Err::<MemView<T>, MemErr>(MemErr::OutOfRange),
    {
        let size = T::byte_size();
        let l: usize = self.data.len();
        match byte_offset.checked_add(size) {
            Some(end) => {
                if end <= l {
                    Ok(MemView::new(byte_offset))
                } else {
                    Err(MemErr::OutOfRange)
                }
            },
            None => Err(MemErr::OutOfRange),
        }
    }

    /// Read a `T` from the start of the buffer.
    pub fn read<T: MemValue>(&self) -> (r: Result<T, MemErr>)
        ensures
            r == spec_read::<T>(self@, 0),
    {
        match self.get_ptr::<T>() {
            Ok(slot) => Ok(slot.read(self)),
            Err(e) => Err(e),
        }
    }

    /// Read a `T` at an explicit position.
    pub fn read_offset<T: MemValue>(&self, offset: MemOffset) -> (r: Result<T, MemErr>)
        ensures
            r == spec_read::<T>(self@, spec_resolve::<T>(offset)),
    {
        match self.get_ptr_offset::<T>(offset) {
            Ok(slot) => Ok(slot.read(self)),
            Err(e) => Err(e),
        }
    }

    /// Read a `T` at a count of `T`-sized units from the start.
    pub fn read_type_offset<T: MemValue>(&self, type_offset: usize) -> (r: Result<T, MemErr>)
        ensures
            r == spec_read::<T>(self@, (type_offset as nat) * T::size_spec()),
    {
        match self.get_ptr_type_offset::<T>(type_offset) {
            Ok(slot) => Ok(slot.read(self)),
            Err(e) => Err(e),
        }
    }

    /// Read a `T` at a count of bytes from the start.
    pub fn read_byte_offset<T: MemValue>(&self, byte_offset: usize) -> (r: Result<T, MemErr>)
        ensures
            r == spec_read::<T>(self@, byte_offset as nat),
    {
        match self.get_ptr_byte_offset::<T>(byte_offset) {
            Ok(slot) => Ok(slot.read(self)),
            Err(e) => Err(e),
        }
    }

    /// Write a `T` at the start of the buffer. A failed write leaves every
    /// byte unchanged.
    pub fn write<T: MemValue>(&mut self, val: T) -> (r: Result<(), MemErr>)
        ensures
            r is Ok <==> spec_fits(0, T::size_spec(), old(self)@.len()),
            r is Ok ==> final(self)@ == spec_write_bytes(old(self)@, 0, val.to_bytes_spec()),
            r is Err ==> final(self)@ == old(self)@ && r == Err::<(), MemErr>(MemErr::OutOfRange),
    {
        match self.get_ptr::<T>() {
            Ok(slot) => {
                slot.write(self, val);
                Ok(())
            },
            Err(e) => Err(e),
        }
    }

    /// Write a `T` at an explicit position. A failed write leaves every byte
    /// unchanged.
    pub fn write_offset<T: MemValue>(&mut self, offset: MemOffset, val: T) -> (r: Result<
        (),
        MemErr,
    >)
        ensures
            r is Ok <==> spec_fits(spec_resolve::<T>(offset), T::size_spec(), old(self)@.len()),
            r is Ok ==> final(self)@ == spec_write_bytes(
                old(self)@,
                spec_resolve::<T>(offset),
                val.to_bytes_spec(),
            ),
            r is Err ==> final(self)@ == old(self)@ && r == Err::<(), MemErr>(MemErr::OutOfRange),
    {
        match self.get_ptr_offset::<T>(offset) {
            Ok(slot) => {
                slot.write(self, val);
                Ok(())
            },
            Err(e) => Err(e),
        }
    }

    /// Write a `T` at a count of `T`-sized units from the start. A failed
    /// write leaves every byte unchanged.
    pub fn write_type_offset<T: MemValue>(&mut self, type_offset: usize, val: T) -> (r: Result<
        (),
        MemErr,
    >)
        ensures
            r is Ok <==> spec_fits(
                (type_offset as nat) * T::size_spec(),
                T::size_spec(),
                old(self)@.len(),
            ),
            r is Ok ==> final(self)@ == spec_write_bytes(
                old(self)@,
                (type_offset as nat) * T::size_spec(),
                val.to_bytes_spec(),
            ),
            r is Err ==> final(self)@ == old(self)@ && r == Err::<(), MemErr>(MemErr::OutOfRange),
    {
        match self.get_ptr_type_offset::<T>(type_offset) {
            Ok(slot) => {
                slot.write(self, val);
                Ok(())
            },
            Err(e) => Err(e),
        }
    }

    /// Write a `T` at a count of bytes from the start. A failed write leaves
    /// every byte unchanged.
    pub fn write_byte_offset<T: MemValue>(&mut self, byte_offset: usize, val: T) -> (r: Result<
        (),
        MemErr,
    >)
        ensures
            r is Ok <==> spec_fits(byte_offset as nat, T::size_spec(), old(self)@.len()),
            r is Ok ==> final(self)@ == spec_write_bytes(
                old(self)@,
                byte_offset as nat,
                val.to_bytes_spec(),
            ),
            r is Err ==> final(self)@ == old(self)@ && r == Err::<(), MemErr>(MemErr::OutOfRange),
    {
        match self.get_ptr_byte_offset::<T>(byte_offset) {
            Ok(slot) => {
                slot.write(self, val);
                Ok(())
            },
            Err(e) => Err(e),
        }
    }

    /// Obtain a typed view at the start of the buffer: the validated slot is
    /// kept instead of being consumed by a single copy.
    pub fn get_view<T: MemValue>(&self) -> (r: Result<MemView<T>, MemErr>)
        ensures
            r is Ok <==> spec_fits(0, T::size_spec(), self@.len()),
            r matches Ok(v) ==> v.byte_off_spec() == 0 && v.wf(self@),
            r is Err ==> r == Err::<MemView<T>, MemErr>(MemErr::OutOfRange),
    {
        self.get_ptr::<T>()
    }

    /// Obtain a typed view at an explicit position.
    pub fn get_view_offset<T: MemValue>(&self, offset: MemOffset) -> (r: Result<
        MemView<T>,
        MemErr,
    >)
        ensures
            r is Ok <==> spec_fits(spec_resolve::<T>(offset), T::size_spec(), self@.len()),
            r matches Ok(v) ==> v.byte_off_spec() == spec_resolve::<T>(offset) && v.wf(self@),
            r is Err ==> r == Err::<MemView<T>, MemErr>(MemErr::OutOfRange),
    {
        self.get_ptr_offset::<T>(offset)
    }

    /// Obtain a typed view at a count of `T`-sized units from the start.
    pub fn get_view_type_offset<T: MemValue>(&self, type_offset: usize) -> (r: Result<
        MemView<T>,
        MemErr,
    >)
        ensures
            r is Ok <==> spec_fits(
                (type_offset as nat) * T::size_spec(),
                T::size_spec(),
                self@.len(),
            ),
            r matches Ok(v) ==> v.byte_off_spec() == (type_offset as nat) * T::size_spec()
                && v.wf(self@),
            r is Err ==> r == Err::<MemView<T>, MemErr>(MemErr::OutOfRange),
    {
        self.get_ptr_type_offset::<T>(type_offset)
    }

    /// Obtain a typed view at a count of bytes from the start.
    pub fn get_view_byte_offset<T: MemValue>(&self, byte_offset: usize) -> (r: Result<
        MemView<T>,
        MemErr,
    >)
        ensures
            r is Ok <==> spec_fits(byte_offset as nat, T::size_spec(), self@.len()),
            r matches Ok(v) ==> v.byte_off_spec() == byte_offset && v.wf(self@),
            r is Err ==> r == Err::<MemView<T>, MemErr>(MemErr::OutOfRange),
    {
        self.get_ptr_byte_offset::<T>(byte_offset)
    }

    /// Copy `bytes` into the region starting at `off`. This is the one place
    /// where the region's bytes are mutated.
    fn put_bytes(&mut self, off: usize, bytes: &Vec<u8>)
        requires
            off + bytes@.len() <= old(self)@.len(),
        ensures
            final(self)@ == spec_write_bytes(old(self)@, off as nat, bytes@),
    {
        let n: usize = bytes.len();
        // Binding the length as a usize shows the indices below fit.
        let _len: usize = self.data.len();
        let mut i: usize = 0;
        while i < n
            invariant
                i <= n,
                n == bytes@.len(),
                off + n <= self@.len(),
                self@.len() <= usize::MAX,
                self@.len() == old(self)@.len(),
                forall|j: int|
                    0 <= j < self@.len() ==> self@[j] == (if off <= j < off + i {
                        bytes@[j - off]
                    } else {
                        old(self)@[j]
                    }),
            decreases n - i,
        {
            let b: u8 = bytes[i];
            self.data[off + i] = b;
            i = i + 1;
        }
        proof {
            assert(self@ =~= spec_write_bytes(old(self)@, off as nat, bytes@));
        }
    }
}

} // verus!
