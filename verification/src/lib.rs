//! A typed, bounds-checked window over a flat region of bytes.
//!
//! A [`MemBuffer`] owns a fixed-length span of bytes. Callers ask for a value
//! of a statically known type at a position given as the buffer start, a byte
//! offset, or a count of type-sized units, and receive the value, a typed
//! view, or an explicit [`MemErr::OutOfRange`] failure. Every access goes
//! through one bounds check; an access that fails leaves the buffer untouched.
//!
//! Values are laid down in little-endian byte order (see [`MemValue`]).

pub mod laws;
pub mod region;
pub mod value;

pub use region::MemBuffer;
pub use region::MemErr;
pub use region::MemOffset;
pub use region::MemView;
pub use value::MemValue;
