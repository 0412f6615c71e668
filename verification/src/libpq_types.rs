//! The primitive wire types: fixed-width integers in network order, a fixed
//! array of four bytes, null-terminated strings, and arrays with a 16-bit
//! count, with a 32-bit count, or with a terminator.

pub mod cstring;
pub mod elements;
pub mod integers;
pub mod vec16;
pub mod vec32;
pub mod vec_null;

pub use cstring::CString;
pub use integers::{Byte, Byte4};
pub use vec16::Vec16;
pub use vec32::Vec32;
pub use vec_null::VecNull;
