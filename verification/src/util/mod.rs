pub mod channels;
pub mod extent;
pub mod ffi;
pub mod lazy;
pub mod offset;

pub use crate::util::extent::Extent;
pub use crate::util::offset::Offset;
