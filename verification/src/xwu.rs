//! The `xwu` interface: identifiers, geometry, host calls and widget handles.

pub mod abi;
pub mod call;
pub mod geometry;
pub mod obj;

pub use abi::{CoordType, ErrorCode, IObjType, ObjAttr};
pub use call::{CoordGet, CoordSet, ObjCreate, ObjDestroy, RectGet, RectSet};
pub use geometry::{BoxType, PosType, RectSizeType, RectType, SizeType};
pub use obj::Obj;
