//! Geometry records exchanged with the host.
//!
//! Each record is plain data: a few coordinates, every combination of which
//! is a valid value. A fresh record has all coordinates zero.

use vstd::prelude::*;
use crate::xwu::abi::CoordType;

verus! {

/// A point.
#[derive(Debug, Clone, Copy, PartialEq, Eq, Structural)]
pub struct PosType {
    pub x: CoordType,
    pub y: CoordType,
}

/// A width and a height.
#[derive(Debug, Clone, Copy, PartialEq, Eq, Structural)]
pub struct SizeType {
    pub w: CoordType,
    pub h: CoordType,
}

/// A rectangle given by two corners.
#[derive(Debug, Clone, Copy, PartialEq, Eq, Structural)]
pub struct RectType {
    pub x0: CoordType,
    pub y0: CoordType,
    pub x1: CoordType,
    pub y1: CoordType,
}

/// A rectangle given by one corner and its size.
#[derive(Debug, Clone, Copy, PartialEq, Eq, Structural)]
pub struct RectSizeType {
    pub x: CoordType,
    pub y: CoordType,
    pub w: CoordType,
    pub h: CoordType,
}

/// Four distances, one for each side.
#[derive(Debug, Clone, Copy, PartialEq, Eq, Structural)]
pub struct BoxType {
    pub left: CoordType,
    pub top: CoordType,
    pub right: CoordType,
    pub bottom: CoordType,
}

impl Default for PosType {
    fn default() -> (pos: Self)
        ensures
            pos == (PosType { x: 0, y: 0 }),
    {
        PosType { x: 0, y: 0 }
    }
}

impl Default for SizeType {
    fn default() -> (size: Self)
        ensures
            size == (SizeType { w: 0, h: 0 }),
    {
        SizeType { w: 0, h: 0 }
    }
}

impl Default for RectType {
    fn default() -> (rect: Self)
        ensures
            rect == (RectType { x0: 0, y0: 0, x1: 0, y1: 0 }),
    {
        RectType { x0: 0, y0: 0, x1: 0, y1: 0 }
    }
}

impl Default for RectSizeType {
    fn default() -> (rect: Self)
        ensures
            rect == (RectSizeType { x: 0, y: 0, w: 0, h: 0 }),
    {
        RectSizeType { x: 0, y: 0, w: 0, h: 0 }
    }
}

impl Default for BoxType {
    fn default() -> (bounds: Self)
        ensures
            bounds == (BoxType { left: 0, top: 0, right: 0, bottom: 0 }),
    {
        BoxType { left: 0, top: 0, right: 0, bottom: 0 }
    }
}

} // verus!
