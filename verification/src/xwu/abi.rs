//! Numeric identifiers fixed by the host.
//!
//! The host tells object kinds, attributes and outcomes apart by number. Each
//! table is an enum here, and `code` gives the number that crosses the
//! boundary.

use vstd::prelude::*;

verus! {

/// A coordinate or extent, in the host's units.
pub type CoordType = i32;

/// The outcome that the host reports for an attribute call.
#[derive(Debug, Clone, Copy, PartialEq, Eq, Structural)]
pub enum ErrorCode {
    Done,
    OK,
    Error,
}

impl ErrorCode {
    /// The number that the host returns for this outcome.
    pub open spec fn spec_code(self) -> i32 {
        match self {
            ErrorCode::Done => 0,
            ErrorCode::OK => 1,
            ErrorCode::Error => 2,
        }
    }

    #[verifier::when_used_as_spec(spec_code)]
    pub fn code(self) -> (code: i32)
        ensures
            code == self.spec_code(),
    {
        match self {
            ErrorCode::Done => 0,
            ErrorCode::OK => 1,
            ErrorCode::Error => 2,
        }
    }
}

/// The kinds of object the host can create.
#[derive(Debug, Clone, Copy, PartialEq, Eq, Structural)]
pub enum IObjType {
    Obj,
    Button,
}

impl IObjType {
    /// The number by which the host knows this kind of object.
    pub open spec fn spec_code(self) -> i32 {
        match self {
            IObjType::Obj => 1,
            IObjType::Button => 10,
        }
    }

    #[verifier::when_used_as_spec(spec_code)]
    pub fn code(self) -> (code: i32)
        ensures
            code == self.spec_code(),
    {
        match self {
            IObjType::Obj => 1,
            IObjType::Button => 10,
        }
    }
}

/// The attributes of an object that the host lets a guest read or write.
#[derive(Debug, Clone, Copy, PartialEq, Eq, Structural)]
pub enum ObjAttr {
    Width,
    Height,
    X,
    Y,
    Coords,
    OriCoords,
    Rect,
    ScrollCoords,
    ScrollLeft,
    ScrollTop,
    ScrollRight,
    ScrollBottom,
}

impl ObjAttr {
    /// The number by which the host knows this attribute.
    pub open spec fn spec_code(self) -> i32 {
        match self {
            ObjAttr::Width => 150,
            ObjAttr::Height => 151,
            ObjAttr::X => 152,
            ObjAttr::Y => 153,
            ObjAttr::Coords => 154,
            ObjAttr::OriCoords => 155,
            ObjAttr::Rect => 156,
            ObjAttr::ScrollCoords => 157,
            ObjAttr::ScrollLeft => 158,
            ObjAttr::ScrollTop => 159,
            ObjAttr::ScrollRight => 160,
            ObjAttr::ScrollBottom => 161,
        }
    }

    #[verifier::when_used_as_spec(spec_code)]
    pub fn code(self) -> (code: i32)
        ensures
            code == self.spec_code(),
    {
        match self {
            ObjAttr::Width => 150,
            ObjAttr::Height => 151,
            ObjAttr::X => 152,
            ObjAttr::Y => 153,
            ObjAttr::Coords => 154,
            ObjAttr::OriCoords => 155,
            ObjAttr::Rect => 156,
            ObjAttr::ScrollCoords => 157,
            ObjAttr::ScrollLeft => 158,
            ObjAttr::ScrollTop => 159,
            ObjAttr::ScrollRight => 160,
            ObjAttr::ScrollBottom => 161,
        }
    }

    /// Whether the attribute's value is a rectangle. The value of every other
    /// attribute is a single coordinate. The host reads and writes as many
    /// words as the value has, so a call must bring storage of that shape.
    pub open spec fn is_rect(self) -> bool {
        self is Coords || self is OriCoords || self is Rect || self is ScrollCoords
    }
}

} // verus!
