//! Host calls, as values.
//!
//! A call names the entry point by its type and holds the arguments that the
//! entry point receives. The two lifecycle calls are open records. The four
//! attribute calls are sealed: the host moves as many words as the
//! attribute's value has, so a call for a coordinate must name a coordinate
//! attribute and a call for a rectangle a rectangle attribute. Each sealed
//! type keeps that as its invariant, and only this crate can make one.

use vstd::prelude::*;
use crate::xwu::abi::{CoordType, IObjType, ObjAttr};
use crate::xwu::geometry::RectType;

verus! {

/// Asks the host for a new object of kind `oid` under the parent `par`. The
/// host answers with the new object's reference.
#[derive(Debug, Clone, Copy, PartialEq, Eq, Structural)]
pub struct ObjCreate {
    pub oid: IObjType,
    pub par: u64,
}

/// Asks the host to destroy the object `obj` of kind `oid`.
#[derive(Debug, Clone, Copy, PartialEq, Eq, Structural)]
pub struct ObjDestroy {
    pub oid: IObjType,
    pub obj: u64,
}

/// Asks the host for the value of a coordinate attribute. The host writes
/// one coordinate.
#[derive(Debug, Clone, Copy)]
pub struct CoordGet {
    obj: u64,
    tid: ObjAttr,
}

/// Asks the host for the value of a rectangle attribute. The host writes one
/// rectangle.
#[derive(Debug, Clone, Copy)]
pub struct RectGet {
    obj: u64,
    tid: ObjAttr,
}

/// Asks the host to set a coordinate attribute to `par`.
#[derive(Debug, Clone, Copy)]
pub struct CoordSet {
    obj: u64,
    tid: ObjAttr,
    par: CoordType,
}

/// Asks the host to set a rectangle attribute to `par`.
#[derive(Debug, Clone, Copy)]
pub struct RectSet {
    obj: u64,
    tid: ObjAttr,
    par: RectType,
}

impl View for CoordGet {
    type V = (u64, ObjAttr);

    /// The object and the attribute.
    closed spec fn view(&self) -> (u64, ObjAttr) {
        (self.obj, self.tid)
    }
}

impl View for RectGet {
    type V = (u64, ObjAttr);

    /// The object and the attribute.
    closed spec fn view(&self) -> (u64, ObjAttr) {
        (self.obj, self.tid)
    }
}

impl View for CoordSet {
    type V = (u64, ObjAttr, CoordType);

    /// The object, the attribute and the new value.
    closed spec fn view(&self) -> (u64, ObjAttr, CoordType) {
        (self.obj, self.tid, self.par)
    }
}

impl View for RectSet {
    type V = (u64, ObjAttr, RectType);

    /// The object, the attribute and the new value.
    closed spec fn view(&self) -> (u64, ObjAttr, RectType) {
        (self.obj, self.tid, self.par)
    }
}

impl CoordGet {
    #[verifier::type_invariant]
    spec fn shape_fits(self) -> bool {
        !self.tid.is_rect()
    }

    pub(crate) fn new(obj: u64, tid: ObjAttr) -> (call: Self)
        requires
            !tid.is_rect(),
        ensures
            call@ == (obj, tid),
    {
        CoordGet { obj, tid }
    }

    /// The object whose attribute is read.
    pub fn obj(&self) -> (obj: u64)
        ensures
            obj == self@.0,
    {
        self.obj
    }

    /// The attribute that is read, always one whose value is a coordinate.
    pub fn tid(&self) -> (tid: ObjAttr)
        ensures
            tid == self@.1,
            !tid.is_rect(),
    {
        proof {
            use_type_invariant(self);
        }
        self.tid
    }
}

impl RectGet {
    #[verifier::type_invariant]
    spec fn shape_fits(self) -> bool {
        self.tid.is_rect()
    }

    pub(crate) fn new(obj: u64, tid: ObjAttr) -> (call: Self)
        requires
            tid.is_rect(),
        ensures
            call@ == (obj, tid),
    {
        RectGet { obj, tid }
    }

    /// The object whose attribute is read.
    pub fn obj(&self) -> (obj: u64)
        ensures
            obj == self@.0,
    {
        self.obj
    }

    /// The attribute that is read, always one whose value is a rectangle.
    pub fn tid(&self) -> (tid: ObjAttr)
        ensures
            tid == self@.1,
            tid.is_rect(),
    {
        proof {
            use_type_invariant(self);
        }
        self.tid
    }
}

impl CoordSet {
    #[verifier::type_invariant]
    spec fn shape_fits(self) -> bool {
        !self.tid.is_rect()
    }

    pub(crate) fn new(obj: u64, tid: ObjAttr, par: CoordType) -> (call: Self)
        requires
            !tid.is_rect(),
        ensures
            call@ == (obj, tid, par),
    {
        CoordSet { obj, tid, par }
    }

    /// The object whose attribute is written.
    pub fn obj(&self) -> (obj: u64)
        ensures
            obj == self@.0,
    {
        self.obj
    }

    /// The attribute that is written, always one whose value is a coordinate.
    pub fn tid(&self) -> (tid: ObjAttr)
        ensures
            tid == self@.1,
            !tid.is_rect(),
    {
        proof {
            use_type_invariant(self);
        }
        self.tid
    }

    /// The value that the host is to store.
    pub fn par(&self) -> (par: CoordType)
        ensures
            par == self@.2,
    {
        self.par
    }
}

impl RectSet {
    #[verifier::type_invariant]
    spec fn shape_fits(self) -> bool {
        self.tid.is_rect()
    }

    pub(crate) fn new(obj: u64, tid: ObjAttr, par: RectType) -> (call: Self)
        requires
            tid.is_rect(),
        ensures
            call@ == (obj, tid, par),
    {
        RectSet { obj, tid, par }
    }

    /// The object whose attribute is written.
    pub fn obj(&self) -> (obj: u64)
        ensures
            obj == self@.0,
    {
        self.obj
    }

    /// The attribute that is written, always one whose value is a rectangle.
    pub fn tid(&self) -> (tid: ObjAttr)
        ensures
            tid == self@.1,
            tid.is_rect(),
    {
        proof {
            use_type_invariant(self);
        }
        self.tid
    }

    /// The value that the host is to store.
    pub fn par(&self) -> (par: RectType)
        ensures
            par == self@.2,
    {
        self.par
    }
}

} // verus!
