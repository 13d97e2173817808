//! Widget handles and the host calls behind their operations.

use vstd::prelude::*;
use crate::xwu::abi::{CoordType, IObjType, ObjAttr};
use crate::xwu::call::{CoordGet, CoordSet, ObjCreate, ObjDestroy, RectGet, RectSet};
use crate::xwu::geometry::RectType;

verus! {

/// A handle to a widget that the host owns: the host's reference to the
/// widget, and the kind of object it was created as. The reference is opaque
/// to the guest, which only hands it back to the host.
///
/// Every operation on a handle returns the one host call that carries it
/// out, with the handle's reference as the object, the attribute that the
/// operation is named after, and, for a setter, the value given.
#[derive(Debug, Clone, Copy)]
pub struct Obj {
    oid: IObjType,
    obj: u64,
}

impl Obj {
    /// The kind of object behind the handle.
    pub closed spec fn kind(&self) -> IObjType {
        self.oid
    }

    /// The host's reference to the widget.
    pub closed spec fn handle(&self) -> u64 {
        self.obj
    }

    /// The call that creates a plain object under `par`. The handle to the
    /// new object is `Obj::from` of the reference that the host answers with.
    pub fn new(par: &Obj) -> (call: ObjCreate)
        ensures
            call == (ObjCreate { oid: IObjType::Obj, par: par.handle() }),
    {
        ObjCreate { oid: IObjType::Obj, par: par.obj }
    }

    /// The handle to the plain object that the host refers to by `obj`.
    pub fn from(obj: u64) -> (handle: Self)
        ensures
            handle.kind() == IObjType::Obj,
            handle.handle() == obj,
    {
        Self { oid: IObjType::Obj, obj }
    }

    /// The call that destroys the widget.
    pub fn destroy(&self) -> (call: ObjDestroy)
        ensures
            call == (ObjDestroy { oid: self.kind(), obj: self.handle() }),
    {
        ObjDestroy { oid: self.oid, obj: self.obj }
    }

    /// The call that reads the `Width` attribute.
    pub fn get_width(&self) -> (call: CoordGet)
        ensures
            call@ == (self.handle(), ObjAttr::Width),
    {
        CoordGet::new(self.obj, ObjAttr::Width)
    }

    /// The call that reads the `Height` attribute.
    pub fn get_height(&self) -> (call: CoordGet)
        ensures
            call@ == (self.handle(), ObjAttr::Height),
    {
        CoordGet::new(self.obj, ObjAttr::Height)
    }

    /// The call that reads the `X` attribute.
    pub fn get_x(&self) -> (call: CoordGet)
        ensures
            call@ == (self.handle(), ObjAttr::X),
    {
        CoordGet::new(self.obj, ObjAttr::X)
    }

    /// The call that reads the `Y` attribute.
    pub fn get_y(&self) -> (call: CoordGet)
        ensures
            call@ == (self.handle(), ObjAttr::Y),
    {
        CoordGet::new(self.obj, ObjAttr::Y)
    }

    /// The call that reads the `Coords` attribute.
    pub fn get_coords(&self) -> (call: RectGet)
        ensures
            call@ == (self.handle(), ObjAttr::Coords),
    {
        RectGet::new(self.obj, ObjAttr::Coords)
    }

    /// The call that reads the `OriCoords` attribute.
    pub fn get_ori_coords(&self) -> (call: RectGet)
        ensures
            call@ == (self.handle(), ObjAttr::OriCoords),
    {
        RectGet::new(self.obj, ObjAttr::OriCoords)
    }

    /// The call that reads the `Rect` attribute.
    pub fn get_rect(&self) -> (call: RectGet)
        ensures
            call@ == (self.handle(), ObjAttr::Rect),
    {
        RectGet::new(self.obj, ObjAttr::Rect)
    }

    /// The call that reads the `ScrollCoords` attribute.
    pub fn get_scroll_coords(&self) -> (call: RectGet)
        ensures
            call@ == (self.handle(), ObjAttr::ScrollCoords),
    {
        RectGet::new(self.obj, ObjAttr::ScrollCoords)
    }

    /// The call that reads the `ScrollLeft` attribute.
    pub fn get_scroll_left(&self) -> (call: CoordGet)
        ensures
            call@ == (self.handle(), ObjAttr::ScrollLeft),
    {
        CoordGet::new(self.obj, ObjAttr::ScrollLeft)
    }

    /// The call that reads the `ScrollTop` attribute.
    pub fn get_scroll_top(&self) -> (call: CoordGet)
        ensures
            call@ == (self.handle(), ObjAttr::ScrollTop),
    {
        CoordGet::new(self.obj, ObjAttr::ScrollTop)
    }

    /// The call that reads the `ScrollRight` attribute.
    pub fn get_scroll_right(&self) -> (call: CoordGet)
        ensures
            call@ == (self.handle(), ObjAttr::ScrollRight),
    {
        CoordGet::new(self.obj, ObjAttr::ScrollRight)
    }

    /// The call that reads the `ScrollBottom` attribute.
    pub fn get_scroll_bottom(&self) -> (call: CoordGet)
        ensures
            call@ == (self.handle(), ObjAttr::ScrollBottom),
    {
        CoordGet::new(self.obj, ObjAttr::ScrollBottom)
    }

    /// The call that sets the `Width` attribute to `width`.
    pub fn set_width(&self, width: CoordType) -> (call: CoordSet)
        ensures
            call@ == (self.handle(), ObjAttr::Width, width),
    {
        CoordSet::new(self.obj, ObjAttr::Width, width)
    }

    /// The call that sets the `Height` attribute to `height`.
    pub fn set_height(&self, height: CoordType) -> (call: CoordSet)
        ensures
            call@ == (self.handle(), ObjAttr::Height, height),
    {
        CoordSet::new(self.obj, ObjAttr::Height, height)
    }

    /// The call that sets the `X` attribute to `x`.
    pub fn set_x(&self, x: CoordType) -> (call: CoordSet)
        ensures
            call@ == (self.handle(), ObjAttr::X, x),
    {
        CoordSet::new(self.obj, ObjAttr::X, x)
    }

    /// The call that sets the `Y` attribute to `y`.
    pub fn set_y(&self, y: CoordType) -> (call: CoordSet)
        ensures
            call@ == (self.handle(), ObjAttr::Y, y),
    {
        CoordSet::new(self.obj, ObjAttr::Y, y)
    }

    /// The call that sets the `Coords` attribute to `coords`.
    pub fn set_coords(&self, coords: RectType) -> (call: RectSet)
        ensures
            call@ == (self.handle(), ObjAttr::Coords, coords),
    {
        RectSet::new(self.obj, ObjAttr::Coords, coords)
    }

    /// The call that sets the `ScrollLeft` attribute to `left`.
    pub fn set_scroll_left(&self, left: CoordType) -> (call: CoordSet)
        ensures
            call@ == (self.handle(), ObjAttr::ScrollLeft, left),
    {
        CoordSet::new(self.obj, ObjAttr::ScrollLeft, left)
    }

    /// The call that sets the `ScrollTop` attribute to `top`.
    pub fn set_scroll_top(&self, top: CoordType) -> (call: CoordSet)
        ensures
            call@ == (self.handle(), ObjAttr::ScrollTop, top),
    {
        CoordSet::new(self.obj, ObjAttr::ScrollTop, top)
    }

    /// The call that sets the `ScrollRight` attribute to `right`.
    pub fn set_scroll_right(&self, right: CoordType) -> (call: CoordSet)
        ensures
            call@ == (self.handle(), ObjAttr::ScrollRight, right),
    {
        CoordSet::new(self.obj, ObjAttr::ScrollRight, right)
    }

    /// The call that sets the `ScrollBottom` attribute to `bottom`.
    pub fn set_scroll_bottom(&self, bottom: CoordType) -> (call: CoordSet)
        ensures
            call@ == (self.handle(), ObjAttr::ScrollBottom, bottom),
    {
        CoordSet::new(self.obj, ObjAttr::ScrollBottom, bottom)
    }

    /// The call that sets the `ScrollCoords` attribute to `coords`.
    pub fn set_scroll_coords(&self, coords: RectType) -> (call: RectSet)
        ensures
            call@ == (self.handle(), ObjAttr::ScrollCoords, coords),
    {
        RectSet::new(self.obj, ObjAttr::ScrollCoords, coords)
    }
}

} // verus!
