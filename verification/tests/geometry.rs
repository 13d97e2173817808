use xwu_guest::xwu::{BoxType, CoordType, PosType, RectSizeType, RectType, SizeType};

#[test]
fn fresh_position_is_the_origin() {
    let pos = PosType::default();
    assert_eq!(pos.x, 0);
    assert_eq!(pos.y, 0);
    assert_eq!(pos, PosType { x: 0, y: 0 });
}

#[test]
fn fresh_size_is_empty() {
    let size = SizeType::default();
    assert_eq!(size.w, 0);
    assert_eq!(size.h, 0);
    assert_eq!(size, SizeType { w: 0, h: 0 });
}

#[test]
fn fresh_rectangle_has_both_corners_at_the_origin() {
    let rect = RectType::default();
    assert_eq!(rect.x0, 0);
    assert_eq!(rect.y0, 0);
    assert_eq!(rect.x1, 0);
    assert_eq!(rect.y1, 0);
    assert_eq!(rect, RectType { x0: 0, y0: 0, x1: 0, y1: 0 });
}

#[test]
fn fresh_sized_rectangle_is_empty_at_the_origin() {
    let rect = RectSizeType::default();
    assert_eq!(rect.x, 0);
    assert_eq!(rect.y, 0);
    assert_eq!(rect.w, 0);
    assert_eq!(rect.h, 0);
    assert_eq!(rect, RectSizeType { x: 0, y: 0, w: 0, h: 0 });
}

#[test]
fn fresh_box_has_no_extent() {
    let bounds = BoxType::default();
    assert_eq!(bounds.left, 0);
    assert_eq!(bounds.top, 0);
    assert_eq!(bounds.right, 0);
    assert_eq!(bounds.bottom, 0);
    assert_eq!(bounds, BoxType { left: 0, top: 0, right: 0, bottom: 0 });
}

#[test]
fn records_hold_every_coordinate() {
    let lo: CoordType = i32::MIN;
    let hi: CoordType = i32::MAX;
    let rect = RectType { x0: lo, y0: -1, x1: hi, y1: 1 };
    let copy = rect;
    assert_eq!(copy.x0, i32::MIN);
    assert_eq!(copy.y0, -1);
    assert_eq!(copy.x1, i32::MAX);
    assert_eq!(copy.y1, 1);
    assert_eq!(rect.clone(), copy);
    assert_ne!(rect, RectType::default());
}

#[test]
fn records_compare_field_by_field() {
    assert_ne!(PosType { x: 1, y: 2 }, PosType { x: 2, y: 1 });
    assert_ne!(SizeType { w: 3, h: 4 }, SizeType { w: 3, h: 5 });
    assert_ne!(
        RectSizeType { x: 0, y: 0, w: 1, h: 0 },
        RectSizeType { x: 0, y: 0, w: 0, h: 1 }
    );
    assert_ne!(
        BoxType { left: 1, top: 0, right: 0, bottom: 0 },
        BoxType { left: 0, top: 0, right: 1, bottom: 0 }
    );
    assert_eq!(
        format!("{:?}", PosType { x: -3, y: 7 }),
        "PosType { x: -3, y: 7 }"
    );
}
