use textmesh::geometry::{Extent2, Point3};
use textmesh::gui_object::{Alignment, Size};

fn p(x: i64, y: i64, z: i64) -> Point3 {
    Point3 { x, y, z }
}

fn e(x: i64, y: i64) -> Extent2 {
    Extent2 { x, y }
}

#[test]
fn center_alignment_centers_both_axes() {
    let r = Alignment::Center.align_position(p(0, 0, 0), e(10, 10), e(100, 100));
    assert_eq!(r, p(45, 45, 0));
}

#[test]
fn top_left_is_identity() {
    let q = p(17, -3, 42);
    let r = Alignment::TopLeft.align_position(q, e(10, 999), e(5, 1234));
    assert_eq!(r, q);
}

#[test]
fn bottom_right_uses_full_slack() {
    let r = Alignment::BottomRight.align_position(p(1, 2, 3), e(10, 20), e(100, 200));
    assert_eq!(r, p(1 + 90, 2 + 180, 3));
}

#[test]
fn top_center_shifts_only_x() {
    let r = Alignment::TopCenter.align_position(p(0, 7, 0), e(10, 10), e(100, 100));
    assert_eq!(r, p(45, 7, 0));
}

#[test]
fn center_left_shifts_only_y() {
    let r = Alignment::CenterLeft.align_position(p(7, 0, 0), e(10, 10), e(100, 100));
    assert_eq!(r, p(7, 45, 0));
}

#[test]
fn bottom_center_mixes_half_and_full() {
    let r = Alignment::BottomCenter.align_position(p(0, 0, -1), e(10, 20), e(100, 200));
    assert_eq!(r, p(45, 180, -1));
}

#[test]
fn depth_always_passes_through() {
    let r = Alignment::CenterRight.align_position(p(0, 0, 123), e(2, 2), e(8, 8));
    assert_eq!(r.z, 123);
    assert_eq!(r.x, 6);
    assert_eq!(r.y, 3);
}

#[test]
fn size_enum_holds_manual_extent() {
    let s = Size::Manual(e(12, 34));
    match s {
        Size::Manual(v) => assert_eq!(v, e(12, 34)),
        Size::Auto => panic!("expected a manual size"),
    }
}
