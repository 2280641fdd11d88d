use niri::geometry::{Point, Rectangle, Size};
use niri::utils::region::{
    filter_damage, region_to_non_overlapping_rects, RectangleKind, RegionAttributes,
};

fn rect(x: i32, y: i32, w: i32, h: i32) -> Rectangle {
    Rectangle { loc: Point { x, y }, size: Size { w, h } }
}

fn decompose(rects: Vec<(RectangleKind, Rectangle)>) -> Vec<Rectangle> {
    let region = RegionAttributes { rects };
    let mut output = vec![rect(7, 7, 7, 7)];
    region_to_non_overlapping_rects(&region, &mut output);
    output
}

#[test]
fn an_empty_region_has_no_parts() {
    assert_eq!(decompose(vec![]), vec![]);
    assert_eq!(decompose(vec![(RectangleKind::Add, rect(0, 0, 0, 5))]), vec![]);
}

#[test]
fn overlapping_parts_are_split_into_bands() {
    let parts = decompose(vec![
        (RectangleKind::Add, rect(0, 0, 10, 10)),
        (RectangleKind::Add, rect(5, 5, 10, 10)),
    ]);
    assert_eq!(parts, vec![rect(0, 0, 10, 5), rect(0, 5, 15, 5), rect(5, 10, 10, 5)]);
}

#[test]
fn a_hole_is_left_out() {
    let parts = decompose(vec![
        (RectangleKind::Add, rect(0, 0, 30, 30)),
        (RectangleKind::Subtract, rect(10, 10, 10, 10)),
    ]);
    assert_eq!(
        parts,
        vec![rect(0, 0, 30, 10), rect(0, 10, 10, 10), rect(20, 10, 10, 10), rect(0, 20, 30, 10)]
    );
}

#[test]
fn what_is_added_later_fills_the_hole() {
    let parts = decompose(vec![
        (RectangleKind::Add, rect(0, 0, 3, 1)),
        (RectangleKind::Subtract, rect(0, 0, 3, 1)),
        (RectangleKind::Add, rect(1, 0, 1, 1)),
    ]);
    assert_eq!(parts, vec![rect(1, 0, 1, 1)]);
}

#[test]
fn parts_do_not_overlap() {
    let parts = decompose(vec![
        (RectangleKind::Add, rect(0, 0, 8, 8)),
        (RectangleKind::Add, rect(3, 2, 20, 3)),
        (RectangleKind::Subtract, rect(4, 1, 2, 6)),
        (RectangleKind::Add, rect(-5, 4, 11, 9)),
    ]);
    for (i, a) in parts.iter().enumerate() {
        for b in &parts[i + 1..] {
            assert!(!a.overlaps(*b));
        }
    }
    for x in -6..25 {
        for y in -1..14 {
            let p = Point { x, y };
            let expected = {
                let mut inside = rect(0, 0, 8, 8).contains(p) || rect(3, 2, 20, 3).contains(p);
                inside = inside && !rect(4, 1, 2, 6).contains(p);
                inside || rect(-5, 4, 11, 9).contains(p)
            };
            assert_eq!(parts.iter().any(|r| r.contains(p)), expected);
        }
    }
}

#[test]
fn damage_is_cut_to_the_pieces() {
    let pieces = vec![rect(0, 0, 10, 10), rect(20, 0, 10, 10)];
    let damage = vec![rect(5, 5, 20, 20), rect(100, 100, 1, 1)];
    let mut filtered = vec![rect(1, 1, 1, 1)];
    filter_damage(&pieces, &damage, &mut filtered);
    assert_eq!(filtered, vec![rect(1, 1, 1, 1), rect(5, 5, 5, 5), rect(20, 5, 5, 5)]);
}
