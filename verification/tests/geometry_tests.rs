use css_core::geometry::{LayoutPoint, LayoutRect, LayoutSize};

fn rect(x: i64, y: i64, w: i64, h: i64) -> LayoutRect {
    LayoutRect { origin: LayoutPoint { x, y }, size: LayoutSize { width: w, height: h } }
}

#[test]
fn constructors_and_accessors() {
    assert_eq!(LayoutPoint::zero(), LayoutPoint { x: 0, y: 0 });
    assert_eq!(LayoutSize::new(3, 4), LayoutSize { width: 3, height: 4 });
    assert_eq!(LayoutRect::zero(), rect(0, 0, 0, 0));
    let r = rect(1, 2, 10, 20);
    assert_eq!(r.min_x(), 1);
    assert_eq!(r.max_x(), 11);
    assert_eq!(r.min_y(), 2);
    assert_eq!(r.max_y(), 22);
    assert_eq!(r.width(), 10);
    assert_eq!(r.height(), 20);
}

#[test]
fn contains_is_half_open() {
    let r = rect(0, 0, 10, 10);
    assert!(r.contains(&LayoutPoint { x: 0, y: 0 }));
    assert!(r.contains(&LayoutPoint { x: 9, y: 9 }));
    assert!(!r.contains(&LayoutPoint { x: 10, y: 5 }));
    assert!(!r.contains(&LayoutPoint { x: 5, y: 10 }));
    assert!(!r.contains(&LayoutPoint { x: -1, y: 5 }));
}

#[test]
fn hit_test_returns_strict_interior_offset() {
    let r = rect(10, 10, 10, 10);
    // Edges are not hits.
    assert_eq!(r.hit_test(&LayoutPoint { x: 10, y: 15 }), None);
    assert_eq!(r.hit_test(&LayoutPoint { x: 20, y: 15 }), None);
    assert_eq!(
        r.hit_test(&LayoutPoint { x: 12, y: 17 }),
        Some(LayoutPoint { x: 2, y: 7 })
    );
}

#[test]
fn contains_rect() {
    let outer = rect(0, 0, 100, 100);
    assert!(outer.contains_rect(&rect(10, 10, 20, 20)));
    assert!(outer.contains_rect(&outer));
    assert!(!outer.contains_rect(&rect(90, 90, 20, 20)));
    assert!(!outer.contains_rect(&rect(-1, 0, 10, 10)));
}

#[test]
fn union_of_empty_is_none() {
    assert_eq!(LayoutRect::union(&[]), None);
}

#[test]
fn union_folds_against_running_minima() {
    // The extent widens against the minima gathered so far, then the
    // minima are lowered, so the fold depends on the input order.
    let a = rect(10, 0, 1, 1);
    let b = rect(0, 0, 5, 5);
    let u = LayoutRect::union(&[a, b]).unwrap();
    assert_eq!(u.origin, LayoutPoint { x: 0, y: 0 });
    assert_eq!(u.size, LayoutSize { width: 1, height: 5 });
    // In the other order the true extent is found.
    let u2 = LayoutRect::union(&[b, a]).unwrap();
    assert_eq!(u2.origin, LayoutPoint { x: 0, y: 0 });
    assert_eq!(u2.size, LayoutSize { width: 11, height: 5 });
}

#[test]
fn get_scroll_rect_folds_self_with_children() {
    let parent = rect(0, 0, 50, 50);
    assert_eq!(parent.get_scroll_rect(&[]), None);
    let child = rect(0, 0, 80, 20);
    let r = parent.get_scroll_rect(&[child]).unwrap();
    assert_eq!(r.origin, LayoutPoint { x: 0, y: 0 });
    assert_eq!(r.size, LayoutSize { width: 80, height: 50 });
}
