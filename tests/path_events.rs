use bevy_svg::geom::{Point, Transform2, FIXED_ONE};
use bevy_svg::path::{convert_segments, PathConvIter, PathEvent, PathSegment};

fn pt(x: i64, y: i64) -> Point {
    Point { x, y }
}

fn convert(segs: Vec<PathSegment>) -> Vec<PathEvent> {
    convert_segments(&segs, &Transform2::identity())
}

#[test]
fn empty_path_gives_no_event() {
    assert!(convert(vec![]).is_empty());
}

#[test]
fn open_path_ends_with_one_open_end() {
    let ev = convert(vec![
        PathSegment::MoveTo(pt(1, 2)),
        PathSegment::LineTo(pt(3, 4)),
        PathSegment::CubicTo(pt(5, 6), pt(7, 8), pt(9, 10)),
    ]);
    assert_eq!(
        ev,
        vec![
            PathEvent::Begin { at: pt(1, 2) },
            PathEvent::Line { from: pt(1, 2), to: pt(3, 4) },
            PathEvent::Cubic { from: pt(3, 4), ctrl1: pt(5, 6), ctrl2: pt(7, 8), to: pt(9, 10) },
            PathEvent::End { last: pt(9, 10), first: pt(1, 2), close: false },
        ]
    );
    let open_ends = ev
        .iter()
        .filter(|e| matches!(e, PathEvent::End { close: false, .. }))
        .count();
    assert_eq!(open_ends, 1);
}

#[test]
fn each_close_gives_one_closed_end_at_the_subpath_start() {
    let ev = convert(vec![
        PathSegment::MoveTo(pt(0, 0)),
        PathSegment::LineTo(pt(10, 0)),
        PathSegment::LineTo(pt(10, 10)),
        PathSegment::Close,
        PathSegment::MoveTo(pt(20, 20)),
        PathSegment::QuadTo(pt(25, 30), pt(30, 20)),
        PathSegment::Close,
    ]);
    let closed: Vec<&PathEvent> = ev
        .iter()
        .filter(|e| matches!(e, PathEvent::End { close: true, .. }))
        .collect();
    assert_eq!(closed.len(), 2);
    assert_eq!(*closed[0], PathEvent::End { last: pt(0, 0), first: pt(0, 0), close: true });
    assert_eq!(*closed[1], PathEvent::End { last: pt(20, 20), first: pt(20, 20), close: true });
    assert_eq!(ev[5], PathEvent::Quadratic { from: pt(20, 20), ctrl: pt(25, 30), to: pt(30, 20) });
    assert_eq!(ev.len(), 7);
}

#[test]
fn move_after_drawing_synthesizes_end_before_begin() {
    let ev = convert(vec![
        PathSegment::MoveTo(pt(1, 1)),
        PathSegment::LineTo(pt(2, 2)),
        PathSegment::MoveTo(pt(5, 5)),
        PathSegment::LineTo(pt(6, 6)),
    ]);
    assert_eq!(
        ev,
        vec![
            PathEvent::Begin { at: pt(1, 1) },
            PathEvent::Line { from: pt(1, 1), to: pt(2, 2) },
            PathEvent::End { last: pt(2, 2), first: pt(1, 1), close: false },
            PathEvent::Begin { at: pt(5, 5) },
            PathEvent::Line { from: pt(5, 5), to: pt(6, 6) },
            PathEvent::End { last: pt(6, 6), first: pt(5, 5), close: false },
        ]
    );
}

#[test]
fn negative_scale_mirrors_the_axis() {
    let t = Transform2 { sx: -FIXED_ONE, ky: 0, kx: 0, sy: FIXED_ONE, tx: 0, ty: 0 };
    let segs = vec![PathSegment::MoveTo(pt(3, 4)), PathSegment::LineTo(pt(-5, 6))];
    let ev = convert_segments(&segs, &t);
    assert_eq!(
        ev,
        vec![
            PathEvent::Begin { at: pt(-3, 4) },
            PathEvent::Line { from: pt(-3, 4), to: pt(5, 6) },
            PathEvent::End { last: pt(5, 6), first: pt(-3, 4), close: false },
        ]
    );
    let t2 = Transform2 { sx: FIXED_ONE, ky: 0, kx: 0, sy: -FIXED_ONE, tx: 0, ty: 0 };
    let ev2 = convert_segments(&vec![PathSegment::MoveTo(pt(3, i64::MIN))], &t2);
    assert_eq!(ev2, vec![PathEvent::Begin { at: pt(3, i64::MAX) }]);
}

#[test]
fn iterator_is_lazy_and_stays_exhausted() {
    let segs = vec![PathSegment::MoveTo(pt(1, 1)), PathSegment::LineTo(pt(2, 2)), PathSegment::MoveTo(pt(3, 3))];
    let mut it = PathConvIter::new(segs, &Transform2::identity());
    assert_eq!(it.next(), Some(PathEvent::Begin { at: pt(1, 1) }));
    assert_eq!(it.next(), Some(PathEvent::Line { from: pt(1, 1), to: pt(2, 2) }));
    assert_eq!(it.next(), Some(PathEvent::End { last: pt(2, 2), first: pt(1, 1), close: false }));
    assert_eq!(it.next(), Some(PathEvent::Begin { at: pt(3, 3) }));
    assert_eq!(it.next(), None);
    assert_eq!(it.next(), None);
}
