use bevy_svg::document::PathNode;
use bevy_svg::geom::{Transform2, FIXED_ONE};
use bevy_svg::path::{PathEvent, PathSegment};
use bevy_svg::geom::Point;
use bevy_svg::style::{
    CapStyle, Color, DrawType, Fill, JoinStyle, LineCap, LineJoin, Paint, Rgb, Stroke, StrokeOptions,
    STROKE_TOLERANCE,
};
use bevy_svg::Convert;

#[test]
fn flat_fill_keeps_color_and_takes_opacity() {
    let f = Fill { paint: Paint::Color(Rgb { red: 10, green: 20, blue: 30 }), opacity: 128 };
    assert_eq!(f.resolve(), (Color { red: 10, green: 20, blue: 30, alpha: 128 }, DrawType::Fill));
}

#[test]
fn gradient_falls_back_to_white() {
    for paint in [Paint::LinearGradient, Paint::RadialGradient, Paint::Pattern] {
        let f = Fill { paint, opacity: 7 };
        assert_eq!(f.resolve().0, Color { red: 255, green: 255, blue: 255, alpha: 255 });
    }
    assert_eq!(Color::default(), Color { red: 255, green: 255, blue: 255, alpha: 255 });
}

#[test]
fn stroke_maps_width_cap_and_join() {
    let s = Stroke {
        paint: Paint::Color(Rgb { red: 1, green: 2, blue: 3 }),
        opacity: 255,
        width: 3 * FIXED_ONE,
        linecap: CapStyle::Square,
        linejoin: JoinStyle::MiterClip,
    };
    let (color, draw) = (&s).convert();
    assert_eq!(color, Color { red: 1, green: 2, blue: 3, alpha: 255 });
    assert_eq!(
        draw,
        DrawType::Stroke(StrokeOptions {
            tolerance: STROKE_TOLERANCE,
            line_width: 3 * FIXED_ONE,
            line_cap: LineCap::Square,
            line_join: LineJoin::MiterClip,
        })
    );
    assert_eq!(STROKE_TOLERANCE, FIXED_ONE / 100);
    let caps = [(CapStyle::Butt, LineCap::Butt), (CapStyle::Round, LineCap::Round)];
    for (c, l) in caps {
        let mut s2 = s;
        s2.linecap = c;
        match s2.resolve().1 {
            DrawType::Stroke(o) => assert_eq!(o.line_cap, l),
            DrawType::Fill => panic!("a stroke resolves to a stroke"),
        }
    }
    let joins = [(JoinStyle::Miter, LineJoin::Miter), (JoinStyle::Bevel, LineJoin::Bevel), (JoinStyle::Round, LineJoin::Round)];
    for (j, l) in joins {
        let mut s2 = s;
        s2.linejoin = j;
        match s2.resolve().1 {
            DrawType::Stroke(o) => assert_eq!(o.line_join, l),
            DrawType::Fill => panic!("a stroke resolves to a stroke"),
        }
    }
}

#[test]
fn path_node_converts_to_its_event_stream() {
    let node = PathNode {
        segments: vec![PathSegment::MoveTo(Point { x: 1, y: 1 }), PathSegment::Close],
        fill: None,
        stroke: None,
        abs_transform: Transform2::identity(),
    };
    let mut it = (&node).convert();
    assert_eq!(
        it.collect_events(),
        vec![
            PathEvent::Begin { at: Point { x: 1, y: 1 } },
            PathEvent::End { last: Point { x: 1, y: 1 }, first: Point { x: 1, y: 1 }, close: true },
        ]
    );
}

#[test]
fn path_node_convert_applies_sign_correction() {
    let node = PathNode {
        segments: vec![PathSegment::MoveTo(Point { x: 2, y: 3 }), PathSegment::LineTo(Point { x: 4, y: 5 })],
        fill: None,
        stroke: None,
        abs_transform: Transform2 { sx: FIXED_ONE, ky: 0, kx: 0, sy: -FIXED_ONE, tx: 0, ty: 0 },
    };
    let mut it = (&node).convert();
    assert_eq!(
        it.collect_events(),
        vec![
            PathEvent::Begin { at: Point { x: 2, y: -3 } },
            PathEvent::Line { from: Point { x: 2, y: -3 }, to: Point { x: 4, y: -5 } },
            PathEvent::End { last: Point { x: 4, y: -5 }, first: Point { x: 2, y: -3 }, close: false },
        ]
    );
    assert_eq!(it.next(), None);
}
