use bevy_svg::document::PathDescriptor;
use bevy_svg::geom::{Point, Transform2, FIXED_ONE};
use bevy_svg::path::{convert_segments, PathEvent, PathSegment};
use bevy_svg::style::{Color, DrawType};
use bevy_svg::tessellation::{generate_buffer, Geometry, MeshBuffer};
use lyon_tessellation::math::point;
use lyon_tessellation::{
    BuffersBuilder, FillOptions, FillTessellator, FillVertex, StrokeOptions, StrokeTessellator,
    StrokeVertex, VertexBuffers,
};

fn color(r: u8) -> Color {
    Color { red: r, green: 0, blue: 0, alpha: 255 }
}

fn descriptor(r: u8) -> PathDescriptor {
    PathDescriptor {
        segments: vec![],
        abs_transform: Transform2::identity().to_matrix(),
        color: color(r),
        draw_type: DrawType::Fill,
    }
}

fn tri(base: u32) -> Geometry<u32> {
    Geometry { vertices: vec![base, base + 1, base + 2], indices: vec![0, 1, 2] }
}

fn to_lyon(ev: &[PathEvent]) -> Vec<lyon_tessellation::path::PathEvent> {
    let p = |q: Point| point(q.x as f32 / FIXED_ONE as f32, q.y as f32 / FIXED_ONE as f32);
    ev.iter()
        .map(|e| match *e {
            PathEvent::Begin { at } => lyon_tessellation::path::PathEvent::Begin { at: p(at) },
            PathEvent::Line { from, to } => lyon_tessellation::path::PathEvent::Line { from: p(from), to: p(to) },
            PathEvent::Quadratic { from, ctrl, to } => {
                lyon_tessellation::path::PathEvent::Quadratic { from: p(from), ctrl: p(ctrl), to: p(to) }
            }
            PathEvent::Cubic { from, ctrl1, ctrl2, to } => lyon_tessellation::path::PathEvent::Cubic {
                from: p(from),
                ctrl1: p(ctrl1),
                ctrl2: p(ctrl2),
                to: p(to),
            },
            PathEvent::End { last, first, close } => {
                lyon_tessellation::path::PathEvent::End { last: p(last), first: p(first), close }
            }
        })
        .collect()
}

#[test]
fn degenerate_descriptor_is_skipped_and_the_rest_kept() {
    let paths = vec![descriptor(1), descriptor(2), descriptor(3)];
    let outputs = vec![Some(tri(10)), None, Some(tri(30))];
    let (mesh, skipped) = generate_buffer(&paths, &outputs);
    assert_eq!(skipped, 1);
    assert_eq!(mesh.vertices, vec![10, 11, 12, 30, 31, 32]);
    assert_eq!(mesh.indices, vec![0, 1, 2, 3, 4, 5]);
    assert_eq!(mesh.colors, vec![color(1), color(1), color(1), color(3), color(3), color(3)]);
}

#[test]
fn empty_or_broken_geometry_counts_as_skipped() {
    let paths = vec![descriptor(1), descriptor(2), descriptor(3)];
    let outputs = vec![
        Some(Geometry { vertices: vec![1u32], indices: vec![] }),
        Some(Geometry { vertices: vec![1u32, 2], indices: vec![0, 1, 2] }),
        Some(tri(5)),
    ];
    let (mesh, skipped) = generate_buffer(&paths, &outputs);
    assert_eq!(skipped, 2);
    let partial = vec![Some(Geometry { vertices: vec![1u32, 2, 3], indices: vec![0, 1, 2, 0] }), Some(tri(8))];
    let (mesh2, skipped2) = generate_buffer(&vec![descriptor(1), descriptor(2)], &partial);
    assert_eq!(skipped2, 1);
    assert_eq!(mesh2.indices, vec![0, 1, 2]);
    assert_eq!(mesh2.vertices, vec![8, 9, 10]);
    assert_eq!(mesh.vertices, vec![5, 6, 7]);
    assert_eq!(mesh.indices, vec![0, 1, 2]);
    assert_eq!(mesh.colors, vec![color(3); 3]);
}

#[test]
fn append_offsets_indices_by_held_vertices() {
    let mut m: MeshBuffer<u32> = MeshBuffer::new();
    m.append(&tri(0), color(4));
    m.append(&Geometry { vertices: vec![9, 9, 9, 9], indices: vec![3, 2, 1] }, color(5));
    assert_eq!(m.indices, vec![0, 1, 2, 6, 5, 4]);
    assert_eq!(m.colors.len(), 7);
    assert_eq!(m.colors[6], color(5));
}

#[test]
fn line_fills_to_nothing_but_strokes_to_triangles() {
    let segs = vec![
        PathSegment::MoveTo(Point { x: 0, y: 0 }),
        PathSegment::LineTo(Point { x: 10 * FIXED_ONE, y: 0 }),
    ];
    let events = convert_segments(&segs, &Transform2::identity());
    assert!(matches!(events.last(), Some(PathEvent::End { close: false, .. })));

    let mut fill_buf: VertexBuffers<[f32; 2], u32> = VertexBuffers::new();
    let fill_result = FillTessellator::new().tessellate(
        to_lyon(&events),
        &FillOptions::default(),
        &mut BuffersBuilder::new(&mut fill_buf, |v: FillVertex| v.position().to_array()),
    );
    let fill_out = fill_result.ok().map(|_| Geometry { vertices: fill_buf.vertices, indices: fill_buf.indices });

    let mut stroke_buf: VertexBuffers<[f32; 2], u32> = VertexBuffers::new();
    let stroke_result = StrokeTessellator::new().tessellate(
        to_lyon(&events),
        &StrokeOptions::tolerance(0.01).with_line_width(1.0),
        &mut BuffersBuilder::new(&mut stroke_buf, |v: StrokeVertex| v.position().to_array()),
    );
    assert!(stroke_result.is_ok());
    assert!(!stroke_buf.indices.is_empty());
    let stroke_out = Some(Geometry { vertices: stroke_buf.vertices, indices: stroke_buf.indices });

    let n_fill = fill_out.as_ref().map(|g| g.indices.len()).unwrap_or(0);
    assert_eq!(n_fill, 0);

    let paths = vec![descriptor(1), descriptor(2)];
    let (mesh, skipped) = generate_buffer(&paths, &vec![fill_out, stroke_out]);
    assert_eq!(skipped, 1);
    assert!(!mesh.indices.is_empty());
    assert!(mesh.colors.iter().all(|c| *c == color(2)));
}
