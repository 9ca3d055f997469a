use rui::node::path::{PathNode, PathSegment};
use rui::renderer::path_mesh::{build_path_meshes, build_triangle_fan_and_curve_triangles, color_quad_corners, color_quad_indices};

#[test]
fn path_triangulation_of_a_mixed_path() {
    let path = PathNode {
        from: (0, 0),
        segments: vec![
            PathSegment::Linear { to: (1, 0) },
            PathSegment::CubicBezier { to: (1, 1), params: [(2, 0), (2, 1)] },
            PathSegment::QuadraticBezier { to: (0, 1), param: (0, 2) },
        ],
    };
    let mut fan_vertices = vec![];
    let mut fan_indices = vec![];
    let mut segment_vertices = vec![];
    let mut segment_indices = vec![];
    let mut segments = vec![];
    build_triangle_fan_and_curve_triangles(
        &path,
        &mut fan_vertices,
        &mut fan_indices,
        &mut segment_vertices,
        &mut segment_indices,
        &mut segments,
    );
    let fan: Vec<(i32, i32)> = fan_vertices.iter().map(|v| v.pos).collect();
    assert_eq!(fan, vec![(0, 0), (1, 0), (1, 1), (1, 1), (0, 1)]);
    assert_eq!(fan_indices, vec![0, 1, 2, 0, 3, 4]);
    let seg: Vec<((i32, i32), u32)> = segment_vertices.iter().map(|v| (v.pos, v.segment_index)).collect();
    assert_eq!(
        seg,
        vec![((1, 0), 0), ((2, 0), 0), ((2, 1), 0), ((1, 1), 0), ((1, 1), 1), ((0, 2), 1), ((0, 1), 1)]
    );
    assert_eq!(segment_indices, vec![0, 1, 2, 1, 2, 3, 4, 5, 6]);
    assert_eq!(segments.len(), 1);
    let c = &segments[0];
    assert_eq!((c.param0, c.param1, c.param2, c.param3), ((1, 0), (2, 0), (2, 1), (1, 1)));
}

#[test]
fn path_triangulation_appends_to_filled_buffers() {
    let first = PathNode { from: (5, 5), segments: vec![PathSegment::Linear { to: (6, 5) }, PathSegment::Linear { to: (6, 6) }] };
    let second = PathNode {
        from: (0, 0),
        segments: vec![PathSegment::QuadraticBezier { to: (1, 1), param: (1, 0) }, PathSegment::Arc { to: (0, 1), radii: (1, 1) }],
    };
    let mut fan_vertices = vec![];
    let mut fan_indices = vec![];
    let mut segment_vertices = vec![];
    let mut segment_indices = vec![];
    let mut segments = vec![];
    for path in [&first, &second] {
        build_triangle_fan_and_curve_triangles(
            path,
            &mut fan_vertices,
            &mut fan_indices,
            &mut segment_vertices,
            &mut segment_indices,
            &mut segments,
        );
    }
    let fan: Vec<(i32, i32)> = fan_vertices.iter().map(|v| v.pos).collect();
    assert_eq!(fan, vec![(5, 5), (6, 5), (6, 6), (0, 0), (1, 1), (0, 1)]);
    assert_eq!(fan_indices, vec![0, 1, 2, 3, 4, 5]);
    assert_eq!(segment_indices, vec![0, 1, 2]);
    let seg: Vec<((i32, i32), u32)> = segment_vertices.iter().map(|v| (v.pos, v.segment_index)).collect();
    assert_eq!(seg, vec![((0, 0), 0), ((1, 0), 0), ((1, 1), 0)]);
    assert!(segments.is_empty());
}

#[test]
fn meshes_of_all_paths_one_after_the_other() {
    let first = PathNode { from: (5, 5), segments: vec![PathSegment::Linear { to: (6, 5) }, PathSegment::Linear { to: (6, 6) }] };
    let second = PathNode {
        from: (0, 0),
        segments: vec![PathSegment::QuadraticBezier { to: (1, 1), param: (1, 0) }, PathSegment::Arc { to: (0, 1), radii: (1, 1) }],
    };
    let (fan_vertices, fan_indices, segment_vertices, segment_indices, segments) = build_path_meshes(&vec![first, second]);
    let fan: Vec<(i32, i32)> = fan_vertices.iter().map(|v| v.pos).collect();
    assert_eq!(fan, vec![(5, 5), (6, 5), (6, 6), (0, 0), (1, 1), (0, 1)]);
    assert_eq!(fan_indices, vec![0, 1, 2, 3, 4, 5]);
    let seg: Vec<((i32, i32), u32)> = segment_vertices.iter().map(|v| (v.pos, v.segment_index)).collect();
    assert_eq!(seg, vec![((0, 0), 0), ((1, 0), 0), ((1, 1), 0)]);
    assert_eq!(segment_indices, vec![0, 1, 2]);
    assert_eq!(segments.len(), 0);
    let none = build_path_meshes::<(i32, i32)>(&vec![]);
    assert!(none.0.is_empty() && none.1.is_empty() && none.2.is_empty() && none.3.is_empty() && none.4.is_empty());
}

#[test]
fn color_quad_covers_the_target() {
    assert_eq!(color_quad_corners(), [[-1, -1], [-1, 1], [1, -1], [1, 1]]);
    assert_eq!(color_quad_indices(), [0, 3, 1, 0, 2, 3]);
}
