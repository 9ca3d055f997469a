use crate::node::path::{PathNode, PathSegment};
use vstd::prelude::*;

verus! {

/// A vertex of the triangle fan that covers a path.
#[derive(Clone, Copy)]
pub struct FanVertex<P> {
    pub pos: P,
}

/// A vertex of the triangles that bound a curved segment, with the index of
/// that segment's parameters.
#[derive(Clone, Copy)]
pub struct SegmentVertex<P> {
    pub pos: P,
    pub segment_index: u32,
}

/// The four control points of a cubic segment.
#[derive(Clone, Copy)]
pub struct CurveSegment<P> {
    pub param0: P,
    pub param1: P,
    pub param2: P,
    pub param3: P,
}

/// The five buffers that the triangulation appends to: fan vertices, fan
/// indices, segment vertices, segment indices and cubic segments.
pub type Mesh<P> = (Seq<FanVertex<P>>, Seq<u16>, Seq<SegmentVertex<P>>, Seq<u16>, Seq<CurveSegment<P>>);

/// The point where segment `i` starts: the path's start for the first
/// segment, the end of the previous segment otherwise.
pub open spec fn start_of<P>(from: P, segs: Seq<PathSegment<P>>, i: int) -> P {
    if i == 0 {
        from
    } else {
        segs[i - 1].end()
    }
}

/// What a segment that starts at `p0` adds to the curve buffers: three
/// vertices and one triangle for a quadratic segment, four vertices, two
/// triangles and its control points for a cubic one, nothing otherwise.
/// Indices are the vertex positions taken as `u16`.
pub open spec fn curve_step<P>(m: Mesh<P>, seg: PathSegment<P>, p0: P) -> Mesh<P> {
    let k = m.2.len() as int;
    let s = m.4.len() as u32;
    match seg {
        PathSegment::QuadraticBezier { to, param } => (
            m.0,
            m.1,
            m.2 + seq![
                SegmentVertex { pos: p0, segment_index: s },
                SegmentVertex { pos: param, segment_index: s },
                SegmentVertex { pos: to, segment_index: s },
            ],
            m.3 + seq![k as u16, (k + 1) as u16, (k + 2) as u16],
            m.4,
        ),
        PathSegment::CubicBezier { to, params } => (
            m.0,
            m.1,
            m.2 + seq![
                SegmentVertex { pos: p0, segment_index: s },
                SegmentVertex { pos: params[0], segment_index: s },
                SegmentVertex { pos: params[1], segment_index: s },
                SegmentVertex { pos: to, segment_index: s },
            ],
            m.3 + seq![
                k as u16,
                (k + 1) as u16,
                (k + 2) as u16,
                (k + 1) as u16,
                (k + 2) as u16,
                (k + 3) as u16,
            ],
            m.4.push(CurveSegment { param0: p0, param1: params[0], param2: params[1], param3: to }),
        ),
        _ => m,
    }
}

/// What segment `i` adds to the fan: unless it is the last segment, the
/// triangle from the pivot through its end and the next segment's end.
pub open spec fn fan_step<P>(m: Mesh<P>, pivot: int, segs: Seq<PathSegment<P>>, i: int) -> Mesh<P> {
    if i < segs.len() - 1 {
        let k = m.0.len() as int;
        (
            m.0 + seq![FanVertex { pos: segs[i].end() }, FanVertex { pos: segs[i + 1].end() }],
            m.1 + seq![pivot as u16, k as u16, (k + 1) as u16],
            m.2,
            m.3,
            m.4,
        )
    } else {
        m
    }
}

/// The buffers after the pivot `from` and the first `i` segments have been
/// added to `m`.
pub open spec fn mesh_after<P>(m: Mesh<P>, from: P, segs: Seq<PathSegment<P>>, i: nat) -> Mesh<P>
    decreases i,
{
    if i == 0 {
        (m.0.push(FanVertex { pos: from }), m.1, m.2, m.3, m.4)
    } else {
        let prev = mesh_after(m, from, segs, (i - 1) as nat);
        fan_step(
            curve_step(prev, segs[i - 1], start_of(from, segs, i - 1)),
            m.0.len() as int,
            segs,
            i - 1,
        )
    }
}

/// The buffers only grow while segments are added.
pub proof fn lemma_mesh_grows<P>(m: Mesh<P>, from: P, segs: Seq<PathSegment<P>>, i: nat, k: nat)
    requires
        k <= i,
    ensures
        mesh_after(m, from, segs, k).0.len() <= mesh_after(m, from, segs, i).0.len(),
        mesh_after(m, from, segs, k).2.len() <= mesh_after(m, from, segs, i).2.len(),
    decreases i,
{
    if k < i {
        lemma_mesh_grows(m, from, segs, (i - 1) as nat, k);
    }
}

/// As long as the finished buffers hold at most 65536 vertices each, so that
/// every vertex position fits `u16`, each index that the triangulation adds
/// names a vertex that exists: given indices that already did, all fan
/// indices name fan vertices and all segment indices name segment vertices.
pub proof fn lemma_indices_name_vertices<P>(m: Mesh<P>, from: P, segs: Seq<PathSegment<P>>, i: nat)
    requires
        forall|j: int| 0 <= j < m.1.len() ==> (m.1[j] as int) < m.0.len(),
        forall|j: int| 0 <= j < m.3.len() ==> (m.3[j] as int) < m.2.len(),
        mesh_after(m, from, segs, i).0.len() <= 0x10000,
        mesh_after(m, from, segs, i).2.len() <= 0x10000,
    ensures
        forall|j: int|
            0 <= j < mesh_after(m, from, segs, i).1.len() ==> (mesh_after(m, from, segs, i).1[j] as int)
                < mesh_after(m, from, segs, i).0.len(),
        forall|j: int|
            0 <= j < mesh_after(m, from, segs, i).3.len() ==> (mesh_after(m, from, segs, i).3[j] as int)
                < mesh_after(m, from, segs, i).2.len(),
    decreases i,
{
    if i > 0 {
        lemma_mesh_grows(m, from, segs, i, (i - 1) as nat);
        lemma_indices_name_vertices(m, from, segs, (i - 1) as nat);
        lemma_mesh_grows(m, from, segs, (i - 1) as nat, 0);
        let prev = mesh_after(m, from, segs, (i - 1) as nat);
        let c = curve_step(prev, segs[i - 1], start_of(from, segs, i - 1));
        let r = mesh_after(m, from, segs, i);
        assert(r == fan_step(c, m.0.len() as int, segs, i - 1));
        assert(c.0 == prev.0 && c.1 == prev.1);
        assert(forall|j: int| 0 <= j < c.3.len() ==> (c.3[j] as int) < c.2.len());
    }
}

/// Appends to the five buffers the triangles that draw `path`: a fan from
/// the path's start through the segments' end points, and for each quadratic
/// or cubic segment the triangles spanned by its control points, with the
/// control points of the cubic ones. Every segment must name its end point.
pub fn build_triangle_fan_and_curve_triangles<P: Copy>(
    path: &PathNode<P>,
    fan_vertices: &mut Vec<FanVertex<P>>,
    fan_indices: &mut Vec<u16>,
    segment_vertices: &mut Vec<SegmentVertex<P>>,
    segment_indices: &mut Vec<u16>,
    segments: &mut Vec<CurveSegment<P>>,
)
    requires
        forall|i: int| 0 <= i < path.segments.len() ==> (#[trigger] path.segments@[i]).has_end(),
        old(fan_vertices).len() + 2 * path.segments.len() + 1 <= usize::MAX,
        old(segment_vertices).len() + 4 * path.segments.len() + 4 <= usize::MAX,
        old(segments).len() + path.segments.len() <= usize::MAX,
    ensures
        (final(fan_vertices)@, final(fan_indices)@, final(segment_vertices)@, final(segment_indices)@, final(segments)@)
            == mesh_after(
            (old(fan_vertices)@, old(fan_indices)@, old(segment_vertices)@, old(segment_indices)@, old(segments)@),
            path.from,
            path.segments@,
            path.segments.len() as nat,
        ),
{
    let ghost m0 = (fan_vertices@, fan_indices@, segment_vertices@, segment_indices@, segments@);
    let ghost segs = path.segments@;
    let n = path.segments.len();
    // Choose a pivot point for triangle fan
    let pivot = path.from;
    let pivot_index = fan_vertices.len();
    fan_vertices.push(FanVertex { pos: pivot });

    // Start point of a segment
    let mut p0 = pivot;
    let mut i: usize = 0;
    while i < n
        invariant
            i <= n,
            n == segs.len(),
            segs == path.segments@,
            pivot_index == m0.0.len(),
            forall|j: int| 0 <= j < n ==> (#[trigger] segs[j]).has_end(),
            p0 == start_of(path.from, segs, i as int),
            (fan_vertices@, fan_indices@, segment_vertices@, segment_indices@, segments@) == mesh_after(m0, path.from, segs, i as nat),
            fan_vertices.len() <= m0.0.len() + 1 + 2 * i,
            segment_vertices.len() <= m0.2.len() + 4 * i,
            segments.len() <= m0.4.len() + i,
            m0.0.len() + 2 * n + 1 <= usize::MAX,
            m0.2.len() + 4 * n + 4 <= usize::MAX,
            m0.4.len() + n <= usize::MAX,
        decreases n - i,
    {
        let ghost before = (fan_vertices@, fan_indices@, segment_vertices@, segment_indices@, segments@);
        let segment_index = segments.len() as u32;
        match &path.segments[i] {
            PathSegment::Linear { .. } => {},
            PathSegment::Arc { .. } => {},
            PathSegment::QuadraticBezier { to, param } => {
                let index = segment_vertices.len();
                segment_indices.push(index as u16);
                segment_indices.push((index + 1) as u16);
                segment_indices.push((index + 2) as u16);
                segment_vertices.push(SegmentVertex { pos: p0, segment_index });
                segment_vertices.push(SegmentVertex { pos: *param, segment_index });
                segment_vertices.push(SegmentVertex { pos: *to, segment_index });
            },
            PathSegment::CubicBezier { to, params } => {
                let index = segment_vertices.len();
                segment_indices.push(index as u16);
                segment_indices.push((index + 1) as u16);
                segment_indices.push((index + 2) as u16);
                segment_indices.push((index + 1) as u16);
                segment_indices.push((index + 2) as u16);
                segment_indices.push((index + 3) as u16);
                segment_vertices.push(SegmentVertex { pos: p0, segment_index });
                segment_vertices.push(SegmentVertex { pos: params[0], segment_index });
                segment_vertices.push(SegmentVertex { pos: params[1], segment_index });
                segment_vertices.push(SegmentVertex { pos: *to, segment_index });

                segments.push(CurveSegment { param0: p0, param1: params[0], param2: params[1], param3: *to });
            },
            PathSegment::CatmullRom => {},
        }
        let ghost after_curve = (fan_vertices@, fan_indices@, segment_vertices@, segment_indices@, segments@);
        assert(after_curve =~~= curve_step(before, segs[i as int], p0));
        let to0 = *path.segments[i].to();
        if i < n - 1 {
            // Get next control point and the next of the next
            let to1 = *path.segments[i + 1].to();

            // Add the indices for the new triangle
            let index = fan_vertices.len();
            fan_indices.push(pivot_index as u16);
            fan_indices.push(index as u16);
            fan_indices.push((index + 1) as u16);

            // Add the vertices of new triangle to the vertices
            fan_vertices.push(FanVertex { pos: to0 });
            fan_vertices.push(FanVertex { pos: to1 });
        }
        assert((fan_vertices@, fan_indices@, segment_vertices@, segment_indices@, segments@) =~~= fan_step(
            after_curve,
            m0.0.len() as int,
            segs,
            i as int,
        ));

        // Change p0 to the next control point
        p0 = to0;
        i += 1;
    }
}

/// While segments are added, the fan gains at most two vertices per segment
/// besides the pivot, the curve buffers at most four vertices and one cubic
/// segment per segment.
pub proof fn lemma_mesh_lengths<P>(m: Mesh<P>, from: P, segs: Seq<PathSegment<P>>, i: nat)
    ensures
        mesh_after(m, from, segs, i).0.len() <= m.0.len() + 1 + 2 * i,
        mesh_after(m, from, segs, i).2.len() <= m.2.len() + 4 * i,
        mesh_after(m, from, segs, i).4.len() <= m.4.len() + i,
    decreases i,
{
    if i > 0 {
        lemma_mesh_lengths(m, from, segs, (i - 1) as nat);
    }
}

/// The buffers after the meshes of the first `k` paths have been appended
/// to `m`, one path after the other.
pub open spec fn meshes_after<P>(m: Mesh<P>, paths: Seq<PathNode<P>>, k: nat) -> Mesh<P>
    decreases k,
{
    if k == 0 {
        m
    } else {
        let path = paths[k - 1];
        mesh_after(meshes_after(m, paths, (k - 1) as nat), path.from, path.segments@, path.segments.len() as nat)
    }
}

/// The number of segments of the first `k` paths, with one more for each
/// path's start.
pub open spec fn path_sizes<P>(paths: Seq<PathNode<P>>, k: nat) -> nat
    decreases k,
{
    if k == 0 {
        0
    } else {
        (path_sizes(paths, (k - 1) as nat) + paths[k - 1].segments.len() + 1) as nat
    }
}

proof fn lemma_path_sizes_grow<P>(paths: Seq<PathNode<P>>, k: nat, n: nat)
    requires
        k <= n,
    ensures
        path_sizes(paths, k) <= path_sizes(paths, n),
    decreases n,
{
    if k < n {
        lemma_path_sizes_grow(paths, k, (n - 1) as nat);
    }
}

proof fn lemma_meshes_lengths<P>(m: Mesh<P>, paths: Seq<PathNode<P>>, k: nat)
    ensures
        meshes_after(m, paths, k).0.len() <= m.0.len() + 2 * path_sizes(paths, k),
        meshes_after(m, paths, k).2.len() <= m.2.len() + 4 * path_sizes(paths, k),
        meshes_after(m, paths, k).4.len() <= m.4.len() + path_sizes(paths, k),
    decreases k,
{
    if k > 0 {
        lemma_meshes_lengths(m, paths, (k - 1) as nat);
        let path = paths[k - 1];
        lemma_mesh_lengths(meshes_after(m, paths, (k - 1) as nat), path.from, path.segments@, path.segments.len() as nat);
    }
}

/// Builds the meshes of all `paths` into five new buffers, one path after
/// the other, as `build_triangle_fan_and_curve_triangles` appends each. Every
/// segment must name its end point, and the buffers must fit in memory.
pub fn build_path_meshes<P: Copy>(paths: &Vec<PathNode<P>>) -> (r: (
    Vec<FanVertex<P>>,
    Vec<u16>,
    Vec<SegmentVertex<P>>,
    Vec<u16>,
    Vec<CurveSegment<P>>,
))
    requires
        forall|j: int, i: int|
            0 <= j < paths.len() && 0 <= i < paths@[j].segments.len() ==> (#[trigger] paths@[j].segments@[i]).has_end(),
        4 * path_sizes(paths@, paths.len() as nat) <= usize::MAX,
    ensures
        (r.0@, r.1@, r.2@, r.3@, r.4@) == meshes_after(
            (Seq::empty(), Seq::empty(), Seq::empty(), Seq::empty(), Seq::empty()),
            paths@,
            paths.len() as nat,
        ),
{
    let mut fan_vertices: Vec<FanVertex<P>> = Vec::new();
    let mut fan_indices: Vec<u16> = Vec::new();
    let mut segment_vertices: Vec<SegmentVertex<P>> = Vec::new();
    let mut segment_indices: Vec<u16> = Vec::new();
    let mut segments: Vec<CurveSegment<P>> = Vec::new();
    let ghost m0: Mesh<P> = (Seq::empty(), Seq::empty(), Seq::empty(), Seq::empty(), Seq::empty());
    let mut k: usize = 0;
    while k < paths.len()
        invariant
            k <= paths.len(),
            forall|j: int, i: int|
                0 <= j < paths.len() && 0 <= i < paths@[j].segments.len() ==> (#[trigger] paths@[j].segments@[i]).has_end(),
            4 * path_sizes(paths@, paths.len() as nat) <= usize::MAX,
            m0.0.len() == 0 && m0.2.len() == 0 && m0.4.len() == 0,
            (fan_vertices@, fan_indices@, segment_vertices@, segment_indices@, segments@) == meshes_after(m0, paths@, k as nat),
        decreases paths.len() - k,
    {
        proof {
            lemma_meshes_lengths(m0, paths@, k as nat);
            lemma_path_sizes_grow(paths@, (k + 1) as nat, paths.len() as nat);
            assert(path_sizes(paths@, (k + 1) as nat) == path_sizes(paths@, k as nat) + paths@[k as int].segments.len() + 1);
        }
        let path = &paths[k];
        build_triangle_fan_and_curve_triangles(
            path,
            &mut fan_vertices,
            &mut fan_indices,
            &mut segment_vertices,
            &mut segment_indices,
            &mut segments,
        );
        k += 1;
    }
    (fan_vertices, fan_indices, segment_vertices, segment_indices, segments)
}

proof fn lemma_meshes_grow<P>(m: Mesh<P>, paths: Seq<PathNode<P>>, k: nat, n: nat)
    requires
        k <= n,
    ensures
        meshes_after(m, paths, k).0.len() <= meshes_after(m, paths, n).0.len(),
        meshes_after(m, paths, k).2.len() <= meshes_after(m, paths, n).2.len(),
    decreases n,
{
    if k < n {
        lemma_meshes_grow(m, paths, k, (n - 1) as nat);
        let path = paths[n - 1];
        lemma_mesh_grows(meshes_after(m, paths, (n - 1) as nat), path.from, path.segments@, path.segments.len() as nat, 0);
    }
}

/// As long as the finished buffers hold at most 65536 vertices each, every
/// index that the meshes of all paths add names a vertex that exists: given
/// indices that already did, all fan indices name fan vertices and all
/// segment indices name segment vertices.
pub proof fn lemma_all_indices_name_vertices<P>(m: Mesh<P>, paths: Seq<PathNode<P>>, k: nat)
    requires
        forall|j: int| 0 <= j < m.1.len() ==> (m.1[j] as int) < m.0.len(),
        forall|j: int| 0 <= j < m.3.len() ==> (m.3[j] as int) < m.2.len(),
        meshes_after(m, paths, k).0.len() <= 0x10000,
        meshes_after(m, paths, k).2.len() <= 0x10000,
    ensures
        forall|j: int|
            0 <= j < meshes_after(m, paths, k).1.len() ==> (meshes_after(m, paths, k).1[j] as int)
                < meshes_after(m, paths, k).0.len(),
        forall|j: int|
            0 <= j < meshes_after(m, paths, k).3.len() ==> (meshes_after(m, paths, k).3[j] as int)
                < meshes_after(m, paths, k).2.len(),
    decreases k,
{
    if k > 0 {
        lemma_meshes_grow(m, paths, (k - 1) as nat, k);
        lemma_all_indices_name_vertices(m, paths, (k - 1) as nat);
        let path = paths[k - 1];
        lemma_indices_name_vertices(
            meshes_after(m, paths, (k - 1) as nat),
            path.from,
            path.segments@,
            path.segments.len() as nat,
        );
    }
}

/// The four segment vertices that draw curve segment `j` of `m`, starting at
/// position `k`: its control points in order, each carrying `j`.
pub open spec fn curve_vertices_at<P>(m: Mesh<P>, j: int, k: int) -> bool {
    &&& 0 <= k && k + 4 <= m.2.len()
    &&& m.2[k] == SegmentVertex { pos: m.4[j].param0, segment_index: j as u32 }
    &&& m.2[k + 1] == SegmentVertex { pos: m.4[j].param1, segment_index: j as u32 }
    &&& m.2[k + 2] == SegmentVertex { pos: m.4[j].param2, segment_index: j as u32 }
    &&& m.2[k + 3] == SegmentVertex { pos: m.4[j].param3, segment_index: j as u32 }
}

/// Every curve segment of `m` is drawn by four segment vertices that carry
/// its index in the curve buffer and sit at its control points.
pub open spec fn curves_have_vertices<P>(m: Mesh<P>) -> bool {
    forall|j: int| 0 <= j < m.4.len() ==> #[trigger] curve_drawn(m, j)
}

/// Curve segment `j` of `m` is drawn by four segment vertices somewhere in
/// the segment vertex buffer.
pub open spec fn curve_drawn<P>(m: Mesh<P>, j: int) -> bool {
    exists|k: int| #[trigger] curve_vertices_at(m, j, k)
}

proof fn lemma_curve_step_keeps_vertices<P>(m: Mesh<P>, seg: PathSegment<P>, p0: P)
    requires
        curves_have_vertices(m),
        curve_step(m, seg, p0).4.len() <= u32::MAX + 1,
    ensures
        curves_have_vertices(curve_step(m, seg, p0)),
{
    let r = curve_step(m, seg, p0);
    assert forall|j: int| 0 <= j < r.4.len() implies #[trigger] curve_drawn(r, j) by {
        if j < m.4.len() {
            assert(curve_drawn(m, j));
            let k = choose|k: int| #[trigger] curve_vertices_at(m, j, k);
            assert(r.2.subrange(0, m.2.len() as int) == m.2);
            assert(r.4[j] == m.4[j]);
            assert(curve_vertices_at(r, j, k));
        } else {
            assert(curve_vertices_at(r, j, m.2.len() as int));
        }
    }
}

/// Each cubic segment that the triangulation adds is drawn by four segment
/// vertices at its control points (start, both parameters, end) that carry
/// the position of its control points in the curve buffer; the vertices of
/// the curves already there stay. Indices fit `u32` while the curve buffer
/// holds at most `u32::MAX + 1` entries.
pub proof fn lemma_curves_have_vertices<P>(m: Mesh<P>, from: P, segs: Seq<PathSegment<P>>, i: nat)
    requires
        curves_have_vertices(m),
        mesh_after(m, from, segs, i).4.len() <= u32::MAX + 1,
    ensures
        curves_have_vertices(mesh_after(m, from, segs, i)),
    decreases i,
{
    if i > 0 {
        let prev = mesh_after(m, from, segs, (i - 1) as nat);
        lemma_mesh_curves_grow(m, from, segs, i);
        lemma_curves_have_vertices(m, from, segs, (i - 1) as nat);
        let seg = segs[i - 1];
        let c = curve_step(prev, seg, start_of(from, segs, i - 1));
        if seg is CubicBezier {
            assert(prev.4.len() < c.4.len());
        }
        lemma_curve_step_keeps_vertices(prev, seg, start_of(from, segs, i - 1));
        let r = fan_step(c, m.0.len() as int, segs, i - 1);
        assert(r.2 == c.2 && r.4 == c.4);
        assert forall|j: int| 0 <= j < r.4.len() implies #[trigger] curve_drawn(r, j) by {
            assert(curve_drawn(c, j));
            let k = choose|k: int| #[trigger] curve_vertices_at(c, j, k);
            assert(curve_vertices_at(r, j, k));
        }
    } else {
        let r = mesh_after(m, from, segs, 0);
        assert forall|j: int| 0 <= j < r.4.len() implies #[trigger] curve_drawn(r, j) by {
            assert(curve_drawn(m, j));
            let k = choose|k: int| #[trigger] curve_vertices_at(m, j, k);
            assert(curve_vertices_at(r, j, k));
        }
    }
}

proof fn lemma_mesh_curves_grow<P>(m: Mesh<P>, from: P, segs: Seq<PathSegment<P>>, i: nat)
    ensures
        i > 0 ==> mesh_after(m, from, segs, (i - 1) as nat).4.len() <= mesh_after(m, from, segs, i).4.len(),
{
}

/// Over the meshes of all paths, built from empty buffers, every cubic
/// segment in the curve buffer is drawn by four segment vertices at its
/// control points that carry its position in that buffer.
pub proof fn lemma_all_curves_have_vertices<P>(paths: Seq<PathNode<P>>, k: nat)
    requires
        meshes_after((Seq::empty(), Seq::empty(), Seq::empty(), Seq::empty(), Seq::empty()), paths, k).4.len()
            <= u32::MAX + 1,
    ensures
        curves_have_vertices(meshes_after((Seq::empty(), Seq::empty(), Seq::empty(), Seq::empty(), Seq::empty()), paths, k)),
    decreases k,
{
    let e: Mesh<P> = (Seq::empty(), Seq::empty(), Seq::empty(), Seq::empty(), Seq::empty());
    if k > 0 {
        let prev = meshes_after(e, paths, (k - 1) as nat);
        let path = paths[k - 1];
        lemma_mesh_curves_grow_all(prev, path.from, path.segments@, path.segments.len() as nat);
        lemma_all_curves_have_vertices(paths, (k - 1) as nat);
        lemma_curves_have_vertices(prev, path.from, path.segments@, path.segments.len() as nat);
    }
}

proof fn lemma_mesh_curves_grow_all<P>(m: Mesh<P>, from: P, segs: Seq<PathSegment<P>>, i: nat)
    ensures
        m.4.len() <= mesh_after(m, from, segs, i).4.len(),
    decreases i,
{
    if i > 0 {
        lemma_mesh_curves_grow_all(m, from, segs, (i - 1) as nat);
    }
}

/// The corners of the quad that the colour pass draws over the whole target,
/// in clip space: bottom left, top left, bottom right, top right.
pub fn color_quad_corners() -> (r: [[i8; 2]; 4])
    ensures
        r@ == seq![[-1i8, -1i8], [-1i8, 1i8], [1i8, -1i8], [1i8, 1i8]],
{
    let r = [[-1i8, -1i8], [-1i8, 1i8], [1i8, -1i8], [1i8, 1i8]];
    assert(r@ =~= seq![[-1i8, -1i8], [-1i8, 1i8], [1i8, -1i8], [1i8, 1i8]]);
    r
}

/// The indices of the two triangles that make up the colour quad.
pub fn color_quad_indices() -> (r: [u16; 6])
    ensures
        r@ == seq![0u16, 3, 1, 0, 2, 3],
{
    let r = [0u16, 3, 1, 0, 2, 3];
    assert(r@ =~= seq![0u16, 3, 1, 0, 2, 3]);
    r
}

} // verus!
