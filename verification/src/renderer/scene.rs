use crate::node::image::{ImageNode, Resource};
use crate::node::layout::{fitted, node_rect, room, Rect};
use crate::node::path::{PathNode, PathSegment};
use crate::renderer::path_mesh::start_of;
use crate::util::Extent;
use vstd::prelude::*;

verus! {

/// What the flattening reads of every node: its bounding rectangle, whether
/// it fills the room left in its parent along each axis, and its style (the
/// background colour and the corner radii), which is carried over as it is.
#[derive(Clone, Copy)]
pub struct Base<S> {
    pub bounds: Rect,
    pub fill_width: bool,
    pub fill_height: bool,
    pub style: S,
}

/// A node of the scene, with the node that each component gave already in
/// its place.
pub enum SceneNode<P, S> {
    Rectangle(Base<S>),
    Border(Base<S>, Box<SceneNode<P, S>>),
    Path(Base<S>, PathNode<P>),
    Composition(Base<S>, Vec<SceneNode<P, S>>),
    Image(Base<S>, ImageNode),
    Text(Base<S>),
    Component(Base<S>, Box<SceneNode<P, S>>),
}

/// A rectangle to draw, in pixels, with the style of its node.
#[derive(Clone, Copy)]
pub struct RectPrim<S> {
    pub rect: Rect,
    pub style: S,
}

/// An image to draw, in pixels, with the style of its node and where its
/// data comes from.
pub struct ImagePrim<S> {
    pub rect: Rect,
    pub style: S,
    pub resource: Resource,
}

/// One segment of a path to draw, with the point where it starts.
#[derive(Clone, Copy)]
pub enum SegmentPrim<P> {
    Linear { from: P, to: P },
    CubicBezier { from: P, param1: P, param2: P, to: P },
}

/// A path to draw: its rectangle in pixels, the style of its node and its
/// segments.
pub struct PathPrim<P, S> {
    pub rect: Rect,
    pub style: S,
    pub segments: Vec<SegmentPrim<P>>,
}

impl<P, S> View for PathPrim<P, S> {
    type V = (Rect, S, Seq<SegmentPrim<P>>);

    open spec fn view(&self) -> (Rect, S, Seq<SegmentPrim<P>>) {
        (self.rect, self.style, self.segments@)
    }
}

/// The primitives that flattening gives: rectangles, images and paths (each
/// path by its view).
pub type Flat<P, S> = (Seq<RectPrim<S>>, Seq<ImagePrim<S>>, Seq<(Rect, S, Seq<SegmentPrim<P>>)>);

/// The paths of a buffer, each by its view.
pub open spec fn path_views<P, S>(paths: Seq<PathPrim<P, S>>) -> Seq<(Rect, S, Seq<SegmentPrim<P>>)> {
    paths.map_values(|p: PathPrim<P, S>| p@)
}

/// The size of a node inside `parent` can be computed in `i32`.
pub open spec fn fits_parent<S>(parent: Rect, b: Base<S>) -> bool {
    &&& i32::MIN <= room(parent.extent.width, b.bounds.offset.x) <= i32::MAX
    &&& i32::MIN <= room(parent.extent.height, b.bounds.offset.y) <= i32::MAX
}

/// The rectangle that a node takes inside `parent`, as `node_rect` gives it.
pub open spec fn base_rect<S>(parent: Rect, b: Base<S>) -> Rect {
    Rect {
        offset: b.bounds.offset,
        extent: Extent {
            width: fitted(b.bounds.extent.width, parent.extent.width, b.bounds.offset.x, b.fill_width) as u32,
            height: fitted(b.bounds.extent.height, parent.extent.height, b.bounds.offset.y, b.fill_height) as u32,
        },
    }
}

/// A segment that can be drawn: a line or a cubic bezier.
pub open spec fn drawable<P>(seg: PathSegment<P>) -> bool {
    seg is Linear || seg is CubicBezier
}

/// The primitive for a drawable segment that starts at `p0`.
pub open spec fn segment_prim<P>(p0: P, seg: PathSegment<P>) -> SegmentPrim<P> {
    match seg {
        PathSegment::Linear { to } => SegmentPrim::Linear { from: p0, to },
        PathSegment::CubicBezier { to, params } => SegmentPrim::CubicBezier {
            from: p0,
            param1: params[0],
            param2: params[1],
            to,
        },
        _ => arbitrary(),
    }
}

/// The segment primitives of a path, each starting where the one before it
/// ended.
pub open spec fn path_prims<P>(path: PathNode<P>) -> Seq<SegmentPrim<P>> {
    Seq::new(
        path.segments@.len(),
        |i: int| segment_prim(start_of(path.from, path.segments@, i), path.segments@[i]),
    )
}

/// Nothing in `node` stops the flattening inside `parent`: every node whose
/// rectangle is taken fits the parent, every path segment can be drawn, and
/// there is no text node.
pub open spec fn flattenable<P, S>(parent: Rect, node: SceneNode<P, S>) -> bool
    decreases node,
{
    match node {
        SceneNode::Rectangle(b) => fits_parent(parent, b),
        SceneNode::Border(_, n) => flattenable(parent, *n),
        SceneNode::Path(b, p) => fits_parent(parent, b) && forall|i: int|
            0 <= i < p.segments@.len() ==> drawable(#[trigger] p.segments@[i]),
        SceneNode::Composition(_, c) => forall|i: int| 0 <= i < c@.len() ==> flattenable(parent, #[trigger] c@[i]),
        SceneNode::Image(b, _) => fits_parent(parent, b),
        SceneNode::Text(_) => false,
        SceneNode::Component(_, n) => flattenable(parent, *n),
    }
}

/// The three lists one after the other.
pub open spec fn concat<P, S>(a: Flat<P, S>, b: Flat<P, S>) -> Flat<P, S> {
    (a.0 + b.0, a.1 + b.1, a.2 + b.2)
}

/// Nothing to draw.
pub open spec fn nothing<P, S>() -> Flat<P, S> {
    (Seq::empty(), Seq::empty(), Seq::empty())
}

/// The primitives of `node` inside `parent`, in depth-first pre-order: a
/// rectangle, path or image node gives one primitive with the rectangle
/// that it takes in `parent`; a border, a component and a composition give
/// those of the nodes they hold, all inside the same `parent`.
pub open spec fn flat<P, S>(parent: Rect, node: SceneNode<P, S>) -> Flat<P, S>
    decreases node,
{
    match node {
        SceneNode::Rectangle(b) => (seq![RectPrim { rect: base_rect(parent, b), style: b.style }], Seq::empty(), Seq::empty()),
        SceneNode::Border(_, n) => flat(parent, *n),
        SceneNode::Path(b, p) => (Seq::empty(), Seq::empty(), seq![(base_rect(parent, b), b.style, path_prims(p))]),
        SceneNode::Composition(_, c) => flat_all(parent, c@),
        SceneNode::Image(b, i) => (
            Seq::empty(),
            seq![ImagePrim { rect: base_rect(parent, b), style: b.style, resource: i.source() }],
            Seq::empty(),
        ),
        SceneNode::Text(_) => nothing(),
        SceneNode::Component(_, n) => flat(parent, *n),
    }
}

/// The primitives of `nodes` inside `parent`, one node after the other.
pub open spec fn flat_all<P, S>(parent: Rect, nodes: Seq<SceneNode<P, S>>) -> Flat<P, S>
    decreases nodes,
{
    if nodes.len() == 0 {
        nothing()
    } else {
        concat(flat_all(parent, nodes.drop_last()), flat(parent, nodes.last()))
    }
}

/// The rectangle that a node takes inside `parent`.
fn rect_in<S: Copy>(parent: &Rect, b: &Base<S>) -> (r: Rect)
    requires
        fits_parent(*parent, *b),
    ensures
        r == base_rect(*parent, *b),
{
    node_rect(parent, &b.bounds, b.fill_width, b.fill_height)
}

/// A copy of `r`.
fn copy_resource(r: &Resource) -> (c: Resource)
    ensures
        c == *r,
{
    match r {
        Resource::Path(s) => Resource::Path(s.clone()),
    }
}

/// The segment primitives of a path whose segments can all be drawn.
fn path_segments<P: Copy>(path: &PathNode<P>) -> (r: Vec<SegmentPrim<P>>)
    requires
        forall|i: int| 0 <= i < path.segments@.len() ==> drawable(#[trigger] path.segments@[i]),
    ensures
        r@ == path_prims(*path),
{
    let mut out: Vec<SegmentPrim<P>> = Vec::new();
    let mut from = path.from;
    let n = path.segments.len();
    let mut i: usize = 0;
    while i < n
        invariant
            i <= n,
            n == path.segments@.len(),
            forall|j: int| 0 <= j < path.segments@.len() ==> drawable(#[trigger] path.segments@[j]),
            from == start_of(path.from, path.segments@, i as int),
            out@ == path_prims(*path).take(i as int),
        decreases n - i,
    {
        assert(drawable(path.segments@[i as int]));
        match &path.segments[i] {
            PathSegment::Linear { to } => {
                out.push(SegmentPrim::Linear { from, to: *to });
                from = *to;
            },
            PathSegment::CubicBezier { to, params } => {
                out.push(SegmentPrim::CubicBezier { from, param1: params[0], param2: params[1], to: *to });
                from = *to;
            },
            _ => {
                proof {
                    assert(false);
                }
            },
        }
        assert(out@ =~= path_prims(*path).take(i + 1));
        i += 1;
    }
    assert(out@ =~= path_prims(*path));
    out
}

/// Appends to the three buffers the primitives of `node` inside `parent`,
/// in depth-first pre-order (`flat`): one rectangle, image or path for each
/// such node, with the rectangle it takes in `parent`; borders, components
/// and compositions hand on to the nodes they hold, inside the same
/// `parent`. Text cannot be drawn, nor arcs, quadratic beziers or
/// Catmull-Rom segments.
pub fn flatten<P: Copy, S: Copy>(
    parent: &Rect,
    node: &SceneNode<P, S>,
    rects: &mut Vec<RectPrim<S>>,
    images: &mut Vec<ImagePrim<S>>,
    paths: &mut Vec<PathPrim<P, S>>,
)
    requires
        flattenable(*parent, *node),
    ensures
        final(rects)@ == old(rects)@ + flat(*parent, *node).0,
        final(images)@ == old(images)@ + flat(*parent, *node).1,
        path_views(final(paths)@) == path_views(old(paths)@) + flat(*parent, *node).2,
    decreases node,
{
    match node {
        SceneNode::Rectangle(b) => {
            rects.push(RectPrim { rect: rect_in(parent, b), style: b.style });
            assert(rects@ =~= old(rects)@ + flat(*parent, *node).0);
            assert(path_views(paths@) =~= path_views(old(paths)@) + flat(*parent, *node).2);
        },
        SceneNode::Border(_, n) => {
            flatten(parent, n, rects, images, paths);
        },
        SceneNode::Path(b, p) => {
            let segments = path_segments(p);
            paths.push(PathPrim { rect: rect_in(parent, b), style: b.style, segments });
            assert(rects@ =~= old(rects)@ + flat(*parent, *node).0);
            assert(path_views(paths@) =~= path_views(old(paths)@) + flat(*parent, *node).2);
        },
        SceneNode::Composition(_, c) => {
            let ghost kids = c@;
            let mut i: usize = 0;
            while i < c.len()
                invariant
                    i <= c.len(),
                    kids == c@,
                    *node is Composition && (*node)->Composition_1 == *c,
                    forall|j: int| 0 <= j < kids.len() ==> flattenable(*parent, #[trigger] kids[j]),
                    rects@ == old(rects)@ + flat_all(*parent, kids.take(i as int)).0,
                    images@ == old(images)@ + flat_all(*parent, kids.take(i as int)).1,
                    path_views(paths@) == path_views(old(paths)@) + flat_all(*parent, kids.take(i as int)).2,
                decreases c.len() - i,
            {
                assert(flattenable(*parent, kids[i as int]));
                proof {
                    vstd::std_specs::vec::axiom_vec_index_decreases(*c, i as int);
                    assert((*node)->Composition_1 == *c);
                    assert(decreases_to!(*node => (*node)->Composition_1));
                }
                flatten(parent, &c[i], rects, images, paths);
                assert(kids.take(i + 1).drop_last() =~= kids.take(i as int));
                assert(kids.take(i + 1).last() == kids[i as int]);
                assert(rects@ =~= old(rects)@ + flat_all(*parent, kids.take(i + 1)).0);
                assert(images@ =~= old(images)@ + flat_all(*parent, kids.take(i + 1)).1);
                assert(path_views(paths@) =~= path_views(old(paths)@) + flat_all(*parent, kids.take(i + 1)).2);
                i += 1;
            }
            assert(kids.take(kids.len() as int) =~= kids);
        },
        SceneNode::Image(b, image) => {
            images.push(ImagePrim { rect: rect_in(parent, b), style: b.style, resource: copy_resource(image.resource()) });
            assert(rects@ =~= old(rects)@ + flat(*parent, *node).0);
            assert(images@ =~= old(images)@ + flat(*parent, *node).1);
            assert(path_views(paths@) =~= path_views(old(paths)@) + flat(*parent, *node).2);
        },
        SceneNode::Text(_) => {
            proof {
                assert(false);
            }
        },
        SceneNode::Component(_, n) => {
            flatten(parent, n, rects, images, paths);
        },
    }
}

/// The point where a segment primitive starts.
pub open spec fn prim_start<P>(s: SegmentPrim<P>) -> P {
    match s {
        SegmentPrim::Linear { from, .. } => from,
        SegmentPrim::CubicBezier { from, .. } => from,
    }
}

/// The point where a segment primitive ends.
pub open spec fn prim_end<P>(s: SegmentPrim<P>) -> P {
    match s {
        SegmentPrim::Linear { to, .. } => to,
        SegmentPrim::CubicBezier { to, .. } => to,
    }
}

/// The segment primitives of a path whose segments can all be drawn follow
/// the path without a gap: one for each segment and of its kind, the first
/// starting at the path's start point, each later one where the one before
/// it ended, and each ending at its segment's end point; a cubic keeps its
/// two control points.
pub proof fn lemma_path_prims_continuous<P>(path: PathNode<P>)
    requires
        forall|i: int| 0 <= i < path.segments@.len() ==> drawable(#[trigger] path.segments@[i]),
    ensures
        path_prims(path).len() == path.segments@.len(),
        path.segments@.len() > 0 ==> prim_start(path_prims(path)[0]) == path.from,
        forall|i: int|
            0 < i < path.segments@.len() ==> prim_start(#[trigger] path_prims(path)[i]) == prim_end(
                path_prims(path)[i - 1],
            ),
        forall|i: int| 0 <= i < path.segments@.len() ==> prim_end(#[trigger] path_prims(path)[i]) == path.segments@[i].end(),
        forall|i: int|
            0 <= i < path.segments@.len() ==> ((#[trigger] path_prims(path)[i]) is Linear <==> path.segments@[i] is Linear),
        forall|i: int|
            0 <= i < path.segments@.len() && path.segments@[i] is CubicBezier ==> ((#[trigger] path_prims(path)[i])
                matches SegmentPrim::CubicBezier { param1, param2, .. } && param1
                == path.segments@[i]->CubicBezier_params[0] && param2 == path.segments@[i]->CubicBezier_params[1]),
{
    assert forall|i: int| 0 < i < path.segments@.len() implies prim_start(#[trigger] path_prims(path)[i]) == prim_end(
        path_prims(path)[i - 1],
    ) by {
        assert(drawable(path.segments@[i]));
        assert(drawable(path.segments@[i - 1]));
    }
    assert forall|i: int| 0 <= i < path.segments@.len() implies prim_end(#[trigger] path_prims(path)[i]) == path.segments@[i].end() by {
        assert(drawable(path.segments@[i]));
    }
    assert forall|i: int| 0 <= i < path.segments@.len() implies ((#[trigger] path_prims(path)[i]) is Linear <==> path.segments@[i] is Linear) by {
        assert(drawable(path.segments@[i]));
    }
    if path.segments@.len() > 0 {
        assert(drawable(path.segments@[0]));
    }
}

} // verus!
