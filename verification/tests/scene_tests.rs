use rui::node::image::{ImageNode, Resource};
use rui::node::layout::Rect;
use rui::node::path::{PathNode, PathSegment};
use rui::renderer::scene::{flatten, Base, ImagePrim, PathPrim, RectPrim, SceneNode, SegmentPrim};
use rui::util::{Extent, Offset};

fn rect(x: i32, y: i32, width: u32, height: u32) -> Rect {
    Rect { offset: Offset { x, y }, extent: Extent { width, height } }
}

fn base(bounds: Rect, fill_width: bool, style: u32) -> Base<u32> {
    Base { bounds, fill_width, fill_height: false, style }
}

fn parts(r: &Rect) -> (i32, i32, u32, u32) {
    (r.offset.x, r.offset.y, r.extent.width, r.extent.height)
}

#[test]
fn flatten_walks_the_scene_in_pre_order() {
    let parent = rect(0, 0, 100, 50);
    let path = PathNode {
        from: (0, 0),
        segments: vec![
            PathSegment::Linear { to: (1, 0) },
            PathSegment::CubicBezier { to: (2, 2), params: [(1, 1), (2, 1)] },
        ],
    };
    let scene: SceneNode<(i32, i32), u32> = SceneNode::Composition(
        base(rect(0, 0, 0, 0), false, 0),
        vec![
            SceneNode::Rectangle(base(rect(10, 5, 200, 20), false, 1)),
            SceneNode::Border(
                base(rect(0, 0, 0, 0), false, 0),
                Box::new(SceneNode::Image(
                    base(rect(-10, 40, 30, 30), false, 2),
                    ImageNode::new(Resource::Path("a.png".to_string())),
                )),
            ),
            SceneNode::Path(base(rect(1, 1, 5, 5), false, 3), path),
            SceneNode::Component(
                base(rect(0, 0, 0, 0), false, 0),
                Box::new(SceneNode::Rectangle(base(rect(30, 0, 1, 1), true, 4))),
            ),
        ],
    );
    let mut rects: Vec<RectPrim<u32>> = vec![];
    let mut images: Vec<ImagePrim<u32>> = vec![];
    let mut paths: Vec<PathPrim<(i32, i32), u32>> = vec![];
    flatten(&parent, &scene, &mut rects, &mut images, &mut paths);

    let r: Vec<((i32, i32, u32, u32), u32)> = rects.iter().map(|p| (parts(&p.rect), p.style)).collect();
    assert_eq!(r, vec![((10, 5, 90, 20), 1), ((30, 0, 70, 1), 4)]);

    assert_eq!(images.len(), 1);
    assert_eq!((parts(&images[0].rect), images[0].style), ((-10, 40, 30, 10), 2));
    assert!(matches!(&images[0].resource, Resource::Path(p) if p == "a.png"));

    assert_eq!(paths.len(), 1);
    assert_eq!((parts(&paths[0].rect), paths[0].style), ((1, 1, 5, 5), 3));
    assert_eq!(paths[0].segments.len(), 2);
    assert!(matches!(paths[0].segments[0], SegmentPrim::Linear { from: (0, 0), to: (1, 0) }));
    assert!(matches!(
        paths[0].segments[1],
        SegmentPrim::CubicBezier { from: (1, 0), param1: (1, 1), param2: (2, 1), to: (2, 2) }
    ));
}

#[test]
fn flatten_appends_to_filled_buffers() {
    let parent = rect(0, 0, 10, 10);
    let mut rects = vec![RectPrim { rect: rect(0, 0, 1, 1), style: 9u32 }];
    let mut images: Vec<ImagePrim<u32>> = vec![];
    let mut paths: Vec<PathPrim<(i32, i32), u32>> = vec![];
    let node: SceneNode<(i32, i32), u32> = SceneNode::Rectangle(base(rect(20, 0, 5, 5), false, 7));
    flatten(&parent, &node, &mut rects, &mut images, &mut paths);
    let r: Vec<((i32, i32, u32, u32), u32)> = rects.iter().map(|p| (parts(&p.rect), p.style)).collect();
    // the room right of the node is negative; taken as `u32` it is no limit
    assert_eq!(r, vec![((0, 0, 1, 1), 9), ((20, 0, 5, 5), 7)]);
    assert!(images.is_empty() && paths.is_empty());
}
