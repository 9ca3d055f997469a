use rui::instance::{next_flow, EventAction, Flow, LoopEvent, LoopSurfaceEvent, MainLoopState, MountAction};
use rui::node::layout::{node_rect, Rect};
use rui::font::fallback_fonts::{FallbackFonts, FontFamily, FontStyle};
use rui::node::image::{ImageNode, Resource};
use rui::renderer::{grown_texture_width, MSAA};
use rui::util::channels::oneshot::Channel;
use rui::util::channels::{mpmc, mpsc, oneshot};
use rui::util::ffi::UnsafeSend;
use rui::util::lazy::Lazy;
use rui::util::{Extent, Offset};

#[test]
fn lazy_is_empty_until_set() {
    let mut lazy: Lazy<String> = Lazy::new();
    assert!(lazy.get().is_none());
    lazy.init("ready".to_string());
    assert_eq!(lazy.get().map(|s| s.as_str()), Some("ready"));
    assert_eq!(lazy.unwrap(), "ready");
}

#[test]
fn channel_gives_the_sent_value_once() {
    let mut channel: Channel<u32> = Channel::new();
    assert_eq!(channel.try_recv(), None);
    channel.send(7);
    assert_eq!(channel.try_recv(), Some(7));
    assert_eq!(channel.try_recv(), None);
}

#[test]
fn channel_send_replaces_a_value_not_yet_taken() {
    let mut channel: Channel<u32> = Channel::new();
    channel.send(1);
    channel.send(2);
    assert_eq!(channel.try_recv(), Some(2));
}

#[test]
fn oneshot_delivers_to_the_receiver() {
    let (sender, mut receiver) = oneshot::channel::<String>();
    assert_eq!(receiver.try_recv(), None);
    sender.send("done".to_string());
    assert_eq!(receiver.try_recv(), Some("done".to_string()));
}

#[test]
fn mpmc_queue_hands_out_in_order() {
    let (sender, receiver) = mpmc::unbounded::<i32>();
    assert_eq!(receiver.try_recv(), None);
    sender.send(1);
    sender.clone().send(2);
    let other = receiver.clone();
    assert_eq!(other.try_recv(), Some(1));
    assert_eq!(receiver.try_recv(), Some(2));
    assert_eq!(receiver.try_recv(), None);
}

#[test]
fn mpsc_channel_sends_and_receives() {
    let (sender, receiver) = mpsc::unbounded::<&str>();
    assert_eq!(receiver.try_recv(), None);
    assert_eq!(sender.try_send("a"), Ok(()));
    assert_eq!(sender.clone().try_send("b"), Ok(()));
    assert_eq!(receiver.try_recv(), Some("a"));
    assert_eq!(receiver.try_recv(), Some("b"));
    assert_eq!(receiver.try_recv(), None);
}

#[test]
fn mpsc_send_without_receiver_gives_the_message_back() {
    let (sender, receiver) = mpsc::unbounded::<String>();
    drop(receiver);
    assert_eq!(sender.try_send("lost".to_string()), Err("lost".to_string()));
}

#[test]
fn fallback_font_names() {
    assert_eq!(FallbackFonts::get_font_name(FontFamily::SansSerif, FontStyle::Regular), "LiberationSans-Regular.ttf");
    assert_eq!(FallbackFonts::get_font_name(FontFamily::SansSerif, FontStyle::Bold), "LiberationSans-Bold.ttf");
    assert_eq!(FallbackFonts::get_font_name(FontFamily::SansSerif, FontStyle::Italic), "LiberationSans-Italic.ttf");
    assert_eq!(FallbackFonts::get_font_name(FontFamily::SansSerif, FontStyle::BoldItalic), "LiberationSans-BoldItalic.ttf");
    assert_eq!(FallbackFonts::get_font_name(FontFamily::Serif, FontStyle::Regular), "LiberationSerif-Regular.ttf");
    assert_eq!(FallbackFonts::get_font_name(FontFamily::Serif, FontStyle::Bold), "LiberationSerif-Bold.ttf");
    assert_eq!(FallbackFonts::get_font_name(FontFamily::Serif, FontStyle::Italic), "LiberationSerif-Italic.ttf");
    assert_eq!(FallbackFonts::get_font_name(FontFamily::Serif, FontStyle::BoldItalic), "LiberationSerif-BoldItalic.ttf");
    assert_eq!(FallbackFonts::get_font_name(FontFamily::Monospace, FontStyle::Regular), "LiberationMono-Regular.ttf");
    assert_eq!(FallbackFonts::get_font_name(FontFamily::Monospace, FontStyle::Bold), "LiberationMono-Bold.ttf");
    assert_eq!(FallbackFonts::get_font_name(FontFamily::Monospace, FontStyle::Italic), "LiberationMono-Italic.ttf");
    assert_eq!(FallbackFonts::get_font_name(FontFamily::Monospace, FontStyle::BoldItalic), "LiberationMono-BoldItalic.ttf");
}

#[test]
fn msaa_sample_counts() {
    let x1: u32 = MSAA::X1.into();
    let x4: u32 = MSAA::X4.into();
    assert_eq!(x1, 1);
    assert_eq!(x4, 4);
}

#[test]
fn unsafe_send_gives_the_value_back() {
    let wrapped = UnsafeSend::new(vec![1, 2, 3]);
    assert_eq!(wrapped.take(), vec![1, 2, 3]);
}

#[test]
fn image_node_keeps_its_resource() {
    let node = ImageNode::new(Resource::Path("assets/logo.png".to_string()));
    match node.resource() {
        Resource::Path(p) => assert_eq!(p, "assets/logo.png"),
    }
}

#[test]
fn extent_and_offset_are_plain_values() {
    let e = Extent { width: 640, height: 480 };
    let o = Offset { x: -3, y: 12 };
    let e2 = e;
    assert_eq!((e2.width, e2.height, o.x, o.y), (640, 480, -3, 12));
}

#[test]
fn node_rect_cuts_to_the_room_in_the_parent() {
    let parent = Rect { offset: Offset { x: 0, y: 0 }, extent: Extent { width: 100, height: 50 } };
    let bounds = Rect { offset: Offset { x: 30, y: 40 }, extent: Extent { width: 90, height: 5 } };
    let r = node_rect(&parent, &bounds, false, false);
    assert_eq!((r.offset.x, r.offset.y, r.extent.width, r.extent.height), (30, 40, 70, 5));
    let filled = node_rect(&parent, &bounds, true, true);
    assert_eq!((filled.extent.width, filled.extent.height), (70, 10));
}

#[test]
fn node_rect_outside_the_parent() {
    let parent = Rect { offset: Offset { x: 0, y: 0 }, extent: Extent { width: 10, height: 10 } };
    let bounds = Rect { offset: Offset { x: 20, y: -5 }, extent: Extent { width: 4, height: 4 } };
    // the room to the right is negative: it becomes a huge u32 limit when the
    // node keeps its own width, and zero when the node fills the room
    let kept = node_rect(&parent, &bounds, false, false);
    assert_eq!((kept.extent.width, kept.extent.height), (4, 4));
    let filled = node_rect(&parent, &bounds, true, true);
    assert_eq!((filled.extent.width, filled.extent.height), (0, 15));
}

#[test]
fn main_loop_renders_only_mounted_surfaces() {
    let mut state = MainLoopState::new();
    assert!(matches!(state.on_event(&LoopEvent::Init), EventAction::StartApp));
    assert!(matches!(
        state.on_event(&LoopEvent::Surface { id: 1, event: LoopSurfaceEvent::Redraw }),
        EventAction::Nothing
    ));
    state.on_surface_created(1);
    assert!(!state.can_mount(2));
    assert!(state.can_mount(1));
    assert!(matches!(
        state.on_event(&LoopEvent::Surface { id: 1, event: LoopSurfaceEvent::Redraw }),
        EventAction::Nothing
    ));
    state.on_mounted(1);
    assert!(matches!(
        state.on_event(&LoopEvent::Surface { id: 1, event: LoopSurfaceEvent::Redraw }),
        EventAction::Render { id: 1 }
    ));
    match state.on_event(&LoopEvent::Surface {
        id: 1,
        event: LoopSurfaceEvent::Resized(Extent { width: 800, height: 600 }),
    }) {
        EventAction::ResizeAndRender { id, size } => assert_eq!((id, size.width, size.height), (1, 800, 600)),
        _ => panic!("a mounted surface is resized and rendered"),
    }
    assert!(matches!(
        state.on_event(&LoopEvent::Surface { id: 1, event: LoopSurfaceEvent::ShouldClose }),
        EventAction::Nothing
    ));
    assert!(matches!(state.on_event(&LoopEvent::EventsCleared), EventAction::Nothing));
    assert!(matches!(next_flow(true), Flow::Poll));
    assert!(matches!(next_flow(false), Flow::Wait));
}

#[test]
fn render_targets_are_at_least_one_pixel() {
    let r = rui::renderer::target_size(Extent { width: 0, height: 720 });
    assert_eq!((r.width, r.height), (1, 720));
    let s = rui::renderer::target_size(Extent { width: 1280, height: 0 });
    assert_eq!((s.width, s.height), (1280, 1));
}

#[test]
fn mount_request_for_an_unknown_surface_is_refused() {
    let mut state = MainLoopState::new();
    assert!(matches!(state.on_mount_request(4), MountAction::RefuseWithMountError));
    assert!(matches!(
        state.on_event(&LoopEvent::Surface { id: 4, event: LoopSurfaceEvent::Redraw }),
        EventAction::Nothing
    ));
    state.on_surface_created(4);
    assert!(matches!(state.on_mount_request(4), MountAction::MountRenderAndAnswerOk { id: 4 }));
    assert!(matches!(
        state.on_event(&LoopEvent::Surface { id: 4, event: LoopSurfaceEvent::Redraw }),
        EventAction::Render { id: 4 }
    ));
}

#[test]
fn path_textures_only_grow() {
    assert_eq!(grown_texture_width(1600, 900), None);
    assert_eq!(grown_texture_width(1600, 1600), None);
    assert_eq!(grown_texture_width(1600, 1601), Some(3202));
    assert_eq!(grown_texture_width(0, 1), Some(2));
}
