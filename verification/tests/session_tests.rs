use fxaa_render::dims::ScreenDims;
use fxaa_render::factory::ResourceKind;
use fxaa_render::resources::Format;
use fxaa_render::session::RenderSession;
use fxaa_render::settings::FxaaSettings;

fn dims(w: u32, h: u32) -> Option<ScreenDims> {
    Some(ScreenDims::new(w, h))
}

const ON: FxaaSettings = FxaaSettings { enabled: true };
const OFF: FxaaSettings = FxaaSettings { enabled: false };

#[test]
fn a_session_builds_on_the_second_stable_reading() {
    let mut s = RenderSession::new(1000, Format::Bgra8Unorm, 2);

    let out = s.frame(dims(800, 600), &ON);
    assert!(!out.rebuild_requested);
    assert!(!out.rebuilt);
    assert!(out.commands.is_empty(), "nothing is drawn before the first build");

    let out = s.frame(dims(800, 600), &ON);
    assert!(out.rebuilt);
    assert_eq!(out.commands.len(), 5);
    let graph = s.graph.as_ref().expect("a graph is installed");
    assert_eq!(graph.image_at(0).width, 800);
}

#[test]
fn a_resize_held_stable_rebuilds_exactly_once() {
    let mut s = RenderSession::new(1000, Format::Bgra8Unorm, 2);
    s.frame(dims(800, 600), &ON);
    s.frame(dims(800, 600), &ON);
    assert_eq!(s.factory.created_count(ResourceKind::Pipeline), 1);

    let mut rebuilds = 0;
    for _ in 0..4 {
        let out = s.frame(dims(1024, 768), &ON);
        if out.rebuilt {
            rebuilds += 1;
            let graph = s.graph.as_ref().expect("a graph is installed");
            assert_eq!(graph.image_at(0).width, 1024);
            assert_eq!(graph.image_at(1).height, 768);
            assert_eq!(graph.image_at(2).width, 1024);
        }
    }
    assert_eq!(rebuilds, 1);
    // The old group is fully gone, exactly one group's resources live on.
    assert_eq!(s.factory.created_count(ResourceKind::Pipeline), 2);
    assert_eq!(s.factory.destroyed_count(ResourceKind::Pipeline), 1);
    assert_eq!(s.factory.live_count(ResourceKind::Buffer), 2);
    assert_eq!(s.factory.live_count(ResourceKind::DescriptorSet), 2);
}

#[test]
fn a_transient_resize_that_reverts_never_rebuilds() {
    let mut s = RenderSession::new(1000, Format::Bgra8Unorm, 2);
    s.frame(dims(800, 600), &ON);
    s.frame(dims(800, 600), &ON);

    let out = s.frame(dims(1024, 768), &ON);
    assert!(!out.rebuild_requested);
    let out = s.frame(dims(800, 600), &ON);
    assert!(!out.rebuild_requested);
    let out = s.frame(dims(800, 600), &ON);
    assert!(!out.rebuild_requested);
    assert_eq!(s.factory.created_count(ResourceKind::Pipeline), 1);
}

#[test]
fn toggling_within_a_session_neither_rebuilds_nor_touches_the_pipeline() {
    let mut s = RenderSession::new(1000, Format::Bgra8Unorm, 2);
    s.frame(dims(800, 600), &ON);
    s.frame(dims(800, 600), &ON);
    let pipeline = s.group.as_ref().expect("a group is installed").pipeline.id;

    for settings in [&OFF, &ON, &OFF, &ON] {
        let out = s.frame(dims(800, 600), settings);
        assert!(!out.rebuild_requested);
        assert_eq!(out.commands.len(), 5, "the pass still records its draw");
        assert_eq!(s.group.as_ref().unwrap().enabled, settings.enabled);
    }
    assert_eq!(s.group.as_ref().unwrap().pipeline.id, pipeline);
    assert_eq!(s.factory.created_count(ResourceKind::Pipeline), 1);
    assert_eq!(s.factory.destroyed_count(ResourceKind::Pipeline), 0);
}

#[test]
fn frame_slots_cycle_over_the_frames_in_flight() {
    let mut s = RenderSession::new(1000, Format::Bgra8Unorm, 3);
    let slots: Vec<usize> = (0..7).map(|_| s.frame(dims(320, 200), &ON).frame_index).collect();
    assert_eq!(slots, vec![0, 1, 2, 0, 1, 2, 0]);
}

#[test]
fn a_session_without_fuel_keeps_running_without_a_graph() {
    let mut s = RenderSession::new(3, Format::Bgra8Unorm, 2);
    s.frame(dims(800, 600), &ON);
    let out = s.frame(dims(800, 600), &ON);
    assert!(out.rebuild_requested);
    assert!(!out.rebuilt, "three creations cannot build the group");
    assert!(out.commands.is_empty());
    for kind in [
        ResourceKind::Pipeline,
        ResourceKind::Buffer,
        ResourceKind::DescriptorSet,
        ResourceKind::DescriptorLayout,
        ResourceKind::Sampler,
        ResourceKind::ImageView,
    ] {
        assert_eq!(s.factory.live_count(kind), 0, "a failed attempt leaked a {:?}", kind);
    }
}

#[test]
fn shutdown_pairs_every_creation_with_a_destruction() {
    let mut s = RenderSession::new(1000, Format::Bgra8Unorm, 2);
    s.frame(dims(800, 600), &ON);
    s.frame(dims(800, 600), &ON);
    s.frame(dims(800, 600), &OFF);
    s.shutdown();
    for kind in [
        ResourceKind::Pipeline,
        ResourceKind::PipelineLayout,
        ResourceKind::Buffer,
        ResourceKind::DescriptorSet,
        ResourceKind::DescriptorLayout,
        ResourceKind::Sampler,
        ResourceKind::ImageView,
        ResourceKind::ShaderModule,
    ] {
        assert_eq!(s.factory.live_count(kind), 0, "{:?} survived shutdown", kind);
    }
}
