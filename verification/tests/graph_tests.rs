use fxaa_render::dims::ScreenDims;
use fxaa_render::factory::Factory;
use fxaa_render::factory::ResourceKind;
use fxaa_render::fxaa::DrawFXAADesc;
use fxaa_render::graph::PassKind;
use fxaa_render::graph::RenderGraph;
use fxaa_render::resources::Format;
use fxaa_render::settings::FxaaSettings;

fn dims(w: u32, h: u32) -> Option<ScreenDims> {
    Some(ScreenDims::new(w, h))
}

#[test]
fn the_builder_produces_the_three_stage_graph() {
    let mut rg = RenderGraph::new();
    assert!(!rg.rebuild(dims(800, 600)));
    assert!(rg.rebuild(dims(800, 600)));
    let g = rg.builder(Format::Bgra8Unorm);

    assert_eq!(g.image_count(), 3);
    let hdr = g.image_at(0);
    let color = g.image_at(1);
    let depth = g.image_at(2);
    assert_eq!((hdr.width, hdr.height), (800, 600));
    assert_eq!((color.width, color.height), (800, 600));
    assert_eq!((depth.width, depth.height), (800, 600));
    assert_eq!(hdr.format, Format::Rgba8Unorm);
    assert_eq!(color.format, Format::Bgra8Unorm);
    assert_eq!(depth.format, Format::D32Sfloat);

    assert_eq!(g.pass_count(), 3);
    assert_eq!(g.passes[0].kind, PassKind::Geometry);
    assert_eq!(g.passes[1].kind, PassKind::PostProcess);
    assert_eq!(g.passes[2].kind, PassKind::Present);
    assert_eq!(g.passes[0].colors, vec![0]);
    assert_eq!(g.passes[0].depth, Some(2));
    assert_eq!(g.passes[1].inputs[0].image, 0);
    assert_eq!(g.passes[1].colors, vec![1]);
    assert_eq!(g.passes[1].deps, vec![0]);
    assert_eq!(g.passes[2].inputs[0].image, 1);
    assert_eq!(g.passes[2].deps, vec![1]);

    assert!(!rg.rebuild(dims(800, 600)));
}

#[test]
fn resizing_held_stable_rebuilds_exactly_once() {
    let mut rg = RenderGraph::new();
    let mut factory = Factory::new(1000);

    // First frame: the initial dimensions arrive and stabilize.
    assert!(!rg.rebuild(dims(800, 600)));
    assert!(rg.rebuild(dims(800, 600)));
    let first_graph = rg.builder(Format::Rgba8Unorm);
    let mut first_group = DrawFXAADesc::default()
        .build(&mut factory, 0, 800, 600, 0, 2)
        .expect("first build succeeds");
    assert_eq!(first_graph.image_at(0).width, 800);

    // The viewport is resized to 1024x768 and held stable for two frames.
    let mut rebuilds = 0;
    for reading in [dims(1024, 768), dims(1024, 768), dims(1024, 768)] {
        if rg.rebuild(reading) {
            rebuilds += 1;
            // Old resources are fully disposed before the new build.
            first_group.dispose(&mut factory);
            first_group.release(&mut factory);
            assert_eq!(factory.live_count(ResourceKind::Pipeline), 0);
            let new_graph = rg.builder(Format::Rgba8Unorm);
            let new_group = DrawFXAADesc::default()
                .build(&mut factory, 0, 1024, 768, 0, 2)
                .expect("rebuild succeeds");
            assert_eq!(new_graph.image_at(0).width, 1024);
            assert_eq!(new_graph.image_at(0).height, 768);
            assert_eq!(new_graph.image_at(1).width, 1024);
            assert_eq!(new_graph.image_at(2).height, 768);
            assert!(!new_group.disposed);
            first_group = new_group;
        }
    }
    assert_eq!(rebuilds, 1);
    assert_eq!(factory.live_count(ResourceKind::Pipeline), 1);
    assert_eq!(factory.created_count(ResourceKind::Pipeline), 2);
}

#[test]
fn toggling_the_effect_needs_no_rebuild_and_no_new_pipeline() {
    let mut rg = RenderGraph::new();
    let mut factory = Factory::new(1000);

    assert!(!rg.rebuild(dims(800, 600)));
    assert!(rg.rebuild(dims(800, 600)));
    let _graph = rg.builder(Format::Rgba8Unorm);
    let mut group = DrawFXAADesc::default()
        .build(&mut factory, 0, 800, 600, 0, 2)
        .expect("build succeeds");

    let mut frame = 0usize;
    for enabled in [true, false, true] {
        // The toggle changes between frames; the dimensions do not.
        assert!(!rg.rebuild(dims(800, 600)));
        group.prepare(frame % 2, ScreenDims::new(800, 600), &FxaaSettings { enabled });
        frame += 1;
    }
    assert_eq!(factory.created_count(ResourceKind::Pipeline), 1);
    assert_eq!(factory.destroyed_count(ResourceKind::Pipeline), 0);
    assert!(group.enabled);
}
