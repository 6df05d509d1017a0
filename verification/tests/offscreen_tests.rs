use fxaa_render::dims::ScreenDims;
use fxaa_render::offscreen::OutputColor;
use fxaa_render::offscreen::PlanError;
use fxaa_render::offscreen::RenderOffscreen;
use fxaa_render::offscreen::RenderPlan;
use fxaa_render::offscreen::Target;
use fxaa_render::resources::Format;

fn dims(w: u32, h: u32) -> Option<ScreenDims> {
    Some(ScreenDims::new(w, h))
}

#[test]
fn planning_registers_the_offscreen_target() {
    let mut plugin = RenderOffscreen::new();
    assert!(!plugin.should_rebuild(dims(800, 600)));
    assert!(plugin.should_rebuild(dims(800, 600)));

    let mut plan = RenderPlan::new();
    plugin.on_plan(&mut plan).expect("an empty plan accepts the target");

    assert_eq!(plan.roots, vec![Target::Offscreen]);
    assert_eq!(plan.passes.len(), 1);
    let pass = &plan.passes[0];
    assert_eq!(pass.target, Target::Offscreen);
    match pass.outputs.color {
        OutputColor::Image(info) => {
            assert_eq!((info.width, info.height), (800, 600));
            assert_eq!(info.format, Format::Rgba8Unorm);
        },
        OutputColor::Surface => panic!("the offscreen pass renders into its own image"),
    }
    let depth = pass.outputs.depth.expect("the offscreen pass has a depth image");
    assert_eq!((depth.width, depth.height), (800, 600));
    assert_eq!(depth.format, Format::D32Sfloat);

    // Planning settles the rebuild check.
    assert!(!plugin.should_rebuild(dims(800, 600)));
}

#[test]
fn planning_the_target_twice_is_refused() {
    let mut plugin = RenderOffscreen::new();
    plugin.should_rebuild(dims(800, 600));
    plugin.should_rebuild(dims(800, 600));

    let mut plan = RenderPlan::new();
    plugin.on_plan(&mut plan).expect("the first definition succeeds");
    let second = plugin.on_plan(&mut plan);
    assert_eq!(second, Err(PlanError::TargetAlreadyDefined));
    assert_eq!(plan.passes.len(), 1, "the failed definition changed the plan");
}
