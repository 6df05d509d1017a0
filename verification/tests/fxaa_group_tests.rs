use fxaa_render::dims::ScreenDims;
use fxaa_render::factory::Factory;
use fxaa_render::factory::ResourceKind;
use fxaa_render::fxaa::DrawFXAA;
use fxaa_render::fxaa::DrawFXAADesc;
use fxaa_render::fxaa::FXAAUniformArgs;
use fxaa_render::fxaa::Filter;
use fxaa_render::fxaa::PrepareResult;
use fxaa_render::fxaa::RenderCommand;
use fxaa_render::fxaa::WrapMode;
use fxaa_render::quad::decode_vertex_buffer;
use fxaa_render::quad::quad_vertex_list;
use fxaa_render::settings::FxaaSettings;

const ALL_KINDS: [ResourceKind; 9] = [
    ResourceKind::Image,
    ResourceKind::ImageView,
    ResourceKind::Sampler,
    ResourceKind::DescriptorLayout,
    ResourceKind::DescriptorSet,
    ResourceKind::Buffer,
    ResourceKind::ShaderModule,
    ResourceKind::PipelineLayout,
    ResourceKind::Pipeline,
];

fn build_group(factory: &mut Factory) -> DrawFXAA {
    DrawFXAADesc::default()
        .build(factory, 0, 800, 600, 0, 3)
        .expect("a factory with fuel builds the group")
}

#[test]
fn build_succeeds_and_wires_everything() {
    let mut factory = Factory::new(100);
    let group = build_group(&mut factory);
    assert!(!group.disposed);
    assert!(group.enabled);
    assert_eq!(group.input_image, 0);
    assert_eq!(group.frames_in_flight(), 3);
    assert_eq!(group.texture_binding.view, group.view);
    assert_eq!(group.texture_binding.sampler, group.sampler);
    assert_eq!(group.texture_binding.binding, 0);
    assert_eq!(group.sampler_desc.min_filter, Filter::Linear);
    assert_eq!(group.sampler_desc.wrap_u, WrapMode::Clamp);
    assert!(!group.sampler_desc.anisotropic);
    assert!(group.pipeline.desc.cull_back);
    assert!(!group.pipeline.desc.blend_enabled);
    assert!(!group.pipeline.desc.depth_test);
    assert_eq!(group.pipeline.desc.fb_width, 800);
    assert_eq!(group.pipeline.desc.fb_height, 600);
    assert_eq!(factory.fuel, 100 - 12);
}

#[test]
fn the_built_vertex_buffer_decodes_to_the_quad() {
    let mut factory = Factory::new(100);
    let group = build_group(&mut factory);
    let decoded = decode_vertex_buffer(&group.vertex_data).expect("the buffer decodes");
    assert_eq!(decoded, quad_vertex_list());
}

#[test]
fn shader_modules_are_created_and_destroyed_in_pairs() {
    let mut factory = Factory::new(100);
    let _group = build_group(&mut factory);
    assert_eq!(factory.created_count(ResourceKind::ShaderModule), 2);
    assert_eq!(factory.destroyed_count(ResourceKind::ShaderModule), 2);
    assert_eq!(factory.live_count(ResourceKind::ShaderModule), 0);
    assert_eq!(factory.live_count(ResourceKind::Pipeline), 1);
    assert_eq!(factory.live_count(ResourceKind::PipelineLayout), 1);
}

#[test]
fn a_failed_build_leaks_nothing() {
    for fuel in 0..12u64 {
        let mut factory = Factory::new(fuel);
        let result = DrawFXAADesc::default().build(&mut factory, 0, 800, 600, 0, 2);
        assert!(result.is_err(), "fuel {} must not build twelve objects", fuel);
        for kind in ALL_KINDS {
            assert_eq!(
                factory.live_count(kind),
                0,
                "fuel {} leaked a {:?}",
                fuel,
                kind
            );
        }
    }
}

#[test]
fn prepare_writes_exactly_one_slice() {
    let mut factory = Factory::new(100);
    let mut group = build_group(&mut factory);
    let settings = FxaaSettings { enabled: true };
    let r = group.prepare(1, ScreenDims::new(800, 600), &settings);
    assert_eq!(r, PrepareResult::DrawRecord);
    assert_eq!(group.uniform_slice(1), FXAAUniformArgs { screen_width: 800, screen_height: 600 });
    assert_eq!(group.uniform_slice(0), FXAAUniformArgs { screen_width: 0, screen_height: 0 });
    assert_eq!(group.uniform_slice(2), FXAAUniformArgs { screen_width: 0, screen_height: 0 });
    group.prepare(2, ScreenDims::new(1024, 768), &settings);
    assert_eq!(group.uniform_slice(1), FXAAUniformArgs { screen_width: 800, screen_height: 600 });
    assert_eq!(group.uniform_slice(2), FXAAUniformArgs { screen_width: 1024, screen_height: 768 });
}

#[test]
fn recording_before_any_prepare_uses_the_zeroed_default() {
    let mut factory = Factory::new(100);
    let group = build_group(&mut factory);
    let mut encoder: Vec<RenderCommand> = Vec::new();
    group.draw_inline(&mut encoder, 0);
    assert_eq!(encoder.len(), 5);
    assert_eq!(
        group.uniform_slice(0),
        FXAAUniformArgs { screen_width: 0, screen_height: 0 }
    );
}

#[test]
fn recording_encodes_the_five_commands_in_order() {
    let mut factory = Factory::new(100);
    let mut group = build_group(&mut factory);
    group.prepare(2, ScreenDims::new(800, 600), &FxaaSettings { enabled: true });
    let mut encoder: Vec<RenderCommand> = Vec::new();
    group.draw_inline(&mut encoder, 2);
    let expected = vec![
        RenderCommand::BindGraphicsPipeline { pipeline: group.pipeline.id },
        RenderCommand::BindUniformSlice { set: 0, descriptor_set: group.env_set, slice: 2 },
        RenderCommand::BindDescriptorSet { set: 1, descriptor_set: group.texture_set },
        RenderCommand::BindVertexBuffer { buffer: group.vertex_buffer, offset: 0 },
        RenderCommand::Draw { first_vertex: 0, vertex_count: 6, first_instance: 0, instance_count: 1 },
    ];
    assert_eq!(encoder, expected);
}

#[test]
fn dispose_destroys_once_and_only_once() {
    let mut factory = Factory::new(100);
    let mut group = build_group(&mut factory);
    group.dispose(&mut factory);
    assert!(group.disposed);
    assert_eq!(factory.destroyed_count(ResourceKind::Pipeline), 1);
    assert_eq!(factory.destroyed_count(ResourceKind::PipelineLayout), 1);
    group.dispose(&mut factory);
    assert_eq!(factory.destroyed_count(ResourceKind::Pipeline), 1);
    assert_eq!(factory.destroyed_count(ResourceKind::PipelineLayout), 1);
}

#[test]
fn dispose_then_release_pairs_every_creation() {
    let mut factory = Factory::new(100);
    let mut group = build_group(&mut factory);
    group.dispose(&mut factory);
    group.release(&mut factory);
    for kind in ALL_KINDS {
        assert_eq!(factory.live_count(kind), 0, "a {:?} outlived its group", kind);
    }
}

#[test]
fn the_pass_declares_one_sampled_input_and_no_depth() {
    let desc = DrawFXAADesc::default();
    assert!(!desc.depth());
    let images = desc.images();
    assert_eq!(images.len(), 1);
}

#[test]
fn toggling_off_keeps_the_pipeline_and_the_draw() {
    let mut factory = Factory::new(100);
    let mut group = build_group(&mut factory);
    let pipeline_before = group.pipeline.id;
    group.prepare(0, ScreenDims::new(800, 600), &FxaaSettings { enabled: false });
    assert!(!group.enabled);
    group.prepare(1, ScreenDims::new(800, 600), &FxaaSettings { enabled: true });
    assert!(group.enabled);
    assert_eq!(group.pipeline.id, pipeline_before);
    assert_eq!(factory.created_count(ResourceKind::Pipeline), 1);
    assert_eq!(factory.destroyed_count(ResourceKind::Pipeline), 0);
    let mut encoder: Vec<RenderCommand> = Vec::new();
    group.draw_inline(&mut encoder, 0);
    assert_eq!(encoder.len(), 5);
}
