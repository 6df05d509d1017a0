//! The post-process render group.
//!
//! One instance owns the pass's pipeline, the descriptor set bound to the
//! offscreen color image, a per-frame uniform store of viewport dimensions,
//! and the static full-screen quad vertex buffer.  Its life cycle is
//! built once, then prepared and recorded every frame, then disposed
//! exactly once at the next graph rebuild or shutdown.

use vstd::prelude::*;

use crate::dims::ScreenDims;
use crate::factory::BuildError;
use crate::factory::Factory;
use crate::factory::ResourceKind;
use crate::factory::count_of;
use crate::factory::lemma_with_count;
use crate::factory::live;
use crate::factory::lemma_zero_shift_unchanged;
use crate::factory::lives_shifted;
use crate::factory::lives_unchanged;
use crate::quad::FXAAVertexArgs;
use crate::quad::VertexFormat;
use crate::quad::encode_vertex_buffer;
use crate::quad::encodes;
use crate::quad::is_fxaa_vertex_format;
use crate::quad::quad_vertex_list;
use crate::quad::quad_vertices;
use crate::resources::ImageAccess;
use crate::resources::sampled_fragment_access;
use crate::settings::FxaaSettings;

verus! {

/// Texel filtering mode of the sampler.
#[derive(Clone, Copy, Debug, PartialEq, Eq, Structural)]
pub enum Filter {
    Nearest,
    Linear,
}

/// How the sampler treats coordinates outside the image.
#[derive(Clone, Copy, Debug, PartialEq, Eq, Structural)]
pub enum WrapMode {
    Tile,
    Mirror,
    Clamp,
    Border,
}

/// The fixed-function state a sampler is created with.
#[derive(Clone, Copy, Debug, PartialEq, Eq, Structural)]
pub struct SamplerDesc {
    pub min_filter: Filter,
    pub mag_filter: Filter,
    pub mip_filter: Filter,
    pub wrap_u: WrapMode,
    pub wrap_v: WrapMode,
    pub wrap_w: WrapMode,
    pub anisotropic: bool,
    pub comparison: bool,
}

/// The sampler the pass reads the offscreen image with: linear filtering
/// on all axes, clamp-to-edge wrapping, no anisotropy, no comparison.
pub open spec fn fxaa_sampler_desc() -> SamplerDesc {
    SamplerDesc {
        min_filter: Filter::Linear,
        mag_filter: Filter::Linear,
        mip_filter: Filter::Linear,
        wrap_u: WrapMode::Clamp,
        wrap_v: WrapMode::Clamp,
        wrap_w: WrapMode::Clamp,
        anisotropic: false,
        comparison: false,
    }
}

/// The fixed-function and shader-stage state a graphics pipeline is
/// compiled with.
#[derive(Debug)]
pub struct PipelineDesc {
    pub vertex_format: VertexFormat,
    pub subpass: u32,
    pub fb_width: u32,
    pub fb_height: u32,
    pub cull_back: bool,
    pub blend_enabled: bool,
    pub color_mask_all: bool,
    pub depth_test: bool,
    pub env_set_layout: u64,
    pub texture_set_layout: u64,
}

/// The pipeline state the post-process pass requires: the quad's vertex
/// layout, back-face culling, no depth test, blending disabled with a full
/// color mask, and the two descriptor-set layouts at sets 0 and 1.
pub open spec fn is_fxaa_pipeline_desc(
    d: PipelineDesc,
    subpass: u32,
    fb_width: u32,
    fb_height: u32,
    env_set_layout: u64,
    texture_set_layout: u64,
) -> bool {
    &&& is_fxaa_vertex_format(d.vertex_format)
    &&& d.subpass == subpass
    &&& d.fb_width == fb_width
    &&& d.fb_height == fb_height
    &&& d.cull_back
    &&& !d.blend_enabled
    &&& d.color_mask_all
    &&& !d.depth_test
    &&& d.env_set_layout == env_set_layout
    &&& d.texture_set_layout == texture_set_layout
}

/// A compiled graphics pipeline: its factory id and the state it was
/// compiled with.
#[derive(Debug)]
pub struct Pipeline {
    pub id: u64,
    pub desc: PipelineDesc,
}

/// What was written into the texture descriptor set at creation; the
/// binding is never rewritten afterwards.
#[derive(Clone, Copy, Debug, PartialEq, Eq, Structural)]
pub struct DescriptorBinding {
    pub binding: u32,
    pub view: u64,
    pub sampler: u64,
}

/// The per-frame uniform record: the viewport dimensions in whole pixels,
/// which the shader consumes as two 32-bit floats.
#[derive(Clone, Copy, Debug, PartialEq, Eq, Structural)]
pub struct FXAAUniformArgs {
    pub screen_width: u32,
    pub screen_height: u32,
}

/// The uniform record written by `prepare` for dimensions `d`.
pub open spec fn uniform_args(d: ScreenDims) -> FXAAUniformArgs {
    FXAAUniformArgs { screen_width: d.width, screen_height: d.height }
}

/// The default uniform state every slice holds from build time until the
/// first `prepare` of that slice.
pub open spec fn zero_uniform() -> FXAAUniformArgs {
    FXAAUniformArgs { screen_width: 0, screen_height: 0 }
}

/// What `prepare` tells the host about the coming `record`.
#[derive(Clone, Copy, Debug, PartialEq, Eq, Structural)]
pub enum PrepareResult {
    /// Commands must be re-recorded this frame.
    DrawRecord,
    /// Last frame's commands may be replayed.
    DrawReuse,
}

/// One command encoded into a render pass.
#[derive(Clone, Copy, Debug, PartialEq, Eq, Structural)]
pub enum RenderCommand {
    BindGraphicsPipeline { pipeline: u64 },
    BindUniformSlice { set: u32, descriptor_set: u64, slice: usize },
    BindDescriptorSet { set: u32, descriptor_set: u64 },
    BindVertexBuffer { buffer: u64, offset: u64 },
    Draw { first_vertex: u32, vertex_count: u32, first_instance: u32, instance_count: u32 },
}

/// Descriptor of the post-process render group, before it is built.
#[derive(Clone, Copy, Debug, PartialEq, Eq, Structural, Default)]
pub struct DrawFXAADesc;

/// The built post-process render group.
pub struct DrawFXAA {
    /// The compiled graphics pipeline.
    pub pipeline: Pipeline,
    /// The pipeline's layout; destroyed after the pipeline, never before.
    pub pipeline_layout: u64,
    /// Descriptor-set layout of the uniform store (set 0).
    pub env_layout: u64,
    /// The uniform buffer, one slice per frame in flight.
    pub env_buffer: u64,
    /// Descriptor set binding the uniform buffer.
    pub env_set: u64,
    /// CPU-side contents of the uniform slices, indexed by frame in flight.
    pub uniform_slices: Vec<FXAAUniformArgs>,
    /// View into the offscreen input image.
    pub view: u64,
    /// Sampler the fragment stage reads the input with.
    pub sampler: u64,
    /// The state the sampler was created with.
    pub sampler_desc: SamplerDesc,
    /// Descriptor-set layout of the sampled input (set 1).
    pub texture_layout: u64,
    /// Descriptor set holding the input view and sampler.
    pub texture_set: u64,
    /// What was written into `texture_set`; fixed for this group's lifetime.
    pub texture_binding: DescriptorBinding,
    /// The static quad vertex buffer.
    pub vertex_buffer: u64,
    /// CPU-side image of the vertex buffer, as 32-bit words.
    pub vertex_data: Vec<u32>,
    /// The graph image this group samples.
    pub input_image: u64,
    /// The toggle value seen at the last `prepare`; the effect starts
    /// enabled, matching the settings the host installs at startup.
    pub enabled: bool,
    /// Whether `dispose` has run; a disposed group accepts no further
    /// `prepare` or `draw_inline`.
    pub disposed: bool,
}

/// The GPU objects of `b` are those of `a`, untouched: same pipeline and
/// layout, same descriptor machinery, same buffers, same input image.
pub open spec fn same_gpu_objects(a: DrawFXAA, b: DrawFXAA) -> bool {
    &&& b.pipeline == a.pipeline
    &&& b.pipeline_layout == a.pipeline_layout
    &&& b.env_layout == a.env_layout
    &&& b.env_buffer == a.env_buffer
    &&& b.env_set == a.env_set
    &&& b.view == a.view
    &&& b.sampler == a.sampler
    &&& b.sampler_desc == a.sampler_desc
    &&& b.texture_layout == a.texture_layout
    &&& b.texture_set == a.texture_set
    &&& b.texture_binding == a.texture_binding
    &&& b.vertex_buffer == a.vertex_buffer
    &&& b.vertex_data@ == a.vertex_data@
    &&& b.input_image == a.input_image
}

/// A correctly built group, whatever its uniform slices hold by now:
/// every sub-resource created and wired, the texture set bound to this
/// group's view and sampler, the vertex buffer holding exactly the quad,
/// not disposed.
pub open spec fn is_built_group(
    g: DrawFXAA,
    fb_width: u32,
    fb_height: u32,
    subpass: u32,
    frames_in_flight: usize,
    input_image: u64,
) -> bool {
    &&& is_fxaa_pipeline_desc(g.pipeline.desc, subpass, fb_width, fb_height, g.env_layout, g.texture_layout)
    &&& g.sampler_desc == fxaa_sampler_desc()
    &&& g.texture_binding == (DescriptorBinding { binding: 0, view: g.view, sampler: g.sampler })
    &&& g.uniform_slices@.len() == frames_in_flight
    &&& encodes(quad_vertices(), g.vertex_data@)
    &&& g.input_image == input_image
    &&& !g.disposed
}

/// A group as `build` hands it out: correctly built, all uniform slices
/// still zeroed, the effect recorded as enabled.
pub open spec fn is_fresh_build(
    g: DrawFXAA,
    fb_width: u32,
    fb_height: u32,
    subpass: u32,
    frames_in_flight: usize,
    input_image: u64,
) -> bool {
    &&& is_built_group(g, fb_width, fb_height, subpass, frames_in_flight, input_image)
    &&& forall|i: int| 0 <= i < frames_in_flight ==> g.uniform_slices@[i] == zero_uniform()
    &&& g.enabled
}

/// The command sequence `draw_inline` encodes for frame `index`: bind the
/// pipeline, the uniform slice at set 0, the input image at set 1, the quad
/// vertex buffer, then draw 6 vertices in 1 instance.
pub open spec fn draw_commands(g: DrawFXAA, index: usize) -> Seq<RenderCommand> {
    seq![
        RenderCommand::BindGraphicsPipeline { pipeline: g.pipeline.id },
        RenderCommand::BindUniformSlice { set: 0, descriptor_set: g.env_set, slice: index },
        RenderCommand::BindDescriptorSet { set: 1, descriptor_set: g.texture_set },
        RenderCommand::BindVertexBuffer { buffer: g.vertex_buffer, offset: 0 },
        RenderCommand::Draw { first_vertex: 0, vertex_count: 6, first_instance: 0, instance_count: 1 },
    ]
}

/// Law: uniform slices are isolated.  Writing frame `i`'s slice yields
/// exactly the written record when slice `i` is read back, and never
/// alters any slice `j != i`.
pub proof fn lemma_slice_isolation(
    slices: Seq<FXAAUniformArgs>,
    i: int,
    a: FXAAUniformArgs,
    j: int,
)
    requires
        0 <= i < slices.len(),
        0 <= j < slices.len(),
        j != i,
    ensures
        slices.update(i, a)[i] == a,
        slices.update(i, a)[j] == slices[j],
{
}

/// Build the pipeline layout, the two shader modules, and the pipeline
/// itself.  The shader modules live only during compilation: they are
/// destroyed on both the success and the failure path, and on failure the
/// layout is destroyed too, so a failed attempt leaves no object alive.
pub fn build_custom_pipeline(
    factory: &mut Factory,
    subpass: u32,
    fb_width: u32,
    fb_height: u32,
    env_set_layout: u64,
    texture_set_layout: u64,
) -> (r: Result<(Pipeline, u64), BuildError>)
    requires
        old(factory).wf(),
    ensures
        final(factory).wf(),
        r is Ok <==> old(factory).fuel >= 4,
        r matches Ok((p, layout)) ==> {
            &&& is_fxaa_pipeline_desc(p.desc, subpass, fb_width, fb_height, env_set_layout, texture_set_layout)
            &&& p.id == count_of(old(factory).created, ResourceKind::Pipeline)
            &&& layout == count_of(old(factory).created, ResourceKind::PipelineLayout)
            &&& live(*final(factory), ResourceKind::Pipeline) == live(*old(factory), ResourceKind::Pipeline) + 1
            &&& live(*final(factory), ResourceKind::PipelineLayout) == live(*old(factory), ResourceKind::PipelineLayout) + 1
            &&& forall|j: ResourceKind|
                j != ResourceKind::Pipeline && j != ResourceKind::PipelineLayout
                    ==> #[trigger] live(*final(factory), j) == live(*old(factory), j)
            &&& count_of(final(factory).created, ResourceKind::ShaderModule)
                == count_of(old(factory).created, ResourceKind::ShaderModule) + 2
            &&& count_of(final(factory).destroyed, ResourceKind::ShaderModule)
                == count_of(old(factory).destroyed, ResourceKind::ShaderModule) + 2
            &&& count_of(final(factory).created, ResourceKind::PipelineLayout)
                == count_of(old(factory).created, ResourceKind::PipelineLayout) + 1
            &&& count_of(final(factory).created, ResourceKind::Pipeline)
                == count_of(old(factory).created, ResourceKind::Pipeline) + 1
            &&& forall|j: ResourceKind|
                j != ResourceKind::Pipeline && j != ResourceKind::PipelineLayout
                    && j != ResourceKind::ShaderModule
                    ==> #[trigger] count_of(final(factory).created, j) == count_of(old(factory).created, j)
            &&& final(factory).fuel == old(factory).fuel - 4
            &&& final(factory).destroy_log@ == old(factory).destroy_log@
                .push(ResourceKind::ShaderModule).push(ResourceKind::ShaderModule)
        },
        r is Err ==> lives_unchanged(*old(factory), *final(factory)),
{
    let ghost created0 = factory.created;
    let pipeline_layout = match factory.create(ResourceKind::PipelineLayout) {
        Ok(id) => id,
        Err(e) => {
            return Err(e);
        },
    };
    proof {
        lemma_with_count(created0, ResourceKind::PipelineLayout,
            (count_of(created0, ResourceKind::PipelineLayout) + 1) as u64);
    }
    let ghost created1 = factory.created;
    let _shader_vertex = match factory.create(ResourceKind::ShaderModule) {
        Ok(id) => id,
        Err(e) => {
            factory.destroy(ResourceKind::PipelineLayout);
            return Err(e);
        },
    };
    proof {
        lemma_with_count(created1, ResourceKind::ShaderModule,
            (count_of(created1, ResourceKind::ShaderModule) + 1) as u64);
    }
    let ghost created2 = factory.created;
    let _shader_fragment = match factory.create(ResourceKind::ShaderModule) {
        Ok(id) => id,
        Err(e) => {
            factory.destroy(ResourceKind::ShaderModule);
            factory.destroy(ResourceKind::PipelineLayout);
            return Err(e);
        },
    };
    proof {
        lemma_with_count(created2, ResourceKind::ShaderModule,
            (count_of(created2, ResourceKind::ShaderModule) + 1) as u64);
    }
    let ghost created3 = factory.created;
    let pipeline_id = factory.create(ResourceKind::Pipeline);
    proof {
        if pipeline_id is Ok {
            lemma_with_count(created3, ResourceKind::Pipeline,
                (count_of(created3, ResourceKind::Pipeline) + 1) as u64);
        }
    }
    factory.destroy(ResourceKind::ShaderModule);
    factory.destroy(ResourceKind::ShaderModule);
    match pipeline_id {
        Ok(id) => {
            let desc = PipelineDesc {
                vertex_format: FXAAVertexArgs::vertex(),
                subpass,
                fb_width,
                fb_height,
                cull_back: true,
                blend_enabled: false,
                color_mask_all: true,
                depth_test: false,
                env_set_layout,
                texture_set_layout,
            };
            Ok((Pipeline { id, desc }, pipeline_layout))
        },
        Err(e) => {
            factory.destroy(ResourceKind::PipelineLayout);
            Err(e)
        },
    }
}

impl DrawFXAADesc {
    /// The pass writes no depth.
    pub fn depth(&self) -> (r: bool)
        ensures
            r == false,
    {
        false
    }

    /// The single input image, sampled by the fragment shader.
    pub fn images(&self) -> (r: Vec<ImageAccess>)
        ensures
            r@ == seq![sampled_fragment_access()],
    {
        let mut r: Vec<ImageAccess> = Vec::new();
        r.push(ImageAccess {
            access: crate::resources::AccessType::ShaderRead,
            usage: crate::resources::UsageType::Sampled,
            layout: crate::resources::LayoutType::ShaderReadOnlyOptimal,
            stages: crate::resources::StageFlag::FragmentShader,
        });
        assert(r@ =~= seq![sampled_fragment_access()]);
        r
    }

    /// Build the render group for the input image the graph wired to this
    /// node.  Creates, in order: the uniform store (layout, buffer,
    /// descriptor set), the image view, the sampler, the texture layout
    /// and set, the pipeline, and the quad vertex buffer — twelve
    /// creations in all.  Succeeds exactly when the factory grants all of
    /// them; on any failure everything created by this attempt is
    /// destroyed again, so no partially built group is ever exposed.
    pub fn build(
        self,
        factory: &mut Factory,
        input_image: u64,
        fb_width: u32,
        fb_height: u32,
        subpass: u32,
        frames_in_flight: usize,
    ) -> (r: Result<DrawFXAA, BuildError>)
        requires
            old(factory).wf(),
            frames_in_flight >= 1,
        ensures
            final(factory).wf(),
            r is Ok <==> old(factory).fuel >= 12,
            r matches Ok(g) ==> {
                &&& is_fresh_build(g, fb_width, fb_height, subpass, frames_in_flight, input_image)
                &&& g.env_layout == count_of(old(factory).created, ResourceKind::DescriptorLayout)
                &&& g.env_buffer == count_of(old(factory).created, ResourceKind::Buffer)
                &&& g.env_set == count_of(old(factory).created, ResourceKind::DescriptorSet)
                &&& g.view == count_of(old(factory).created, ResourceKind::ImageView)
                &&& g.sampler == count_of(old(factory).created, ResourceKind::Sampler)
                &&& g.texture_layout == count_of(old(factory).created, ResourceKind::DescriptorLayout) + 1
                &&& g.texture_set == count_of(old(factory).created, ResourceKind::DescriptorSet) + 1
                &&& g.pipeline_layout == count_of(old(factory).created, ResourceKind::PipelineLayout)
                &&& g.pipeline.id == count_of(old(factory).created, ResourceKind::Pipeline)
                &&& g.vertex_buffer == count_of(old(factory).created, ResourceKind::Buffer) + 1
                &&& live(*final(factory), ResourceKind::DescriptorLayout)
                    == live(*old(factory), ResourceKind::DescriptorLayout) + 2
                &&& live(*final(factory), ResourceKind::DescriptorSet)
                    == live(*old(factory), ResourceKind::DescriptorSet) + 2
                &&& live(*final(factory), ResourceKind::Buffer) == live(*old(factory), ResourceKind::Buffer) + 2
                &&& live(*final(factory), ResourceKind::ImageView) == live(*old(factory), ResourceKind::ImageView) + 1
                &&& live(*final(factory), ResourceKind::Sampler) == live(*old(factory), ResourceKind::Sampler) + 1
                &&& live(*final(factory), ResourceKind::PipelineLayout)
                    == live(*old(factory), ResourceKind::PipelineLayout) + 1
                &&& live(*final(factory), ResourceKind::Pipeline) == live(*old(factory), ResourceKind::Pipeline) + 1
                &&& live(*final(factory), ResourceKind::ShaderModule) == live(*old(factory), ResourceKind::ShaderModule)
                &&& live(*final(factory), ResourceKind::Image) == live(*old(factory), ResourceKind::Image)
                &&& final(factory).fuel == old(factory).fuel - 12
                &&& final(factory).destroy_log@ == old(factory).destroy_log@
                    + seq![ResourceKind::ShaderModule, ResourceKind::ShaderModule]
            },
            r is Err ==> lives_unchanged(*old(factory), *final(factory)),
    {
        let ghost b0 = factory.created;
        let env_layout = match factory.create(ResourceKind::DescriptorLayout) {
            Ok(id) => id,
            Err(e) => {
                return Err(e);
            },
        };
        assert(lives_shifted(*old(factory), *factory, 1, 0, 0, 0, 0, 0, 0, 0, 0));
        proof {
            lemma_with_count(b0, ResourceKind::DescriptorLayout,
                (count_of(b0, ResourceKind::DescriptorLayout) + 1) as u64);
        }
        let ghost b1 = factory.created;
        let env_buffer = match factory.create(ResourceKind::Buffer) {
            Ok(id) => id,
            Err(e) => {
                factory.destroy(ResourceKind::DescriptorLayout);
                assert(lives_shifted(*old(factory), *factory, 0, 0, 0, 0, 0, 0, 0, 0, 0));
                proof { lemma_zero_shift_unchanged(*old(factory), *factory); }
                return Err(e);
            },
        };
        assert(lives_shifted(*old(factory), *factory, 1, 0, 1, 0, 0, 0, 0, 0, 0));
        proof {
            lemma_with_count(b1, ResourceKind::Buffer,
                (count_of(b1, ResourceKind::Buffer) + 1) as u64);
        }
        let ghost b2 = factory.created;
        let env_set = match factory.create(ResourceKind::DescriptorSet) {
            Ok(id) => id,
            Err(e) => {
                factory.destroy(ResourceKind::Buffer);
                assert(lives_shifted(*old(factory), *factory, 1, 0, 0, 0, 0, 0, 0, 0, 0));
                factory.destroy(ResourceKind::DescriptorLayout);
                assert(lives_shifted(*old(factory), *factory, 0, 0, 0, 0, 0, 0, 0, 0, 0));
                proof { lemma_zero_shift_unchanged(*old(factory), *factory); }
                return Err(e);
            },
        };
        assert(lives_shifted(*old(factory), *factory, 1, 1, 1, 0, 0, 0, 0, 0, 0));
        proof {
            lemma_with_count(b2, ResourceKind::DescriptorSet,
                (count_of(b2, ResourceKind::DescriptorSet) + 1) as u64);
        }
        let ghost b3 = factory.created;
        let view = match factory.create(ResourceKind::ImageView) {
            Ok(id) => id,
            Err(e) => {
                factory.destroy(ResourceKind::DescriptorSet);
                assert(lives_shifted(*old(factory), *factory, 1, 0, 1, 0, 0, 0, 0, 0, 0));
                factory.destroy(ResourceKind::Buffer);
                assert(lives_shifted(*old(factory), *factory, 1, 0, 0, 0, 0, 0, 0, 0, 0));
                factory.destroy(ResourceKind::DescriptorLayout);
                assert(lives_shifted(*old(factory), *factory, 0, 0, 0, 0, 0, 0, 0, 0, 0));
                proof { lemma_zero_shift_unchanged(*old(factory), *factory); }
                return Err(e);
            },
        };
        assert(lives_shifted(*old(factory), *factory, 1, 1, 1, 1, 0, 0, 0, 0, 0));
        proof {
            lemma_with_count(b3, ResourceKind::ImageView,
                (count_of(b3, ResourceKind::ImageView) + 1) as u64);
        }
        let ghost b4 = factory.created;
        let sampler = match factory.create(ResourceKind::Sampler) {
            Ok(id) => id,
            Err(e) => {
                factory.destroy(ResourceKind::ImageView);
                assert(lives_shifted(*old(factory), *factory, 1, 1, 1, 0, 0, 0, 0, 0, 0));
                factory.destroy(ResourceKind::DescriptorSet);
                assert(lives_shifted(*old(factory), *factory, 1, 0, 1, 0, 0, 0, 0, 0, 0));
                factory.destroy(ResourceKind::Buffer);
                assert(lives_shifted(*old(factory), *factory, 1, 0, 0, 0, 0, 0, 0, 0, 0));
                factory.destroy(ResourceKind::DescriptorLayout);
                assert(lives_shifted(*old(factory), *factory, 0, 0, 0, 0, 0, 0, 0, 0, 0));
                proof { lemma_zero_shift_unchanged(*old(factory), *factory); }
                return Err(e);
            },
        };
        assert(lives_shifted(*old(factory), *factory, 1, 1, 1, 1, 1, 0, 0, 0, 0));
        proof {
            lemma_with_count(b4, ResourceKind::Sampler,
                (count_of(b4, ResourceKind::Sampler) + 1) as u64);
        }
        let ghost b5 = factory.created;
        let texture_layout = match factory.create(ResourceKind::DescriptorLayout) {
            Ok(id) => id,
            Err(e) => {
                factory.destroy(ResourceKind::Sampler);
                assert(lives_shifted(*old(factory), *factory, 1, 1, 1, 1, 0, 0, 0, 0, 0));
                factory.destroy(ResourceKind::ImageView);
                assert(lives_shifted(*old(factory), *factory, 1, 1, 1, 0, 0, 0, 0, 0, 0));
                factory.destroy(ResourceKind::DescriptorSet);
                assert(lives_shifted(*old(factory), *factory, 1, 0, 1, 0, 0, 0, 0, 0, 0));
                factory.destroy(ResourceKind::Buffer);
                assert(lives_shifted(*old(factory), *factory, 1, 0, 0, 0, 0, 0, 0, 0, 0));
                factory.destroy(ResourceKind::DescriptorLayout);
                assert(lives_shifted(*old(factory), *factory, 0, 0, 0, 0, 0, 0, 0, 0, 0));
                proof { lemma_zero_shift_unchanged(*old(factory), *factory); }
                return Err(e);
            },
        };
        assert(lives_shifted(*old(factory), *factory, 2, 1, 1, 1, 1, 0, 0, 0, 0));
        proof {
            lemma_with_count(b5, ResourceKind::DescriptorLayout,
                (count_of(b5, ResourceKind::DescriptorLayout) + 1) as u64);
        }
        let ghost b6 = factory.created;
        let texture_set = match factory.create(ResourceKind::DescriptorSet) {
            Ok(id) => id,
            Err(e) => {
                factory.destroy(ResourceKind::DescriptorLayout);
                assert(lives_shifted(*old(factory), *factory, 1, 1, 1, 1, 1, 0, 0, 0, 0));
                factory.destroy(ResourceKind::Sampler);
                assert(lives_shifted(*old(factory), *factory, 1, 1, 1, 1, 0, 0, 0, 0, 0));
                factory.destroy(ResourceKind::ImageView);
                assert(lives_shifted(*old(factory), *factory, 1, 1, 1, 0, 0, 0, 0, 0, 0));
                factory.destroy(ResourceKind::DescriptorSet);
                assert(lives_shifted(*old(factory), *factory, 1, 0, 1, 0, 0, 0, 0, 0, 0));
                factory.destroy(ResourceKind::Buffer);
                assert(lives_shifted(*old(factory), *factory, 1, 0, 0, 0, 0, 0, 0, 0, 0));
                factory.destroy(ResourceKind::DescriptorLayout);
                assert(lives_shifted(*old(factory), *factory, 0, 0, 0, 0, 0, 0, 0, 0, 0));
                proof { lemma_zero_shift_unchanged(*old(factory), *factory); }
                return Err(e);
            },
        };
        assert(lives_shifted(*old(factory), *factory, 2, 2, 1, 1, 1, 0, 0, 0, 0));
        proof {
            lemma_with_count(b6, ResourceKind::DescriptorSet,
                (count_of(b6, ResourceKind::DescriptorSet) + 1) as u64);
        }
        let (pipeline, pipeline_layout) = match build_custom_pipeline(
            factory,
            subpass,
            fb_width,
            fb_height,
            env_layout,
            texture_layout,
        ) {
            Ok(p) => p,
            Err(e) => {
                assert(lives_shifted(*old(factory), *factory, 2, 2, 1, 1, 1, 0, 0, 0, 0));
                factory.destroy(ResourceKind::DescriptorSet);
                assert(lives_shifted(*old(factory), *factory, 2, 1, 1, 1, 1, 0, 0, 0, 0));
                factory.destroy(ResourceKind::DescriptorLayout);
                assert(lives_shifted(*old(factory), *factory, 1, 1, 1, 1, 1, 0, 0, 0, 0));
                factory.destroy(ResourceKind::Sampler);
                assert(lives_shifted(*old(factory), *factory, 1, 1, 1, 1, 0, 0, 0, 0, 0));
                factory.destroy(ResourceKind::ImageView);
                assert(lives_shifted(*old(factory), *factory, 1, 1, 1, 0, 0, 0, 0, 0, 0));
                factory.destroy(ResourceKind::DescriptorSet);
                assert(lives_shifted(*old(factory), *factory, 1, 0, 1, 0, 0, 0, 0, 0, 0));
                factory.destroy(ResourceKind::Buffer);
                assert(lives_shifted(*old(factory), *factory, 1, 0, 0, 0, 0, 0, 0, 0, 0));
                factory.destroy(ResourceKind::DescriptorLayout);
                assert(lives_shifted(*old(factory), *factory, 0, 0, 0, 0, 0, 0, 0, 0, 0));
                proof { lemma_zero_shift_unchanged(*old(factory), *factory); }
                return Err(e);
            },
        };
        assert(lives_shifted(*old(factory), *factory, 2, 2, 1, 1, 1, 0, 1, 1, 0));
        let ghost b7 = factory.created;
        let vertex_buffer = match factory.create(ResourceKind::Buffer) {
            Ok(id) => id,
            Err(e) => {
                factory.destroy(ResourceKind::Pipeline);
                assert(lives_shifted(*old(factory), *factory, 2, 2, 1, 1, 1, 0, 1, 0, 0));
                factory.destroy(ResourceKind::PipelineLayout);
                assert(lives_shifted(*old(factory), *factory, 2, 2, 1, 1, 1, 0, 0, 0, 0));
                factory.destroy(ResourceKind::DescriptorSet);
                assert(lives_shifted(*old(factory), *factory, 2, 1, 1, 1, 1, 0, 0, 0, 0));
                factory.destroy(ResourceKind::DescriptorLayout);
                assert(lives_shifted(*old(factory), *factory, 1, 1, 1, 1, 1, 0, 0, 0, 0));
                factory.destroy(ResourceKind::Sampler);
                assert(lives_shifted(*old(factory), *factory, 1, 1, 1, 1, 0, 0, 0, 0, 0));
                factory.destroy(ResourceKind::ImageView);
                assert(lives_shifted(*old(factory), *factory, 1, 1, 1, 0, 0, 0, 0, 0, 0));
                factory.destroy(ResourceKind::DescriptorSet);
                assert(lives_shifted(*old(factory), *factory, 1, 0, 1, 0, 0, 0, 0, 0, 0));
                factory.destroy(ResourceKind::Buffer);
                assert(lives_shifted(*old(factory), *factory, 1, 0, 0, 0, 0, 0, 0, 0, 0));
                factory.destroy(ResourceKind::DescriptorLayout);
                assert(lives_shifted(*old(factory), *factory, 0, 0, 0, 0, 0, 0, 0, 0, 0));
                proof { lemma_zero_shift_unchanged(*old(factory), *factory); }
                return Err(e);
            },
        };
        assert(lives_shifted(*old(factory), *factory, 2, 2, 2, 1, 1, 0, 1, 1, 0));
        proof {
            lemma_with_count(b7, ResourceKind::Buffer,
                (count_of(b7, ResourceKind::Buffer) + 1) as u64);
        }

        proof {
            assert(factory.destroy_log@ =~= old(factory).destroy_log@
                + seq![ResourceKind::ShaderModule, ResourceKind::ShaderModule]);
        }

        let quad = quad_vertex_list();
        let vertex_data = encode_vertex_buffer(&quad);

        let mut uniform_slices: Vec<FXAAUniformArgs> = Vec::new();
        let mut i: usize = 0;
        while i < frames_in_flight
            invariant
                i <= frames_in_flight,
                uniform_slices@.len() == i,
                forall|j: int| 0 <= j < i ==> uniform_slices@[j] == zero_uniform(),
            decreases frames_in_flight - i,
        {
            uniform_slices.push(FXAAUniformArgs { screen_width: 0, screen_height: 0 });
            i = i + 1;
        }

        Ok(DrawFXAA {
            pipeline,
            pipeline_layout,
            env_layout,
            env_buffer,
            env_set,
            uniform_slices,
            view,
            sampler,
            sampler_desc: SamplerDesc {
                min_filter: Filter::Linear,
                mag_filter: Filter::Linear,
                mip_filter: Filter::Linear,
                wrap_u: WrapMode::Clamp,
                wrap_v: WrapMode::Clamp,
                wrap_w: WrapMode::Clamp,
                anisotropic: false,
                comparison: false,
            },
            texture_layout,
            texture_set,
            texture_binding: DescriptorBinding { binding: 0, view, sampler },
            vertex_buffer,
            vertex_data,
            input_image,
            enabled: true,
            disposed: false,
        })
    }
}

impl DrawFXAA {
    /// Write this frame's viewport dimensions into the uniform slice for
    /// `index` and note the toggle.  Slices for other frames in flight are
    /// untouched, and no GPU object changes.
    pub fn prepare(
        &mut self,
        index: usize,
        dimensions: ScreenDims,
        settings: &FxaaSettings,
    ) -> (r: PrepareResult)
        requires
            !old(self).disposed,
            index < old(self).uniform_slices@.len(),
        ensures
            same_gpu_objects(*old(self), *final(self)),
            !final(self).disposed,
            final(self).uniform_slices@
                == old(self).uniform_slices@.update(index as int, uniform_args(dimensions)),
            final(self).enabled == settings.enabled,
            r is DrawRecord,
    {
        self.uniform_slices.set(index, FXAAUniformArgs {
            screen_width: dimensions.width,
            screen_height: dimensions.height,
        });
        self.enabled = settings.enabled;
        PrepareResult::DrawRecord
    }

    /// Encode the pass's commands for frame `index` into the encoder.
    /// Pure command encoding: ordering against the pass that writes the
    /// input image is the graph's dependency edge's business, not ours.
    /// Valid from the moment the group is built — a slice never prepared
    /// still holds the zeroed default from build time.
    pub fn draw_inline(&self, encoder: &mut Vec<RenderCommand>, index: usize)
        requires
            !self.disposed,
            index < self.uniform_slices@.len(),
        ensures
            final(encoder)@ == old(encoder)@ + draw_commands(*self, index),
    {
        encoder.push(RenderCommand::BindGraphicsPipeline { pipeline: self.pipeline.id });
        encoder.push(RenderCommand::BindUniformSlice {
            set: 0,
            descriptor_set: self.env_set,
            slice: index,
        });
        encoder.push(RenderCommand::BindDescriptorSet { set: 1, descriptor_set: self.texture_set });
        encoder.push(RenderCommand::BindVertexBuffer { buffer: self.vertex_buffer, offset: 0 });
        encoder.push(RenderCommand::Draw {
            first_vertex: 0,
            vertex_count: 6,
            first_instance: 0,
            instance_count: 1,
        });
        assert(encoder@ =~= old(encoder)@ + draw_commands(*self, index));
    }

    /// Destroy the pipeline, then its layout, in that order.  Disposing an
    /// already disposed group is a documented no-op: nothing is destroyed
    /// a second time.
    pub fn dispose(&mut self, factory: &mut Factory)
        requires
            old(factory).wf(),
            !old(self).disposed ==> live(*old(factory), ResourceKind::Pipeline) > 0,
            !old(self).disposed ==> live(*old(factory), ResourceKind::PipelineLayout) > 0,
        ensures
            final(factory).wf(),
            same_gpu_objects(*old(self), *final(self)),
            final(self).uniform_slices@ == old(self).uniform_slices@,
            final(self).enabled == old(self).enabled,
            final(self).disposed,
            old(self).disposed ==> *final(factory) == *old(factory),
            !old(self).disposed ==> {
                &&& live(*final(factory), ResourceKind::Pipeline) == live(*old(factory), ResourceKind::Pipeline) - 1
                &&& live(*final(factory), ResourceKind::PipelineLayout)
                    == live(*old(factory), ResourceKind::PipelineLayout) - 1
                &&& forall|j: ResourceKind|
                    j != ResourceKind::Pipeline && j != ResourceKind::PipelineLayout
                        ==> #[trigger] live(*final(factory), j) == live(*old(factory), j)
                &&& final(factory).created == old(factory).created
                &&& final(factory).fuel == old(factory).fuel
                &&& final(factory).destroy_log@ == old(factory).destroy_log@
                    .push(ResourceKind::Pipeline).push(ResourceKind::PipelineLayout)
            },
    {
        if self.disposed {
            return;
        }
        factory.destroy(ResourceKind::Pipeline);
        factory.destroy(ResourceKind::PipelineLayout);
        self.disposed = true;
    }

    /// Release the remaining owned resources when the group goes out of
    /// scope: the vertex buffer, the texture set and layout, the sampler,
    /// the view, and the uniform store.  Requires that `dispose` has run,
    /// so the pipeline is gone before anything it referenced.
    pub fn release(self, factory: &mut Factory)
        requires
            old(factory).wf(),
            self.disposed,
            live(*old(factory), ResourceKind::Buffer) >= 2,
            live(*old(factory), ResourceKind::DescriptorSet) >= 2,
            live(*old(factory), ResourceKind::DescriptorLayout) >= 2,
            live(*old(factory), ResourceKind::Sampler) >= 1,
            live(*old(factory), ResourceKind::ImageView) >= 1,
        ensures
            final(factory).wf(),
            live(*final(factory), ResourceKind::Buffer) == live(*old(factory), ResourceKind::Buffer) - 2,
            live(*final(factory), ResourceKind::DescriptorSet) == live(*old(factory), ResourceKind::DescriptorSet) - 2,
            live(*final(factory), ResourceKind::DescriptorLayout)
                == live(*old(factory), ResourceKind::DescriptorLayout) - 2,
            live(*final(factory), ResourceKind::Sampler) == live(*old(factory), ResourceKind::Sampler) - 1,
            live(*final(factory), ResourceKind::ImageView) == live(*old(factory), ResourceKind::ImageView) - 1,
            forall|j: ResourceKind|
                j != ResourceKind::Buffer && j != ResourceKind::DescriptorSet
                    && j != ResourceKind::DescriptorLayout && j != ResourceKind::Sampler
                    && j != ResourceKind::ImageView
                    ==> #[trigger] live(*final(factory), j) == live(*old(factory), j),
            final(factory).created == old(factory).created,
            final(factory).fuel == old(factory).fuel,
            final(factory).destroy_log@ == old(factory).destroy_log@
                + seq![
                    ResourceKind::Buffer,
                    ResourceKind::DescriptorSet,
                    ResourceKind::DescriptorLayout,
                    ResourceKind::Sampler,
                    ResourceKind::ImageView,
                    ResourceKind::DescriptorSet,
                    ResourceKind::Buffer,
                    ResourceKind::DescriptorLayout,
                ],
    {
        factory.destroy(ResourceKind::Buffer);
        factory.destroy(ResourceKind::DescriptorSet);
        factory.destroy(ResourceKind::DescriptorLayout);
        factory.destroy(ResourceKind::Sampler);
        factory.destroy(ResourceKind::ImageView);
        factory.destroy(ResourceKind::DescriptorSet);
        factory.destroy(ResourceKind::Buffer);
        factory.destroy(ResourceKind::DescriptorLayout);
        proof {
            assert(factory.destroy_log@ =~= old(factory).destroy_log@
                + seq![
                    ResourceKind::Buffer,
                    ResourceKind::DescriptorSet,
                    ResourceKind::DescriptorLayout,
                    ResourceKind::Sampler,
                    ResourceKind::ImageView,
                    ResourceKind::DescriptorSet,
                    ResourceKind::Buffer,
                    ResourceKind::DescriptorLayout,
                ]);
        }
    }

    /// Read back the uniform slice for frame `index`.
    pub fn uniform_slice(&self, index: usize) -> (u: FXAAUniformArgs)
        requires
            index < self.uniform_slices@.len(),
        ensures
            u == self.uniform_slices@[index as int],
    {
        self.uniform_slices[index]
    }

    /// How many frames in flight the uniform store covers.
    pub fn frames_in_flight(&self) -> (n: usize)
        ensures
            n == self.uniform_slices@.len(),
    {
        self.uniform_slices.len()
    }
}

} // verus!
