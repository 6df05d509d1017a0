//! The render-graph builder.
//!
//! The graph is a DAG of pass nodes over image resources: a pass depends on
//! an earlier pass when it reads an image that pass writes.  Dependencies
//! always point backwards, so the graph is acyclic by construction, and a
//! pass may not be added unless every image it reads is written by one of
//! its dependencies — and never by the pass itself.  `RenderGraph` wraps
//! the debounced rebuild decision around one fixed three-stage graph:
//! shaded geometry into an HDR image, the post-process pass into the final
//! color image, and a present pass reading that image.

use vstd::prelude::*;

use crate::dims::ScreenDims;
use crate::resources::Format;
use crate::resources::ImageAccess;
use crate::resources::ImageInfo;
use crate::resources::clear_black;
use crate::resources::clear_far_depth;
use crate::resources::present_access;
use crate::resources::sampled_fragment_access;
use crate::tracker::DimTracker;
use crate::tracker::mark_built_next;
use crate::tracker::observe_next;
use crate::tracker::rebuild_decision;

verus! {

/// The stage a pass node performs.
#[derive(Clone, Copy, Debug, PartialEq, Eq, Structural)]
pub enum PassKind {
    Geometry,
    PostProcess,
    Present,
}

/// One image a pass reads, with the access it needs.
#[derive(Clone, Copy, Debug, PartialEq, Eq, Structural)]
pub struct ImageInput {
    pub image: usize,
    pub access: ImageAccess,
}

/// One node of the render graph: the images it reads, the color and depth
/// images it writes, and the earlier passes it depends on.
#[derive(Debug)]
pub struct PassNode {
    pub kind: PassKind,
    pub inputs: Vec<ImageInput>,
    pub colors: Vec<usize>,
    pub depth: Option<usize>,
    pub deps: Vec<usize>,
}

/// Whether pass `p` writes image `img`, as a color or depth target.
pub open spec fn pass_writes(p: PassNode, img: usize) -> bool {
    p.colors@.contains(img) || p.depth == Some(img)
}

/// Well-formedness of the node at position `i`: every image id in bounds,
/// every dependency pointing strictly backwards, every input written by
/// one of the node's dependencies, and no input written by the node itself.
pub open spec fn node_wf(images: Seq<ImageInfo>, passes: Seq<PassNode>, i: int) -> bool {
    let p = passes[i];
    &&& forall|j: int| 0 <= j < p.inputs@.len() ==> (#[trigger] p.inputs@[j]).image < images.len()
    &&& forall|j: int| 0 <= j < p.colors@.len() ==> (#[trigger] p.colors@[j]) < images.len()
    &&& (p.depth matches Some(d) ==> d < images.len())
    &&& forall|j: int| 0 <= j < p.deps@.len() ==> (#[trigger] p.deps@[j]) < i
    &&& forall|j: int| 0 <= j < p.inputs@.len()
        ==> exists|d: int|
            0 <= d < p.deps@.len() && pass_writes(
                passes[p.deps@[d] as int],
                (#[trigger] p.inputs@[j]).image,
            )
    &&& forall|j: int| 0 <= j < p.inputs@.len() ==> !pass_writes(p, (#[trigger] p.inputs@[j]).image)
}

/// A graph under construction: the images and passes added so far.
#[derive(Debug)]
pub struct GraphBuilder {
    pub images: Vec<ImageInfo>,
    pub passes: Vec<PassNode>,
}

/// Every node of the graph is well-formed; dependencies point backwards,
/// so the graph is acyclic.
pub open spec fn graph_wf(g: GraphBuilder) -> bool {
    forall|i: int| 0 <= i < g.passes@.len() ==> #[trigger] node_wf(g.images@, g.passes@, i)
}

impl GraphBuilder {
    /// An empty graph.
    pub fn new() -> (g: GraphBuilder)
        ensures
            g.images@ == Seq::<ImageInfo>::empty(),
            g.passes@ == Seq::<PassNode>::empty(),
            graph_wf(g),
    {
        GraphBuilder { images: Vec::new(), passes: Vec::new() }
    }

    /// Declare one image resource; its id is its position.
    pub fn create_image(&mut self, info: ImageInfo) -> (id: usize)
        requires
            graph_wf(*old(self)),
        ensures
            id == old(self).images@.len(),
            final(self).images@ == old(self).images@.push(info),
            final(self).passes@ == old(self).passes@,
            graph_wf(*final(self)),
    {
        let id = self.images.len();
        self.images.push(info);
        proof {
            assert forall|i: int| 0 <= i < self.passes@.len()
                implies #[trigger] node_wf(self.images@, self.passes@, i) by {
                assert(node_wf(old(self).images@, old(self).passes@, i));
            }
        }
        id
    }

    /// Add one pass node; its id is its position.  The node must be
    /// well-formed at that position — in particular, every image it reads
    /// must be written by one of its declared dependencies.  This is a
    /// contract on the caller, not a runtime check.
    pub fn add_node(&mut self, p: PassNode) -> (id: usize)
        requires
            graph_wf(*old(self)),
            node_wf(old(self).images@, old(self).passes@.push(p), old(self).passes@.len() as int),
        ensures
            id == old(self).passes@.len(),
            final(self).images@ == old(self).images@,
            final(self).passes@ == old(self).passes@.push(p),
            graph_wf(*final(self)),
    {
        let id = self.passes.len();
        self.passes.push(p);
        proof {
            assert forall|i: int| 0 <= i < self.passes@.len()
                implies #[trigger] node_wf(self.images@, self.passes@, i) by {
                if i < self.passes@.len() - 1 {
                    assert(node_wf(old(self).images@, old(self).passes@, i));
                    lemma_node_wf_push(old(self).images@, old(self).passes@, p, i);
                }
            }
        }
        id
    }

    /// How many images the graph declares.
    pub fn image_count(&self) -> (n: usize)
        ensures
            n == self.images@.len(),
    {
        self.images.len()
    }

    /// How many passes the graph holds.
    pub fn pass_count(&self) -> (n: usize)
        ensures
            n == self.passes@.len(),
    {
        self.passes.len()
    }

    /// Read back the image at `id`.
    pub fn image_at(&self, id: usize) -> (info: ImageInfo)
        requires
            id < self.images@.len(),
        ensures
            info == self.images@[id as int],
    {
        self.images[id]
    }
}

/// A node that was well-formed at position `i` stays well-formed when a
/// new pass is appended behind it: all its dependencies point backwards.
proof fn lemma_node_wf_push(images: Seq<ImageInfo>, passes: Seq<PassNode>, p: PassNode, i: int)
    requires
        0 <= i < passes.len(),
        node_wf(images, passes, i),
    ensures
        node_wf(images, passes.push(p), i),
{
    let q = passes[i];
    assert(passes.push(p)[i] == q);
    assert forall|j: int| 0 <= j < q.inputs@.len()
        implies exists|d: int|
            0 <= d < q.deps@.len() && pass_writes(
                passes.push(p)[q.deps@[d] as int],
                (#[trigger] q.inputs@[j]).image,
            ) by {
        let d0 = choose|d: int|
            0 <= d < q.deps@.len() && pass_writes(passes[q.deps@[d] as int], q.inputs@[j].image);
        assert(passes.push(p)[q.deps@[d0] as int] == passes[q.deps@[d0] as int]);
        assert(pass_writes(passes.push(p)[q.deps@[d0] as int], q.inputs@[j].image));
    }
}

/// The HDR intermediate the geometry pass renders into.
pub open spec fn hdr_image(d: ScreenDims) -> ImageInfo {
    ImageInfo {
        width: d.width,
        height: d.height,
        levels: 1,
        format: Format::Rgba8Unorm,
        clear: Some(clear_black()),
    }
}

/// The final color image, in the surface's own format.
pub open spec fn color_image(d: ScreenDims, surface_format: Format) -> ImageInfo {
    ImageInfo {
        width: d.width,
        height: d.height,
        levels: 1,
        format: surface_format,
        clear: Some(clear_black()),
    }
}

/// The depth buffer of the geometry pass.
pub open spec fn depth_image(d: ScreenDims) -> ImageInfo {
    ImageInfo {
        width: d.width,
        height: d.height,
        levels: 1,
        format: Format::D32Sfloat,
        clear: Some(clear_far_depth()),
    }
}

/// The geometry pass: writes HDR color (image 0) and depth (image 2).
pub open spec fn is_main_pass(p: PassNode) -> bool {
    &&& p.kind == PassKind::Geometry
    &&& p.inputs@ == Seq::<ImageInput>::empty()
    &&& p.colors@ == seq![0usize]
    &&& p.depth == Some(2usize)
    &&& p.deps@ == Seq::<usize>::empty()
}

/// The post-process pass: samples HDR color (image 0), writes the final
/// color image (image 1), and depends on the geometry pass.
pub open spec fn is_fxaa_pass(p: PassNode) -> bool {
    &&& p.kind == PassKind::PostProcess
    &&& p.inputs@ == seq![ImageInput { image: 0usize, access: sampled_fragment_access() }]
    &&& p.colors@ == seq![1usize]
    &&& p.depth is None
    &&& p.deps@ == seq![0usize]
}

/// The present pass: reads the final color image (image 1) and depends on
/// the post-process pass.
pub open spec fn is_present_pass(p: PassNode) -> bool {
    &&& p.kind == PassKind::Present
    &&& p.inputs@ == seq![ImageInput { image: 1usize, access: present_access() }]
    &&& p.colors@ == Seq::<usize>::empty()
    &&& p.depth is None
    &&& p.deps@ == seq![1usize]
}

/// The complete three-stage graph for dimensions `d`: HDR, final color and
/// depth images all sized `d`, and the passes geometry, post-process,
/// present, in dependency order.
pub open spec fn is_fxaa_graph(g: GraphBuilder, d: ScreenDims, surface_format: Format) -> bool {
    &&& g.images@.len() == 3
    &&& g.images@[0] == hdr_image(d)
    &&& g.images@[1] == color_image(d, surface_format)
    &&& g.images@[2] == depth_image(d)
    &&& g.passes@.len() == 3
    &&& is_main_pass(g.passes@[0])
    &&& is_fxaa_pass(g.passes@[1])
    &&& is_present_pass(g.passes@[2])
}

/// The graph creator the host polls once per frame: the debounced rebuild
/// decision plus the builder for the fixed three-stage graph.
#[derive(Clone, Copy, Debug, PartialEq, Eq, Structural)]
pub struct RenderGraph {
    pub tracker: DimTracker,
}

impl RenderGraph {
    /// A creator that has built nothing and seen no reading yet.
    pub fn new() -> (g: RenderGraph)
        ensures
            g.tracker.built is None,
            g.tracker.observed is None,
    {
        RenderGraph { tracker: DimTracker::new() }
    }

    /// Should the graph be rebuilt for this frame's dimension reading?
    /// True only when the reading repeats last frame's and still differs
    /// from what the current graph was built for.
    pub fn rebuild(&mut self, new_dimensions: Option<ScreenDims>) -> (r: bool)
        ensures
            final(self).tracker == observe_next(old(self).tracker, new_dimensions),
            r == rebuild_decision(old(self).tracker, new_dimensions),
    {
        self.tracker.observe(new_dimensions)
    }

    /// Build the graph for the observed dimensions: three images sized to
    /// them and the three passes wired in dependency order.  Recording the
    /// build also settles the rebuild check: the same reading asks for no
    /// further rebuild.
    pub fn builder(&mut self, surface_format: Format) -> (g: GraphBuilder)
        requires
            old(self).tracker.observed is Some,
        ensures
            final(self).tracker == mark_built_next(old(self).tracker),
            is_fxaa_graph(g, old(self).tracker.observed->0, surface_format),
            graph_wf(g),
    {
        self.tracker.mark_built();
        let dimensions = match self.tracker.observed {
            Some(d) => d,
            None => ScreenDims { width: 0, height: 0 },
        };

        let mut graph_builder = GraphBuilder::new();

        let hdr = graph_builder.create_image(ImageInfo {
            width: dimensions.width,
            height: dimensions.height,
            levels: 1,
            format: Format::Rgba8Unorm,
            clear: Some(crate::resources::ClearValue::Color {
                r_bits: crate::quad::F32_ZERO_BITS,
                g_bits: crate::quad::F32_ZERO_BITS,
                b_bits: crate::quad::F32_ZERO_BITS,
                a_bits: crate::quad::F32_ONE_BITS,
            }),
        });
        let color = graph_builder.create_image(ImageInfo {
            width: dimensions.width,
            height: dimensions.height,
            levels: 1,
            format: surface_format,
            clear: Some(crate::resources::ClearValue::Color {
                r_bits: crate::quad::F32_ZERO_BITS,
                g_bits: crate::quad::F32_ZERO_BITS,
                b_bits: crate::quad::F32_ZERO_BITS,
                a_bits: crate::quad::F32_ONE_BITS,
            }),
        });
        let depth = graph_builder.create_image(ImageInfo {
            width: dimensions.width,
            height: dimensions.height,
            levels: 1,
            format: Format::D32Sfloat,
            clear: Some(crate::resources::ClearValue::DepthStencil {
                depth_bits: crate::quad::F32_ONE_BITS,
                stencil: 0,
            }),
        });

        let main_colors: Vec<usize> = vec![hdr];
        let main_pass_node = PassNode {
            kind: PassKind::Geometry,
            inputs: Vec::new(),
            colors: main_colors,
            depth: Some(depth),
            deps: Vec::new(),
        };
        proof {
            let passes1 = graph_builder.passes@.push(main_pass_node);
            assert(node_wf(graph_builder.images@, passes1, 0));
        }
        let main_pass = graph_builder.add_node(main_pass_node);

        let fxaa_inputs: Vec<ImageInput> = vec![
            ImageInput {
                image: hdr,
                access: ImageAccess {
                    access: crate::resources::AccessType::ShaderRead,
                    usage: crate::resources::UsageType::Sampled,
                    layout: crate::resources::LayoutType::ShaderReadOnlyOptimal,
                    stages: crate::resources::StageFlag::FragmentShader,
                },
            },
        ];
        let fxaa_colors: Vec<usize> = vec![color];
        let fxaa_deps: Vec<usize> = vec![main_pass];
        let fxaa_pass_node = PassNode {
            kind: PassKind::PostProcess,
            inputs: fxaa_inputs,
            colors: fxaa_colors,
            depth: None,
            deps: fxaa_deps,
        };
        proof {
            let passes2 = graph_builder.passes@.push(fxaa_pass_node);
            assert(passes2[fxaa_pass_node.deps@[0] as int] == graph_builder.passes@[0]);
            assert(pass_writes(passes2[0], 0usize)) by {
                assert(graph_builder.passes@[0].colors@[0] == 0usize);
            }
            assert(node_wf(graph_builder.images@, passes2, 1));
        }
        let fxaa_pass = graph_builder.add_node(fxaa_pass_node);

        let present_inputs: Vec<ImageInput> = vec![
            ImageInput {
                image: color,
                access: ImageAccess {
                    access: crate::resources::AccessType::TransferRead,
                    usage: crate::resources::UsageType::TransferSrc,
                    layout: crate::resources::LayoutType::Present,
                    stages: crate::resources::StageFlag::BottomOfPipe,
                },
            },
        ];
        let present_deps: Vec<usize> = vec![fxaa_pass];
        let present_pass_node = PassNode {
            kind: PassKind::Present,
            inputs: present_inputs,
            colors: Vec::new(),
            depth: None,
            deps: present_deps,
        };
        proof {
            let passes3 = graph_builder.passes@.push(present_pass_node);
            assert(passes3[present_pass_node.deps@[0] as int] == graph_builder.passes@[1]);
            assert(pass_writes(passes3[1], 1usize)) by {
                assert(graph_builder.passes@[1].colors@[0] == 1usize);
            }
            assert(node_wf(graph_builder.images@, passes3, 2));
        }
        let _present = graph_builder.add_node(present_pass_node);

        proof {
            let ps = graph_builder.passes@;
            assert(ps[0].colors@ =~= seq![0usize]);
            assert(ps[0].inputs@ =~= Seq::<ImageInput>::empty());
            assert(ps[0].deps@ =~= Seq::<usize>::empty());
            assert(ps[1].inputs@ =~= seq![
                ImageInput { image: 0usize, access: sampled_fragment_access() },
            ]);
            assert(ps[1].colors@ =~= seq![1usize]);
            assert(ps[1].deps@ =~= seq![0usize]);
            assert(ps[2].inputs@ =~= seq![
                ImageInput { image: 1usize, access: present_access() },
            ]);
            assert(ps[2].colors@ =~= Seq::<usize>::empty());
            assert(ps[2].deps@ =~= seq![1usize]);
        }
        graph_builder
    }
}

} // verus!
