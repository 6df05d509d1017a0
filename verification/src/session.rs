//! The per-frame orchestration, as an explicit state machine.
//!
//! A session owns the graph creator, the factory, and at most one built
//! render group, and is polled once per frame: observe the dimension
//! reading, rebuild when the debounced decision says so, then prepare and
//! record the post-process pass.  A rebuild first builds the new group;
//! only once that has succeeded is the old one torn down, pipeline first,
//! so a failed attempt leaves the previous graph and group intact and in
//! use, and no partial state is ever installed.  The session's invariant
//! ties the factory's live counts to the installed group: exactly one
//! group's resources are alive while one is installed, none otherwise —
//! nothing leaks and nothing is freed twice.

use vstd::prelude::*;

use crate::dims::ScreenDims;
use crate::factory::Factory;
use crate::factory::ResourceKind;
use crate::factory::live;
use crate::factory::lives_exact;
use crate::fxaa::DrawFXAA;
use crate::fxaa::DrawFXAADesc;
use crate::fxaa::RenderCommand;
use crate::fxaa::draw_commands;
use crate::fxaa::is_built_group;
use crate::fxaa::same_gpu_objects;
use crate::fxaa::uniform_args;
use crate::fxaa::zero_uniform;
use crate::graph::GraphBuilder;
use crate::graph::RenderGraph;
use crate::graph::graph_wf;
use crate::graph::is_fxaa_graph;
use crate::resources::Format;
use crate::settings::FxaaSettings;
use crate::tracker::mark_built_next;
use crate::tracker::observe_next;
use crate::tracker::rebuild_decision;

verus! {

/// What one polled frame did.
pub struct FrameOutcome {
    /// The debounced decision asked for a rebuild this frame.
    pub rebuild_requested: bool,
    /// A new graph and group were actually installed.
    pub rebuilt: bool,
    /// The frame-in-flight index this frame used.
    pub frame_index: usize,
    /// The commands recorded for the post-process pass; empty while no
    /// group is built.
    pub commands: Vec<RenderCommand>,
}

/// The state polled once per frame by the host's loop.
pub struct RenderSession {
    /// The graph creator with its debounced rebuild decision.
    pub render_graph: RenderGraph,
    /// The factory every GPU object of this session comes from.
    pub factory: Factory,
    /// The graph currently in use, if one was built.
    pub graph: Option<GraphBuilder>,
    /// The render group currently in use, if one was built.
    pub group: Option<DrawFXAA>,
    /// The format of the window surface, fixed for the session.
    pub surface_format: Format,
    /// How many frames may be in flight; uniform slices cycle over these.
    pub frames_in_flight: usize,
    /// The frame-in-flight index the next frame will use.
    pub next_index: usize,
}

impl RenderSession {
    /// The session invariant: while a group is installed, exactly its
    /// resources are alive in the factory; while none is, none are.
    pub open spec fn wf(self) -> bool {
        &&& self.factory.wf()
        &&& self.frames_in_flight >= 1
        &&& self.next_index < self.frames_in_flight
        &&& match self.group {
            Some(g) => {
                &&& !g.disposed
                &&& g.uniform_slices@.len() == self.frames_in_flight
                &&& lives_exact(self.factory, 2, 2, 2, 1, 1, 0, 1, 1, 0)
            },
            None => lives_exact(self.factory, 0, 0, 0, 0, 0, 0, 0, 0, 0),
        }
    }

    /// A fresh session: nothing observed, nothing built, a factory that
    /// will grant `fuel` creations.
    pub fn new(fuel: u64, surface_format: Format, frames_in_flight: usize) -> (s: RenderSession)
        requires
            frames_in_flight >= 1,
        ensures
            s.wf(),
            s.group is None,
            s.graph is None,
            s.render_graph.tracker.built is None,
            s.render_graph.tracker.observed is None,
            s.factory.fuel == fuel,
            s.surface_format == surface_format,
            s.frames_in_flight == frames_in_flight,
            s.next_index == 0,
    {
        let factory = Factory::new(fuel);
        proof {
            assert(live(factory, ResourceKind::DescriptorLayout) == 0);
            assert(live(factory, ResourceKind::DescriptorSet) == 0);
            assert(live(factory, ResourceKind::Buffer) == 0);
            assert(live(factory, ResourceKind::ImageView) == 0);
            assert(live(factory, ResourceKind::Sampler) == 0);
            assert(live(factory, ResourceKind::ShaderModule) == 0);
            assert(live(factory, ResourceKind::PipelineLayout) == 0);
            assert(live(factory, ResourceKind::Pipeline) == 0);
            assert(live(factory, ResourceKind::Image) == 0);
        }
        RenderSession {
            render_graph: RenderGraph::new(),
            factory,
            graph: None,
            group: None,
            surface_format,
            frames_in_flight,
            next_index: 0,
        }
    }

    /// Run one frame: poll the rebuild decision on this frame's dimension
    /// reading, rebuild if it says so and a reading is present, then
    /// prepare and record the pass.
    ///
    /// A rebuild is attempted with the new group built first; on failure
    /// the previous graph and group stay in use.  Without a rebuild
    /// request, no GPU object is created or destroyed and the installed
    /// pipeline is exactly the one from before — toggling the effect
    /// between frames can therefore never rebuild the graph nor recreate
    /// the pipeline.
    pub fn frame(&mut self, dims: Option<ScreenDims>, settings: &FxaaSettings) -> (out: FrameOutcome)
        requires
            old(self).wf(),
        ensures
            final(self).wf(),
            final(self).surface_format == old(self).surface_format,
            final(self).frames_in_flight == old(self).frames_in_flight,
            out.rebuild_requested == rebuild_decision(old(self).render_graph.tracker, dims),
            final(self).render_graph.tracker == (if rebuild_decision(old(self).render_graph.tracker, dims)
                && dims is Some {
                mark_built_next(observe_next(old(self).render_graph.tracker, dims))
            } else {
                observe_next(old(self).render_graph.tracker, dims)
            }),
            out.rebuilt == (out.rebuild_requested && dims is Some && old(self).factory.fuel >= 12),
            out.rebuilt && old(self).group is Some ==> final(self).factory.destroy_log@
                == old(self).factory.destroy_log@
                + seq![
                    ResourceKind::ShaderModule,
                    ResourceKind::ShaderModule,
                    ResourceKind::Pipeline,
                    ResourceKind::PipelineLayout,
                    ResourceKind::Buffer,
                    ResourceKind::DescriptorSet,
                    ResourceKind::DescriptorLayout,
                    ResourceKind::Sampler,
                    ResourceKind::ImageView,
                    ResourceKind::DescriptorSet,
                    ResourceKind::Buffer,
                    ResourceKind::DescriptorLayout,
                ],
            out.rebuilt ==> {
                &&& final(self).group matches Some(g) && is_built_group(
                    g,
                    dims->0.width,
                    dims->0.height,
                    0,
                    old(self).frames_in_flight,
                    0,
                )
                &&& final(self).graph matches Some(gr) && is_fxaa_graph(gr, dims->0, old(self).surface_format)
                    && graph_wf(gr)
            },
            !out.rebuilt ==> {
                &&& (old(self).group matches Some(g0) ==> final(self).group matches Some(g1)
                    && same_gpu_objects(g0, g1))
                &&& (old(self).group is None ==> final(self).group is None)
                &&& final(self).graph == old(self).graph
            },
            !out.rebuild_requested ==> {
                &&& final(self).factory.created == old(self).factory.created
                &&& final(self).factory.destroyed == old(self).factory.destroyed
            },
            out.frame_index == old(self).next_index,
            final(self).next_index == (old(self).next_index + 1) % (old(self).frames_in_flight as int),
            final(self).group matches Some(g) ==> {
                &&& out.commands@ == draw_commands(g, out.frame_index)
                &&& g.enabled == settings.enabled
                &&& g.uniform_slices@[out.frame_index as int] == (match dims {
                    Some(d) => uniform_args(d),
                    None => zero_uniform(),
                })
            },
            final(self).group is None ==> out.commands@ == Seq::<RenderCommand>::empty(),
    {
        let rebuild_requested = self.render_graph.rebuild(dims);
        let mut rebuilt = false;

        if rebuild_requested {
            match dims {
                Some(d) => {
                    // The decision is true only when the reading repeats
                    // the observed one, so the tracker has dimensions.
                    let new_graph = self.render_graph.builder(self.surface_format);
                    match DrawFXAADesc.build(
                        &mut self.factory,
                        0,
                        d.width,
                        d.height,
                        0,
                        self.frames_in_flight,
                    ) {
                        Ok(new_group) => {
                            // The new group stands; now the old one goes,
                            // pipeline first, then layout, then the rest.
                            match self.group.take() {
                                Some(mut old_group) => {
                                    old_group.dispose(&mut self.factory);
                                    old_group.release(&mut self.factory);
                                    proof {
                                        assert(self.factory.destroy_log@
                                            =~= old(self).factory.destroy_log@
                                            + seq![
                                                ResourceKind::ShaderModule,
                                                ResourceKind::ShaderModule,
                                                ResourceKind::Pipeline,
                                                ResourceKind::PipelineLayout,
                                                ResourceKind::Buffer,
                                                ResourceKind::DescriptorSet,
                                                ResourceKind::DescriptorLayout,
                                                ResourceKind::Sampler,
                                                ResourceKind::ImageView,
                                                ResourceKind::DescriptorSet,
                                                ResourceKind::Buffer,
                                                ResourceKind::DescriptorLayout,
                                            ]);
                                    }
                                },
                                None => {},
                            }
                            self.group = Some(new_group);
                            self.graph = Some(new_graph);
                            rebuilt = true;
                        },
                        Err(_) => {
                            // No partial group was left behind; the
                            // previous graph and group stay in use.
                        },
                    }
                },
                None => {
                    // A rebuild with no reading to size images by: keep
                    // what is built.
                },
            }
        }

        let frame_index = self.next_index;
        self.next_index = (self.next_index + 1) % self.frames_in_flight;

        let mut commands: Vec<RenderCommand> = Vec::new();
        match &mut self.group {
            Some(group) => {
                let d = match dims {
                    Some(d) => d,
                    None => ScreenDims { width: 0, height: 0 },
                };
                group.prepare(frame_index, d, settings);
                group.draw_inline(&mut commands, frame_index);
                assert(commands@ =~= draw_commands(*group, frame_index));
            },
            None => {},
        }

        FrameOutcome { rebuild_requested, rebuilt, frame_index, commands }
    }

    /// End the session: tear the installed group down, pipeline first,
    /// then its layout, then the scope-owned rest.  Afterwards nothing is
    /// alive in the factory: every creation has met its destruction.
    pub fn shutdown(&mut self)
        requires
            old(self).wf(),
        ensures
            final(self).wf(),
            final(self).group is None,
            lives_exact(final(self).factory, 0, 0, 0, 0, 0, 0, 0, 0, 0),
            final(self).factory.created == old(self).factory.created,
    {
        match self.group.take() {
            Some(mut group) => {
                group.dispose(&mut self.factory);
                group.release(&mut self.factory);
            },
            None => {},
        }
    }
}

} // verus!
