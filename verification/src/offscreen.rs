//! The offscreen render-target plugin.
//!
//! Declares the named intermediate target the main pass renders into and
//! the post-process pass reads from: one color image and one depth image,
//! both sized to the current viewport, registered in the host's render
//! plan.  Uses the same debounced rebuild decision as the graph creator.

use vstd::prelude::*;

use crate::dims::ScreenDims;
use crate::resources::Format;
use crate::resources::ImageInfo;
use crate::resources::clear_black;
use crate::resources::clear_far_depth;
use crate::tracker::DimTracker;
use crate::tracker::mark_built_next;
use crate::tracker::observe_next;
use crate::tracker::rebuild_decision;

verus! {

/// A named render target in the host's plan.
#[derive(Clone, Copy, Debug, PartialEq, Eq, Structural)]
pub enum Target {
    /// The host's main window target.
    Main,
    /// The intermediate target the post-process pass samples.
    Offscreen,
}

/// One color output of a planned pass.
#[derive(Clone, Copy, Debug, PartialEq, Eq, Structural)]
pub enum OutputColor {
    /// Render into a freshly declared image.
    Image(ImageInfo),
    /// Render into the window surface itself.
    Surface,
}

/// The outputs a planned pass renders into.
#[derive(Clone, Copy, Debug, PartialEq, Eq, Structural)]
pub struct TargetPlanOutputs {
    pub color: OutputColor,
    pub depth: Option<ImageInfo>,
}

/// Defining a pass for a target that already has one is a plan error.
#[derive(Clone, Copy, Debug, PartialEq, Eq, Structural)]
pub enum PlanError {
    TargetAlreadyDefined,
}

/// One pass definition registered in the plan.
#[derive(Clone, Copy, Debug, PartialEq, Eq, Structural)]
pub struct PlannedPass {
    pub target: Target,
    pub outputs: TargetPlanOutputs,
}

/// Whether the plan already defines a pass for `t`.
pub open spec fn plan_has_target(passes: Seq<PlannedPass>, t: Target) -> bool {
    exists|i: int| 0 <= i < passes.len() && (#[trigger] passes[i]).target == t
}

/// The host's render plan: the roots to evaluate and the passes defined
/// so far, each target at most once.
#[derive(Debug)]
pub struct RenderPlan {
    pub roots: Vec<Target>,
    pub passes: Vec<PlannedPass>,
}

impl RenderPlan {
    /// An empty plan.
    pub fn new() -> (p: RenderPlan)
        ensures
            p.roots@ == Seq::<Target>::empty(),
            p.passes@ == Seq::<PlannedPass>::empty(),
    {
        RenderPlan { roots: Vec::new(), passes: Vec::new() }
    }

    /// Register a target whose pass must be evaluated every frame.
    pub fn add_root(&mut self, t: Target)
        ensures
            final(self).roots@ == old(self).roots@.push(t),
            final(self).passes@ == old(self).passes@,
    {
        self.roots.push(t);
    }

    /// Define the pass rendering into `t`.  Succeeds exactly when no pass
    /// for `t` is defined yet.
    pub fn define_pass(&mut self, t: Target, outputs: TargetPlanOutputs) -> (r: Result<(), PlanError>)
        ensures
            final(self).roots@ == old(self).roots@,
            r is Ok <==> !plan_has_target(old(self).passes@, t),
            r is Ok ==> final(self).passes@ == old(self).passes@.push(
                PlannedPass { target: t, outputs },
            ),
            r is Err ==> final(self).passes@ == old(self).passes@,
    {
        let mut i: usize = 0;
        while i < self.passes.len()
            invariant
                i <= self.passes@.len(),
                forall|j: int| 0 <= j < i ==> (#[trigger] self.passes@[j]).target != t,
            decreases self.passes@.len() - i,
        {
            if self.passes[i].target == t {
                return Err(PlanError::TargetAlreadyDefined);
            }
            i = i + 1;
        }
        self.passes.push(PlannedPass { target: t, outputs });
        Ok(())
    }
}

/// The color image of the offscreen target for dimensions `d`.
pub open spec fn offscreen_color_image(d: ScreenDims) -> ImageInfo {
    ImageInfo {
        width: d.width,
        height: d.height,
        levels: 1,
        format: Format::Rgba8Unorm,
        clear: Some(clear_black()),
    }
}

/// The depth image of the offscreen target for dimensions `d`.
pub open spec fn offscreen_depth_image(d: ScreenDims) -> ImageInfo {
    ImageInfo {
        width: d.width,
        height: d.height,
        levels: 1,
        format: Format::D32Sfloat,
        clear: Some(clear_far_depth()),
    }
}

/// The outputs the offscreen pass renders into for dimensions `d`.
pub open spec fn offscreen_outputs(d: ScreenDims) -> TargetPlanOutputs {
    TargetPlanOutputs {
        color: OutputColor::Image(offscreen_color_image(d)),
        depth: Some(offscreen_depth_image(d)),
    }
}

/// The plugin that declares the offscreen target, with its own debounced
/// rebuild decision.
#[derive(Clone, Copy, Debug, PartialEq, Eq, Structural)]
pub struct RenderOffscreen {
    pub tracker: DimTracker,
}

impl RenderOffscreen {
    /// A plugin that has planned nothing and seen no reading yet.
    pub fn new() -> (p: RenderOffscreen)
        ensures
            p.tracker.built is None,
            p.tracker.observed is None,
    {
        RenderOffscreen { tracker: DimTracker::new() }
    }

    /// Should the plan be rebuilt for this frame's dimension reading?
    /// Same debounce as the graph creator: only a reading that repeats
    /// last frame's and differs from what was planned asks for a rebuild.
    pub fn should_rebuild(&mut self, new_dimensions: Option<ScreenDims>) -> (r: bool)
        ensures
            final(self).tracker == observe_next(old(self).tracker, new_dimensions),
            r == rebuild_decision(old(self).tracker, new_dimensions),
    {
        self.tracker.observe(new_dimensions)
    }

    /// Register the offscreen target in the plan: a root and one pass
    /// writing a color and a depth image sized to the observed dimensions.
    /// Fails, leaving the passes untouched, when the plan already defines
    /// the offscreen target.  Planning settles the rebuild check.
    pub fn on_plan(&mut self, plan: &mut RenderPlan) -> (r: Result<(), PlanError>)
        requires
            old(self).tracker.observed is Some,
        ensures
            final(self).tracker == mark_built_next(old(self).tracker),
            final(plan).roots@ == old(plan).roots@.push(Target::Offscreen),
            r is Ok <==> !plan_has_target(old(plan).passes@, Target::Offscreen),
            r is Ok ==> final(plan).passes@ == old(plan).passes@.push(
                PlannedPass {
                    target: Target::Offscreen,
                    outputs: offscreen_outputs(old(self).tracker.observed->0),
                },
            ),
            r is Err ==> final(plan).passes@ == old(plan).passes@,
    {
        self.tracker.mark_built();
        let dimensions = match self.tracker.observed {
            Some(d) => d,
            None => ScreenDims { width: 0, height: 0 },
        };
        plan.add_root(Target::Offscreen);
        let depth_options = ImageInfo {
            width: dimensions.width,
            height: dimensions.height,
            levels: 1,
            format: Format::D32Sfloat,
            clear: Some(crate::resources::ClearValue::DepthStencil {
                depth_bits: crate::quad::F32_ONE_BITS,
                stencil: 0,
            }),
        };
        let color_options = ImageInfo {
            width: dimensions.width,
            height: dimensions.height,
            levels: 1,
            format: Format::Rgba8Unorm,
            clear: Some(crate::resources::ClearValue::Color {
                r_bits: crate::quad::F32_ZERO_BITS,
                g_bits: crate::quad::F32_ZERO_BITS,
                b_bits: crate::quad::F32_ZERO_BITS,
                a_bits: crate::quad::F32_ONE_BITS,
            }),
        };
        plan.define_pass(
            Target::Offscreen,
            TargetPlanOutputs { color: OutputColor::Image(color_options), depth: Some(depth_options) },
        )
    }
}

} // verus!
