//! A counting model of the GPU resource factory.
//!
//! The factory is the capability through which every low-level object
//! (views, samplers, descriptor sets, buffers, shader modules, pipelines)
//! is created and destroyed.  The model keeps, per object class, how many
//! objects were ever created and destroyed, a fuel budget after which
//! creation fails (out of memory, driver rejection), and a ghost log of
//! destructions so that teardown ordering can be stated and proved.

use vstd::prelude::*;

verus! {

/// The classes of low-level objects the factory hands out.
#[derive(Clone, Copy, Debug, PartialEq, Eq, Structural)]
pub enum ResourceKind {
    Image,
    ImageView,
    Sampler,
    DescriptorLayout,
    DescriptorSet,
    Buffer,
    ShaderModule,
    PipelineLayout,
    Pipeline,
}

/// One counter per object class.
#[derive(Clone, Copy, Debug, PartialEq, Eq, Structural)]
pub struct ResourceCounts {
    pub images: u64,
    pub image_views: u64,
    pub samplers: u64,
    pub descriptor_layouts: u64,
    pub descriptor_sets: u64,
    pub buffers: u64,
    pub shader_modules: u64,
    pub pipeline_layouts: u64,
    pub pipelines: u64,
}

/// Creation failed: the device refused the allocation.
#[derive(Clone, Copy, Debug, PartialEq, Eq, Structural)]
pub enum BuildError {
    OutOfResources,
}

pub open spec fn count_of(c: ResourceCounts, k: ResourceKind) -> u64 {
    match k {
        ResourceKind::Image => c.images,
        ResourceKind::ImageView => c.image_views,
        ResourceKind::Sampler => c.samplers,
        ResourceKind::DescriptorLayout => c.descriptor_layouts,
        ResourceKind::DescriptorSet => c.descriptor_sets,
        ResourceKind::Buffer => c.buffers,
        ResourceKind::ShaderModule => c.shader_modules,
        ResourceKind::PipelineLayout => c.pipeline_layouts,
        ResourceKind::Pipeline => c.pipelines,
    }
}

pub open spec fn with_count(c: ResourceCounts, k: ResourceKind, v: u64) -> ResourceCounts {
    match k {
        ResourceKind::Image => (ResourceCounts { images: v, ..c }),
        ResourceKind::ImageView => (ResourceCounts { image_views: v, ..c }),
        ResourceKind::Sampler => (ResourceCounts { samplers: v, ..c }),
        ResourceKind::DescriptorLayout => (ResourceCounts { descriptor_layouts: v, ..c }),
        ResourceKind::DescriptorSet => (ResourceCounts { descriptor_sets: v, ..c }),
        ResourceKind::Buffer => (ResourceCounts { buffers: v, ..c }),
        ResourceKind::ShaderModule => (ResourceCounts { shader_modules: v, ..c }),
        ResourceKind::PipelineLayout => (ResourceCounts { pipeline_layouts: v, ..c }),
        ResourceKind::Pipeline => (ResourceCounts { pipelines: v, ..c }),
    }
}

pub open spec fn zero_counts() -> ResourceCounts {
    ResourceCounts {
        images: 0,
        image_views: 0,
        samplers: 0,
        descriptor_layouts: 0,
        descriptor_sets: 0,
        buffers: 0,
        shader_modules: 0,
        pipeline_layouts: 0,
        pipelines: 0,
    }
}

/// Updating one class's counter leaves every other class's counter alone.
pub proof fn lemma_with_count(c: ResourceCounts, k: ResourceKind, v: u64)
    ensures
        count_of(with_count(c, k, v), k) == v,
        forall|j: ResourceKind| j != k ==> #[trigger] count_of(with_count(c, k, v), j) == count_of(c, j),
{
}

/// The GPU resource factory, as a counting capability.
pub struct Factory {
    pub created: ResourceCounts,
    pub destroyed: ResourceCounts,
    /// How many more creations the device will grant before failing.
    pub fuel: u64,
    /// Every destruction ever performed, in order.
    pub destroy_log: Ghost<Seq<ResourceKind>>,
}

/// Objects of class `k` currently alive.
pub open spec fn live(f: Factory, k: ResourceKind) -> int {
    count_of(f.created, k) - count_of(f.destroyed, k)
}

/// All live counts of `b` equal those of `a`: whatever `b` created beyond
/// `a` it also destroyed — creation and destruction stay paired.
pub open spec fn lives_unchanged(a: Factory, b: Factory) -> bool {
    forall|k: ResourceKind| live(b, k) == #[trigger] live(a, k)
}

/// The live counts of `b` are those of `a` shifted by the given amount per
/// class, in the order: descriptor layouts, descriptor sets, buffers, image
/// views, samplers, shader modules, pipeline layouts, pipelines, images.
pub open spec fn lives_shifted(
    a: Factory,
    b: Factory,
    dl: int,
    ds: int,
    bu: int,
    iv: int,
    sa: int,
    sm: int,
    pl: int,
    pi: int,
    im: int,
) -> bool {
    &&& live(b, ResourceKind::DescriptorLayout) == live(a, ResourceKind::DescriptorLayout) + dl
    &&& live(b, ResourceKind::DescriptorSet) == live(a, ResourceKind::DescriptorSet) + ds
    &&& live(b, ResourceKind::Buffer) == live(a, ResourceKind::Buffer) + bu
    &&& live(b, ResourceKind::ImageView) == live(a, ResourceKind::ImageView) + iv
    &&& live(b, ResourceKind::Sampler) == live(a, ResourceKind::Sampler) + sa
    &&& live(b, ResourceKind::ShaderModule) == live(a, ResourceKind::ShaderModule) + sm
    &&& live(b, ResourceKind::PipelineLayout) == live(a, ResourceKind::PipelineLayout) + pl
    &&& live(b, ResourceKind::Pipeline) == live(a, ResourceKind::Pipeline) + pi
    &&& live(b, ResourceKind::Image) == live(a, ResourceKind::Image) + im
}

/// The live counts of `f` are exactly the given amounts, in the order:
/// descriptor layouts, descriptor sets, buffers, image views, samplers,
/// shader modules, pipeline layouts, pipelines, images.
pub open spec fn lives_exact(
    f: Factory,
    dl: int,
    ds: int,
    bu: int,
    iv: int,
    sa: int,
    sm: int,
    pl: int,
    pi: int,
    im: int,
) -> bool {
    &&& live(f, ResourceKind::DescriptorLayout) == dl
    &&& live(f, ResourceKind::DescriptorSet) == ds
    &&& live(f, ResourceKind::Buffer) == bu
    &&& live(f, ResourceKind::ImageView) == iv
    &&& live(f, ResourceKind::Sampler) == sa
    &&& live(f, ResourceKind::ShaderModule) == sm
    &&& live(f, ResourceKind::PipelineLayout) == pl
    &&& live(f, ResourceKind::Pipeline) == pi
    &&& live(f, ResourceKind::Image) == im
}

/// A zero shift of every class leaves every live count unchanged.
pub proof fn lemma_zero_shift_unchanged(a: Factory, b: Factory)
    requires
        lives_shifted(a, b, 0, 0, 0, 0, 0, 0, 0, 0, 0),
    ensures
        lives_unchanged(a, b),
{
    assert forall|k: ResourceKind| live(b, k) == #[trigger] live(a, k) by {
        match k {
            ResourceKind::Image => {},
            ResourceKind::ImageView => {},
            ResourceKind::Sampler => {},
            ResourceKind::DescriptorLayout => {},
            ResourceKind::DescriptorSet => {},
            ResourceKind::Buffer => {},
            ResourceKind::ShaderModule => {},
            ResourceKind::PipelineLayout => {},
            ResourceKind::Pipeline => {},
        }
    }
}

impl Factory {
    /// Nothing destroyed that was not created, and counters cannot
    /// overflow while fuel remains.
    pub open spec fn wf(self) -> bool {
        &&& forall|k: ResourceKind|
            #[trigger] count_of(self.destroyed, k) <= count_of(self.created, k)
        &&& forall|k: ResourceKind|
            #[trigger] count_of(self.created, k) + self.fuel <= u64::MAX
    }

    /// A fresh factory that will grant `fuel` creations.
    pub fn new(fuel: u64) -> (f: Factory)
        ensures
            f.wf(),
            f.created == zero_counts(),
            f.destroyed == zero_counts(),
            f.fuel == fuel,
            f.destroy_log@ == Seq::<ResourceKind>::empty(),
    {
        Factory {
            created: ResourceCounts {
                images: 0,
                image_views: 0,
                samplers: 0,
                descriptor_layouts: 0,
                descriptor_sets: 0,
                buffers: 0,
                shader_modules: 0,
                pipeline_layouts: 0,
                pipelines: 0,
            },
            destroyed: ResourceCounts {
                images: 0,
                image_views: 0,
                samplers: 0,
                descriptor_layouts: 0,
                descriptor_sets: 0,
                buffers: 0,
                shader_modules: 0,
                pipeline_layouts: 0,
                pipelines: 0,
            },
            fuel,
            destroy_log: Ghost(Seq::empty()),
        }
    }

    fn bump_created(&mut self, k: ResourceKind)
        requires
            count_of(old(self).created, k) < u64::MAX,
        ensures
            final(self).created == with_count(old(self).created, k, (count_of(old(self).created, k) + 1) as u64),
            final(self).destroyed == old(self).destroyed,
            final(self).fuel == old(self).fuel,
            final(self).destroy_log == old(self).destroy_log,
    {
        match k {
            ResourceKind::Image => self.created.images = self.created.images + 1,
            ResourceKind::ImageView => self.created.image_views = self.created.image_views + 1,
            ResourceKind::Sampler => self.created.samplers = self.created.samplers + 1,
            ResourceKind::DescriptorLayout => self.created.descriptor_layouts = self.created.descriptor_layouts + 1,
            ResourceKind::DescriptorSet => self.created.descriptor_sets = self.created.descriptor_sets + 1,
            ResourceKind::Buffer => self.created.buffers = self.created.buffers + 1,
            ResourceKind::ShaderModule => self.created.shader_modules = self.created.shader_modules + 1,
            ResourceKind::PipelineLayout => self.created.pipeline_layouts = self.created.pipeline_layouts + 1,
            ResourceKind::Pipeline => self.created.pipelines = self.created.pipelines + 1,
        }
    }

    fn count_created(&self, k: ResourceKind) -> (n: u64)
        ensures
            n == count_of(self.created, k),
    {
        match k {
            ResourceKind::Image => self.created.images,
            ResourceKind::ImageView => self.created.image_views,
            ResourceKind::Sampler => self.created.samplers,
            ResourceKind::DescriptorLayout => self.created.descriptor_layouts,
            ResourceKind::DescriptorSet => self.created.descriptor_sets,
            ResourceKind::Buffer => self.created.buffers,
            ResourceKind::ShaderModule => self.created.shader_modules,
            ResourceKind::PipelineLayout => self.created.pipeline_layouts,
            ResourceKind::Pipeline => self.created.pipelines,
        }
    }

    /// Create one object of class `k`.  Succeeds exactly while fuel
    /// remains; the returned id numbers the objects of that class from 0.
    pub fn create(&mut self, k: ResourceKind) -> (r: Result<u64, BuildError>)
        requires
            old(self).wf(),
        ensures
            final(self).wf(),
            r is Ok <==> old(self).fuel > 0,
            r matches Ok(id) ==> {
                &&& id == count_of(old(self).created, k)
                &&& final(self).created == with_count(old(self).created, k, (count_of(old(self).created, k) + 1) as u64)
                &&& final(self).destroyed == old(self).destroyed
                &&& final(self).fuel == old(self).fuel - 1
                &&& final(self).destroy_log == old(self).destroy_log
                &&& live(*final(self), k) == live(*old(self), k) + 1
                &&& forall|j: ResourceKind| j != k ==> #[trigger] live(*final(self), j) == live(*old(self), j)
            },
            r is Err ==> *final(self) == *old(self),
    {
        if self.fuel == 0 {
            return Err(BuildError::OutOfResources);
        }
        let id = self.count_created(k);
        assert(count_of(self.created, k) + self.fuel <= u64::MAX);
        self.fuel = self.fuel - 1;
        self.bump_created(k);
        proof {
            lemma_with_count(old(self).created, k, (count_of(old(self).created, k) + 1) as u64);
            assert forall|j: ResourceKind|
                #[trigger] count_of(self.created, j) + self.fuel <= u64::MAX by {
                assert(count_of(old(self).created, j) + old(self).fuel <= u64::MAX);
            }
            assert forall|j: ResourceKind|
                #[trigger] count_of(self.destroyed, j) <= count_of(self.created, j) by {
                assert(count_of(old(self).destroyed, j) <= count_of(old(self).created, j));
            }
        }
        Ok(id)
    }

    /// Destroy one live object of class `k`.  Destroying an object that is
    /// not alive is a contract violation, never a silent double free.
    pub fn destroy(&mut self, k: ResourceKind)
        requires
            old(self).wf(),
            live(*old(self), k) > 0,
        ensures
            final(self).wf(),
            final(self).created == old(self).created,
            final(self).destroyed == with_count(old(self).destroyed, k, (count_of(old(self).destroyed, k) + 1) as u64),
            final(self).fuel == old(self).fuel,
            final(self).destroy_log@ == old(self).destroy_log@.push(k),
            live(*final(self), k) == live(*old(self), k) - 1,
            forall|j: ResourceKind| j != k ==> #[trigger] live(*final(self), j) == live(*old(self), j),
    {
        match k {
            ResourceKind::Image => self.destroyed.images = self.destroyed.images + 1,
            ResourceKind::ImageView => self.destroyed.image_views = self.destroyed.image_views + 1,
            ResourceKind::Sampler => self.destroyed.samplers = self.destroyed.samplers + 1,
            ResourceKind::DescriptorLayout => self.destroyed.descriptor_layouts = self.destroyed.descriptor_layouts + 1,
            ResourceKind::DescriptorSet => self.destroyed.descriptor_sets = self.destroyed.descriptor_sets + 1,
            ResourceKind::Buffer => self.destroyed.buffers = self.destroyed.buffers + 1,
            ResourceKind::ShaderModule => self.destroyed.shader_modules = self.destroyed.shader_modules + 1,
            ResourceKind::PipelineLayout => self.destroyed.pipeline_layouts = self.destroyed.pipeline_layouts + 1,
            ResourceKind::Pipeline => self.destroyed.pipelines = self.destroyed.pipelines + 1,
        }
        self.destroy_log = Ghost(self.destroy_log@.push(k));
        proof {
            lemma_with_count(old(self).destroyed, k, (count_of(old(self).destroyed, k) + 1) as u64);
            assert forall|j: ResourceKind|
                #[trigger] count_of(self.destroyed, j) <= count_of(self.created, j) by {
                assert(count_of(old(self).destroyed, j) <= count_of(old(self).created, j));
            }
        }
    }

    /// How many objects of class `k` were ever created.
    pub fn created_count(&self, k: ResourceKind) -> (n: u64)
        ensures
            n == count_of(self.created, k),
    {
        self.count_created(k)
    }

    /// How many objects of class `k` were ever destroyed.
    pub fn destroyed_count(&self, k: ResourceKind) -> (n: u64)
        ensures
            n == count_of(self.destroyed, k),
    {
        match k {
            ResourceKind::Image => self.destroyed.images,
            ResourceKind::ImageView => self.destroyed.image_views,
            ResourceKind::Sampler => self.destroyed.samplers,
            ResourceKind::DescriptorLayout => self.destroyed.descriptor_layouts,
            ResourceKind::DescriptorSet => self.destroyed.descriptor_sets,
            ResourceKind::Buffer => self.destroyed.buffers,
            ResourceKind::ShaderModule => self.destroyed.shader_modules,
            ResourceKind::PipelineLayout => self.destroyed.pipeline_layouts,
            ResourceKind::Pipeline => self.destroyed.pipelines,
        }
    }

    /// How many objects of class `k` are currently alive.
    pub fn live_count(&self, k: ResourceKind) -> (n: u64)
        requires
            self.wf(),
        ensures
            n == live(*self, k),
    {
        let c = self.created_count(k);
        let d = self.destroyed_count(k);
        assert(count_of(self.destroyed, k) <= count_of(self.created, k));
        c - d
    }
}

} // verus!
