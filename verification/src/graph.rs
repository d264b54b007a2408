//! A declaration-time model of the task graph this stage emits passes into:
//! image handles with their descriptors, single- or multi-level image views,
//! compute passes with explicit read and write sets, and the graph that owns
//! them. Execution (scheduling, barriers, GPU dispatch) belongs to the
//! external engine; here a pass is pure data, and correctness of concurrent
//! execution rests on the accuracy of the declared read/write view ranges.

use vstd::prelude::*;
use crate::image::{Extent3, ImageDesc};

verus! {

/// A sub-resource selector: a contiguous range of mip levels of one image,
/// named by the image's index in the graph.
#[derive(Clone, Copy, PartialEq, Eq, Structural, Debug)]
pub struct ImageView {
    pub image: usize,
    pub base_mip_level: u32,
    pub level_count: u32,
}

impl ImageView {
    /// The view names an image of the graph and a non-empty mip range that
    /// the image actually has.
    pub open spec fn in_bounds(self, images: Seq<ImageDesc>) -> bool {
        &&& self.image < images.len()
        &&& self.level_count >= 1
        &&& self.base_mip_level + self.level_count <= images[self.image as int].mip_levels
    }

    /// Two views do not overlap: different images, or disjoint mip ranges.
    pub open spec fn disjoint_from(self, other: ImageView) -> bool {
        ||| self.image != other.image
        ||| self.base_mip_level + self.level_count <= other.base_mip_level
        ||| other.base_mip_level + other.level_count <= self.base_mip_level
    }
}

/// An externally supplied raw descriptor set, bound to a set slot.
#[derive(Clone, Copy, PartialEq, Eq, Structural, Debug)]
pub struct DescriptorSetBinding {
    pub slot: u32,
    pub raw: u64,
}

/// Blend weight applied to the already-reconstructed coarser level when a
/// reverse pass combines it with the forward pyramid: none (use the forward
/// contribution alone) or an equal blend. Kept symbolic so contracts can pin
/// it exactly; the value uploaded to the shader is 0.0 or 0.5.
#[derive(Clone, Copy, PartialEq, Eq, Structural, Debug)]
pub enum BlendWeight {
    Zero,
    Half,
}

/// The small constant-parameter payload a pass hands its shader. Field order
/// and meaning are a fixed contract per shader. Extents are carried as
/// integers; the reciprocal-extent floats the shaders also receive are
/// derived from them at upload time, outside this library. The exposure
/// shift travels as the bit pattern of the caller's 32-bit float scalar.
#[derive(Clone, Copy, PartialEq, Eq, Structural, Debug)]
pub enum ConstantBlock {
    RevBlur { output_width: u32, output_height: u32, self_weight: BlendWeight },
    ATrous { width: u32, height: u32, px_skip: u32 },
    Combine { width: u32, height: u32, pyramid_mip_count: u32, ev_shift_bits: u32 },
}

/// The name of a pass; the numbered kinds carry the loop index they were
/// declared with.
#[derive(Clone, Copy, PartialEq, Eq, Structural, Debug)]
pub enum PassName {
    Blur { target_mip: u32 },
    RevBlur { target_mip: u32 },
    PostCombine,
    LogLuminance,
    ATrous { iteration: u32 },
}

/// The compute shader a pass invokes, by logical identity.
#[derive(Clone, Copy, PartialEq, Eq, Structural, Debug)]
pub enum Shader {
    Blur,
    RevBlur,
    PostCombine,
    ExtractLogLuminance,
    LuminanceATrous,
}

/// A declared task-graph pass: what it reads, what it writes, its constant
/// payload, its raw descriptor sets, and the work-item grid it dispatches.
#[derive(Clone, PartialEq, Debug)]
pub struct Pass {
    pub name: PassName,
    pub shader: Shader,
    pub reads: Vec<ImageView>,
    pub writes: Vec<ImageView>,
    pub constants: Option<ConstantBlock>,
    pub descriptor_sets: Vec<DescriptorSetBinding>,
    pub dispatch_extent: Extent3,
}

impl Pass {
    /// No write view of the pass overlaps any of its read views on the same
    /// image: a single dispatch never aliases a read with a write.
    pub open spec fn no_read_write_overlap(self) -> bool {
        forall|i: int, j: int|
            0 <= i < self.reads@.len() && 0 <= j < self.writes@.len() ==> (
            #[trigger] self.reads@[i]).disjoint_from(#[trigger] self.writes@[j])
    }

    /// The pass only touches images the graph owns, within their mip
    /// ranges, and without read/write aliasing.
    pub open spec fn valid_for(self, images: Seq<ImageDesc>) -> bool {
        &&& forall|i: int|
            0 <= i < self.reads@.len() ==> (#[trigger] self.reads@[i]).in_bounds(images)
        &&& forall|j: int|
            0 <= j < self.writes@.len() ==> (#[trigger] self.writes@[j]).in_bounds(images)
        &&& self.no_read_write_overlap()
    }
}

/// An opaque reference to a graph-owned image together with its descriptor.
/// The graph owns the resource; a handle never owns image memory.
#[derive(Clone, Copy, PartialEq, Eq, Structural, Debug)]
pub struct Handle {
    pub id: usize,
    pub desc: ImageDesc,
}

/// The graph under construction: the descriptors of the images created so
/// far (a handle's `id` indexes this list) and the passes declared so far,
/// in emission order.
pub struct RenderGraph {
    pub images: Vec<ImageDesc>,
    pub passes: Vec<Pass>,
}

impl RenderGraph {
    /// The handle refers to an image of this graph and carries its
    /// descriptor.
    pub open spec fn valid_handle(self, h: Handle) -> bool {
        h.id < self.images@.len() && self.images@[h.id as int] == h.desc
    }

    /// Every image descriptor is well formed and every declared pass stays
    /// within the graph's images, without read/write aliasing.
    pub open spec fn wf(self) -> bool {
        &&& forall|i: int|
            0 <= i < self.images@.len() ==> (#[trigger] self.images@[i]).wf()
        &&& forall|p: int|
            0 <= p < self.passes@.len() ==> (#[trigger] self.passes@[p]).valid_for(self.images@)
    }

    /// An empty graph: no images, no passes.
    pub fn new() -> (rg: RenderGraph)
        ensures
            rg.images@.len() == 0,
            rg.passes@.len() == 0,
            rg.wf(),
    {
        RenderGraph { images: Vec::new(), passes: Vec::new() }
    }

    /// Create a graph-owned image and hand back its handle. Only the image
    /// list grows; no pass is touched.
    pub fn create(&mut self, desc: ImageDesc) -> (h: Handle)
        requires
            old(self).wf(),
            desc.wf(),
        ensures
            final(self).images@ == old(self).images@.push(desc),
            final(self).passes@ == old(self).passes@,
            h.id == old(self).images@.len(),
            h.desc == desc,
            final(self).wf(),
            final(self).valid_handle(h),
            forall|g: Handle| old(self).valid_handle(g) ==> final(self).valid_handle(g),
    {
        let id = self.images.len();
        self.images.push(desc);
        proof {
            assert forall|p: int| 0 <= p < self.passes@.len() implies (
                #[trigger] self.passes@[p]).valid_for(self.images@) by {
                let pass = self.passes@[p];
                assert(pass.valid_for(old(self).images@));
                assert forall|i: int|
                    0 <= i < pass.reads@.len() implies (#[trigger] pass.reads@[i]).in_bounds(
                    self.images@,
                ) by {
                    assert(pass.reads@[i].in_bounds(old(self).images@));
                }
                assert forall|j: int|
                    0 <= j < pass.writes@.len() implies (#[trigger] pass.writes@[j]).in_bounds(
                    self.images@,
                ) by {
                    assert(pass.writes@[j].in_bounds(old(self).images@));
                }
            }
        }
        Handle { id, desc }
    }

    /// How many passes have been declared so far.
    pub fn pass_count(&self) -> (n: usize)
        ensures
            n == self.passes@.len(),
    {
        self.passes.len()
    }

    /// How many images have been created so far.
    pub fn image_count(&self) -> (n: usize)
        ensures
            n == self.images@.len(),
    {
        self.images.len()
    }
}

/// A pass under construction. Methods consume and return the builder, so a
/// declaration reads as one chain from `new_compute` to `dispatch`, which
/// records the finished pass in the graph.
pub struct PassBuilder {
    pub name: PassName,
    pub shader: Shader,
    pub reads: Vec<ImageView>,
    pub writes: Vec<ImageView>,
    pub constants: Option<ConstantBlock>,
    pub descriptor_sets: Vec<DescriptorSetBinding>,
}

/// The view covering every mip level of the image behind `h`.
pub open spec fn whole_view(h: Handle) -> ImageView {
    ImageView { image: h.id, base_mip_level: 0, level_count: h.desc.mip_levels }
}

/// The view covering exactly mip level `mip` of the image behind `h`.
pub open spec fn level_view(h: Handle, mip: u32) -> ImageView {
    ImageView { image: h.id, base_mip_level: mip, level_count: 1 }
}

impl PassBuilder {
    /// The pass this builder would record when dispatched at `extent`.
    pub open spec fn into_pass(self, extent: Extent3) -> Pass {
        Pass {
            name: self.name,
            shader: self.shader,
            reads: self.reads,
            writes: self.writes,
            constants: self.constants,
            descriptor_sets: self.descriptor_sets,
            dispatch_extent: extent,
        }
    }

    /// A fresh compute pass with no reads, writes, constants or descriptor
    /// sets yet.
    pub fn new_compute(name: PassName, shader: Shader) -> (b: PassBuilder)
        ensures
            b.name == name,
            b.shader == shader,
            b.reads@ == Seq::<ImageView>::empty(),
            b.writes@ == Seq::<ImageView>::empty(),
            b.constants == Option::<ConstantBlock>::None,
            b.descriptor_sets@ == Seq::<DescriptorSetBinding>::empty(),
    {
        PassBuilder {
            name,
            shader,
            reads: Vec::new(),
            writes: Vec::new(),
            constants: Option::None,
            descriptor_sets: Vec::new(),
        }
    }

    /// Declare a read of every mip level of `h`.
    pub fn read(self, h: &Handle) -> (r: PassBuilder)
        ensures
            r.reads@ == self.reads@.push(whole_view(*h)),
            r.writes@ == self.writes@,
            r.name == self.name,
            r.shader == self.shader,
            r.constants == self.constants,
            r.descriptor_sets@ == self.descriptor_sets@,
    {
        let mut b = self;
        b.reads.push(ImageView { image: h.id, base_mip_level: 0, level_count: h.desc.mip_levels });
        b
    }

    /// Declare a read of exactly mip level `mip` of `h`.
    pub fn read_view(self, h: &Handle, mip: u32) -> (r: PassBuilder)
        ensures
            r.reads@ == self.reads@.push(level_view(*h, mip)),
            r.writes@ == self.writes@,
            r.name == self.name,
            r.shader == self.shader,
            r.constants == self.constants,
            r.descriptor_sets@ == self.descriptor_sets@,
    {
        let mut b = self;
        b.reads.push(ImageView { image: h.id, base_mip_level: mip, level_count: 1 });
        b
    }

    /// Declare a write of every mip level of `h`.
    pub fn write(self, h: &Handle) -> (r: PassBuilder)
        ensures
            r.writes@ == self.writes@.push(whole_view(*h)),
            r.reads@ == self.reads@,
            r.name == self.name,
            r.shader == self.shader,
            r.constants == self.constants,
            r.descriptor_sets@ == self.descriptor_sets@,
    {
        let mut b = self;
        b.writes.push(ImageView { image: h.id, base_mip_level: 0, level_count: h.desc.mip_levels });
        b
    }

    /// Declare a write of exactly mip level `mip` of `h`.
    pub fn write_view(self, h: &Handle, mip: u32) -> (r: PassBuilder)
        ensures
            r.writes@ == self.writes@.push(level_view(*h, mip)),
            r.reads@ == self.reads@,
            r.name == self.name,
            r.shader == self.shader,
            r.constants == self.constants,
            r.descriptor_sets@ == self.descriptor_sets@,
    {
        let mut b = self;
        b.writes.push(ImageView { image: h.id, base_mip_level: mip, level_count: 1 });
        b
    }

    /// Attach the constant-parameter payload.
    pub fn constants(self, c: ConstantBlock) -> (r: PassBuilder)
        ensures
            r.constants == Option::Some(c),
            r.reads@ == self.reads@,
            r.writes@ == self.writes@,
            r.name == self.name,
            r.shader == self.shader,
            r.descriptor_sets@ == self.descriptor_sets@,
    {
        let mut b = self;
        b.constants = Option::Some(c);
        b
    }

    /// Bind an externally supplied raw descriptor set to a set slot.
    pub fn raw_descriptor_set(self, slot: u32, raw: u64) -> (r: PassBuilder)
        ensures
            r.descriptor_sets@ == self.descriptor_sets@.push(
                DescriptorSetBinding { slot, raw },
            ),
            r.reads@ == self.reads@,
            r.writes@ == self.writes@,
            r.name == self.name,
            r.shader == self.shader,
            r.constants == self.constants,
    {
        let mut b = self;
        b.descriptor_sets.push(DescriptorSetBinding { slot, raw });
        b
    }

    /// Record the finished pass in the graph, dispatched over `extent` work
    /// items. Only the pass list grows, by exactly this pass; every earlier
    /// pass and every image stays as it was.
    pub fn dispatch(self, rg: &mut RenderGraph, extent: Extent3)
        requires
            old(rg).wf(),
            self.into_pass(extent).valid_for(old(rg).images@),
        ensures
            final(rg).images@ == old(rg).images@,
            final(rg).passes@ == old(rg).passes@.push(self.into_pass(extent)),
            final(rg).wf(),
    {
        let pass = Pass {
            name: self.name,
            shader: self.shader,
            reads: self.reads,
            writes: self.writes,
            constants: self.constants,
            descriptor_sets: self.descriptor_sets,
            dispatch_extent: extent,
        };
        rg.passes.push(pass);
    }
}

} // verus!
