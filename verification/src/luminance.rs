//! An edge-aware multi-pass filter over a single-channel log-luminance
//! image, in the a-trous wavelet style: one pass extracts log luminance
//! from the input, then seven iterations of a fixed-radius filter run with
//! exponentially shrinking pixel skip, each reading both the previous
//! iteration's output and the originally extracted luminance. The stage is
//! an opt-in alternate tone-mapping strategy: nothing in the active
//! pipeline calls it, but callers may feed its result to the combiner.

use vstd::prelude::*;
use vstd::arithmetic::power2::pow2;
use crate::graph::{
    ConstantBlock, Handle, Pass, PassBuilder, PassName, RenderGraph, Shader, whole_view,
};
use crate::image::{ImageDesc, ImageFormat};

verus! {

/// How many filter iterations run after the extraction pass.
pub const ATROUS_ITERATIONS: u32 = 7;

/// The descriptor of every image this filter creates: the input's shape in
/// the two-channel half-float format.
pub open spec fn luminance_desc(input: ImageDesc) -> ImageDesc {
    ImageDesc { format: ImageFormat::R16G16Sfloat, ..input }
}

/// The extraction pass: it reads the whole input and writes the whole
/// luminance image, dispatched at that image's full extent.
pub open spec fn is_extract_pass(p: Pass, input: Handle, lum: Handle) -> bool {
    &&& p.name == PassName::LogLuminance
    &&& p.shader == Shader::ExtractLogLuminance
    &&& p.reads@.len() == 1
    &&& p.reads@[0] == whole_view(input)
    &&& p.writes@.len() == 1
    &&& p.writes@[0] == whole_view(lum)
    &&& p.constants == Option::<ConstantBlock>::None
    &&& p.descriptor_sets@.len() == 0
    &&& p.dispatch_extent == lum.desc.extent
}

/// Filter iteration `i`, over images created at indices starting at
/// `base_id` (the extracted luminance; iteration `i` reads the image at
/// `base_id + i` and writes a new image at `base_id + 1 + i`). The pixel
/// skip falls exponentially: `2^(6 - i)`, so 64 down to 1.
pub open spec fn is_atrous_pass(p: Pass, base_id: int, desc: ImageDesc, i: int) -> bool {
    let prev = Handle { id: (base_id + i) as usize, desc };
    let lum = Handle { id: base_id as usize, desc };
    let next = Handle { id: (base_id + 1 + i) as usize, desc };
    &&& p.name == (PassName::ATrous { iteration: i as u32 })
    &&& p.shader == Shader::LuminanceATrous
    &&& p.reads@.len() == 2
    &&& p.reads@[0] == whole_view(prev)
    &&& p.reads@[1] == whole_view(lum)
    &&& p.writes@.len() == 1
    &&& p.writes@[0] == whole_view(next)
    &&& p.constants == Option::Some(
        ConstantBlock::ATrous {
            width: desc.extent.width,
            height: desc.extent.height,
            px_skip: pow2((6 - i) as nat) as u32,
        },
    )
    &&& p.descriptor_sets@.len() == 0
    &&& p.dispatch_extent == desc.extent
}

/// Extract log luminance from `input`, then run the seven a-trous
/// iterations; the handle returned is the last iteration's output. Eight
/// images are created, all with the same descriptor, and eight passes are
/// emitted; every pass declared before this ran stays as it was.
pub fn edge_preserving_filter_luminance(rg: &mut RenderGraph, input: &Handle) -> (out: Handle)
    requires
        old(rg).wf(),
        old(rg).valid_handle(*input),
    ensures
        out.desc == luminance_desc(input.desc),
        out.id == old(rg).images@.len() + ATROUS_ITERATIONS,
        final(rg).images@.len() == old(rg).images@.len() + ATROUS_ITERATIONS + 1,
        forall|k: int|
            0 <= k < old(rg).images@.len() ==> final(rg).images@[k] == old(rg).images@[k],
        forall|k: int|
            0 <= k < ATROUS_ITERATIONS + 1 ==> #[trigger] final(rg).images@[old(
                rg,
            ).images@.len() + k] == luminance_desc(input.desc),
        final(rg).wf(),
        final(rg).valid_handle(out),
        forall|g: Handle| #[trigger] old(rg).valid_handle(g) ==> final(rg).valid_handle(g),
        final(rg).passes@.len() == old(rg).passes@.len() + ATROUS_ITERATIONS + 1,
        forall|i: int|
            0 <= i < old(rg).passes@.len() ==> final(rg).passes@[i] == old(rg).passes@[i],
        is_extract_pass(
            final(rg).passes@[old(rg).passes@.len() as int],
            *input,
            Handle { id: old(rg).images@.len() as usize, desc: luminance_desc(input.desc) },
        ),
        forall|i: int|
            0 <= i < ATROUS_ITERATIONS ==> is_atrous_pass(
                #[trigger] final(rg).passes@[old(rg).passes@.len() + 1 + i],
                old(rg).images@.len() as int,
                luminance_desc(input.desc),
                i,
            ),
{
    proof {
        assert(old(rg).images@[input.id as int].wf());
    }
    let filtered_desc = input.desc.with_format(ImageFormat::R16G16Sfloat);
    let lum_tex = rg.create(filtered_desc);

    PassBuilder::new_compute(PassName::LogLuminance, Shader::ExtractLogLuminance)
        .read(input)
        .write(&lum_tex)
        .dispatch(rg, filtered_desc.extent);

    let mut prev = lum_tex;
    let mut i: u32 = 0;
    while i < ATROUS_ITERATIONS
        invariant
            old(rg).wf(),
            old(rg).valid_handle(*input),
            input.id < old(rg).images@.len(),
            input.desc.wf(),
            filtered_desc == luminance_desc(input.desc),
            filtered_desc.wf(),
            0 <= i <= ATROUS_ITERATIONS,
            lum_tex.id == old(rg).images@.len(),
            lum_tex.desc == filtered_desc,
            prev.id == old(rg).images@.len() + i,
            prev.desc == filtered_desc,
            rg.images@.len() == old(rg).images@.len() + 1 + i,
            forall|k: int|
                0 <= k < old(rg).images@.len() ==> rg.images@[k] == old(rg).images@[k],
            forall|k: int|
                0 <= k < 1 + i ==> #[trigger] rg.images@[old(rg).images@.len() + k]
                    == filtered_desc,
            rg.wf(),
            rg.valid_handle(lum_tex),
            rg.valid_handle(prev),
            rg.valid_handle(*input),
            rg.passes@.len() == old(rg).passes@.len() + 1 + i,
            forall|k: int|
                0 <= k < old(rg).passes@.len() ==> rg.passes@[k] == old(rg).passes@[k],
            is_extract_pass(rg.passes@[old(rg).passes@.len() as int], *input, lum_tex),
            forall|k: int|
                0 <= k < i ==> is_atrous_pass(
                    #[trigger] rg.passes@[old(rg).passes@.len() + 1 + k],
                    old(rg).images@.len() as int,
                    filtered_desc,
                    k,
                ),
        decreases ATROUS_ITERATIONS - i,
    {
        let next = rg.create(filtered_desc);
        let px_skip = crate::mip::pow2_u32(6 - i);

        PassBuilder::new_compute(PassName::ATrous { iteration: i }, Shader::LuminanceATrous)
            .read(&prev)
            .read(&lum_tex)
            .write(&next)
            .constants(
                ConstantBlock::ATrous {
                    width: filtered_desc.extent.width,
                    height: filtered_desc.extent.height,
                    px_skip,
                },
            )
            .dispatch(rg, filtered_desc.extent);

        prev = next;
        i = i + 1;
    }
    prev
}

} // verus!
