//! The bloom post-processing stage: a forward blur pyramid of halved,
//! blurred mip levels; a reverse pyramid that walks back up from coarse to
//! fine, blending each forward level with the already-reconstructed coarser
//! level; and a combiner that fuses the original image with both pyramids
//! into one tone-adjusted output. Each builder is a stateless transform over
//! an externally owned graph: it creates images and appends passes, and
//! never alters a pass declared before it ran.

use vstd::prelude::*;
use vstd::arithmetic::power2::lemma2_to64;
use crate::graph::{
    BlendWeight, ConstantBlock, DescriptorSetBinding, Handle, Pass, PassBuilder, PassName,
    RenderGraph, Shader, level_view, whole_view,
};
use crate::image::{ImageDesc, ImageFormat};
use crate::mip::{levels_after_skip, skip_levels};

verus! {

/// How many of the coarsest levels of the natural chain the forward pyramid
/// leaves out, so the blur never targets a degenerate 1x1 or 2x2 level.
pub const SKIP_N_BOTTOM_MIPS: u32 = 1;

/// The descriptor of the forward pyramid built over `input`: half
/// resolution, the compact packed-float format, and one level fewer than
/// the input's natural mip chain (clamped to at least one level).
pub open spec fn blur_pyramid_desc(input: ImageDesc) -> ImageDesc {
    ImageDesc {
        extent: crate::image::Extent3 {
            width: crate::image::half_dim(input.extent.width),
            height: crate::image::half_dim(input.extent.height),
            depth: input.extent.depth,
        },
        format: ImageFormat::B10G11R11UfloatPack32,
        mip_levels: levels_after_skip(
            input.natural_mip_count(),
            SKIP_N_BOTTOM_MIPS as nat,
        ) as u32,
    }
}

/// The descriptor of the combined output: the input's shape in the compact
/// packed-float format.
pub open spec fn combine_desc(input: ImageDesc) -> ImageDesc {
    ImageDesc { format: ImageFormat::B10G11R11UfloatPack32, ..input }
}

/// Pass `j` of the forward pyramid: pass 0 reads the whole input, every
/// later pass reads the previous pyramid level; pass `j` writes pyramid
/// level `j` and dispatches at the pyramid's base extent divided by `2^j`
/// (floored, minimum 1 per axis).
pub open spec fn is_forward_pass(p: Pass, input: Handle, out: Handle, j: int) -> bool {
    &&& p.name == (PassName::Blur { target_mip: j as u32 })
    &&& p.shader == Shader::Blur
    &&& p.reads@.len() == 1
    &&& p.reads@[0] == (if j == 0 {
        whole_view(input)
    } else {
        level_view(out, (j - 1) as u32)
    })
    &&& p.writes@.len() == 1
    &&& p.writes@[0] == level_view(out, j as u32)
    &&& p.constants == Option::<ConstantBlock>::None
    &&& p.descriptor_sets@.len() == 0
    &&& p.dispatch_extent == out.desc.extent.at_mip(j as nat)
}

/// The `i`-th emitted reverse pass, whose target mip descends from
/// `mip_levels - 2` to 0: it reads forward-pyramid level `target_mip` and
/// the coarser reverse level `target_mip + 1`, writes reverse level
/// `target_mip`, and carries that level's extent and the blend weight of
/// the already-reconstructed coarser data — zero exactly when the source
/// level would be the total mip count, an equal blend otherwise.
pub open spec fn is_reverse_pass(p: Pass, in_pyramid: Handle, out: Handle, i: int) -> bool {
    let n = in_pyramid.desc.mip_levels as int;
    let t = n - 2 - i;
    &&& p.name == (PassName::RevBlur { target_mip: t as u32 })
    &&& p.shader == Shader::RevBlur
    &&& p.reads@.len() == 2
    &&& p.reads@[0] == level_view(in_pyramid, t as u32)
    &&& p.reads@[1] == level_view(out, (t + 1) as u32)
    &&& p.writes@.len() == 1
    &&& p.writes@[0] == level_view(out, t as u32)
    &&& p.constants == Option::Some(
        ConstantBlock::RevBlur {
            output_width: out.desc.extent.at_mip(t as nat).width,
            output_height: out.desc.extent.at_mip(t as nat).height,
            self_weight: if t + 1 == n {
                BlendWeight::Zero
            } else {
                BlendWeight::Half
            },
        },
    )
    &&& p.descriptor_sets@.len() == 0
    &&& p.dispatch_extent == out.desc.extent.at_mip(t as nat)
}

/// The optional inputs of the combiner, with the references resolved.
pub open spec fn deref_opt(o: Option<&Handle>) -> Option<Handle> {
    match o {
        Option::Some(h) => Option::Some(*h),
        Option::None => Option::None,
    }
}

/// The read set of the combine pass, in declaration order: the input, the
/// optional debug image, the forward pyramid, the reverse pyramid, and the
/// optional blurred-luminance image — each read whole.
pub open spec fn combine_reads(
    input: Handle,
    debug_input: Option<Handle>,
    fwd: Handle,
    rev: Handle,
    blurred_luminance: Option<Handle>,
) -> Seq<crate::graph::ImageView> {
    let s = Seq::empty().push(whole_view(input));
    let s = match debug_input {
        Option::Some(d) => s.push(whole_view(d)),
        Option::None => s,
    };
    let s = s.push(whole_view(fwd)).push(whole_view(rev));
    match blurred_luminance {
        Option::Some(l) => s.push(whole_view(l)),
        Option::None => s,
    }
}

/// The single combine pass: it reads exactly the declared inputs, writes
/// the whole output, binds the one external descriptor set at slot 1,
/// carries the output extent, the forward pyramid's mip count and the
/// exposure shift, and dispatches at the output's full extent.
pub open spec fn is_combine_pass(
    p: Pass,
    input: Handle,
    debug_input: Option<Handle>,
    blurred_luminance: Option<Handle>,
    fwd: Handle,
    rev: Handle,
    out: Handle,
    bindless_descriptor_set: u64,
    ev_shift_bits: u32,
) -> bool {
    &&& p.name == PassName::PostCombine
    &&& p.shader == Shader::PostCombine
    &&& p.reads@ == combine_reads(input, debug_input, fwd, rev, blurred_luminance)
    &&& p.writes@.len() == 1
    &&& p.writes@[0] == whole_view(out)
    &&& p.constants == Option::Some(
        ConstantBlock::Combine {
            width: out.desc.extent.width,
            height: out.desc.extent.height,
            pyramid_mip_count: fwd.desc.mip_levels,
            ev_shift_bits,
        },
    )
    &&& p.descriptor_sets@.len() == 1
    &&& p.descriptor_sets@[0] == (DescriptorSetBinding { slot: 1, raw: bindless_descriptor_set })
    &&& p.dispatch_extent == out.desc.extent
}

/// Build the forward blur pyramid of `input`: create the pyramid image and
/// emit one pass per pyramid level, each level reading only its immediate
/// predecessor — a strict linear chain. When the input's natural mip chain
/// has at most one level, the pyramid has exactly one level and only the
/// base pass is emitted.
pub fn blur_pyramid(rg: &mut RenderGraph, input: &Handle) -> (out: Handle)
    requires
        old(rg).wf(),
        old(rg).valid_handle(*input),
    ensures
        out.desc == blur_pyramid_desc(input.desc),
        out.id == old(rg).images@.len(),
        out.desc.wf(),
        1 <= out.desc.mip_levels <= 31,
        input.desc.natural_mip_count() <= 1 ==> out.desc.mip_levels == 1,
        input.desc.natural_mip_count() > 1 ==> out.desc.mip_levels == input.desc.natural_mip_count()
            - 1,
        final(rg).images@ == old(rg).images@.push(out.desc),
        final(rg).wf(),
        final(rg).valid_handle(out),
        forall|g: Handle| #[trigger] old(rg).valid_handle(g) ==> final(rg).valid_handle(g),
        final(rg).passes@.len() == old(rg).passes@.len() + out.desc.mip_levels,
        forall|i: int|
            0 <= i < old(rg).passes@.len() ==> final(rg).passes@[i] == old(rg).passes@[i],
        forall|j: int|
            0 <= j < out.desc.mip_levels ==> is_forward_pass(
                #[trigger] final(rg).passes@[old(rg).passes@.len() + j],
                *input,
                out,
                j,
            ),
{
    proof {
        assert(old(rg).images@[input.id as int].wf());
        lemma2_to64();
    }
    let full_mip_count = input.desc.all_mip_levels().mip_levels;
    let mip_levels = skip_levels(full_mip_count, SKIP_N_BOTTOM_MIPS);
    let pyramid_desc = input
        .desc
        .half_res()
        .with_format(ImageFormat::B10G11R11UfloatPack32)
        .with_mip_levels(mip_levels);
    assert(pyramid_desc == blur_pyramid_desc(input.desc));
    let output = rg.create(pyramid_desc);

    PassBuilder::new_compute(PassName::Blur { target_mip: 0 }, Shader::Blur)
        .read(input)
        .write_view(&output, 0)
        .dispatch(rg, pyramid_desc.extent);
    proof {
        assert(pyramid_desc.extent.at_mip(0) == pyramid_desc.extent);
    }

    let mut target_mip: u32 = 1;
    while target_mip < mip_levels
        invariant
            old(rg).wf(),
            old(rg).valid_handle(*input),
            input.id < old(rg).images@.len(),
            input.desc.wf(),
            1 <= target_mip <= mip_levels,
            mip_levels == pyramid_desc.mip_levels,
            1 <= mip_levels <= 31,
            pyramid_desc == blur_pyramid_desc(input.desc),
            pyramid_desc.wf(),
            output.id == old(rg).images@.len(),
            output.desc == pyramid_desc,
            rg.images@ == old(rg).images@.push(pyramid_desc),
            rg.wf(),
            rg.valid_handle(output),
            rg.valid_handle(*input),
            rg.passes@.len() == old(rg).passes@.len() + target_mip,
            forall|i: int|
                0 <= i < old(rg).passes@.len() ==> rg.passes@[i] == old(rg).passes@[i],
            forall|j: int|
                0 <= j < target_mip ==> is_forward_pass(
                    #[trigger] rg.passes@[old(rg).passes@.len() + j],
                    *input,
                    output,
                    j,
                ),
        decreases mip_levels - target_mip,
    {
        let downsample_amount = crate::mip::pow2_u32(target_mip);
        let level_desc = pyramid_desc.div_extent(downsample_amount, downsample_amount, 1);
        proof {
            assert(level_desc.extent == output.desc.extent.at_mip(target_mip as nat));
        }
        PassBuilder::new_compute(PassName::Blur { target_mip }, Shader::Blur)
            .read_view(&output, target_mip - 1)
            .write_view(&output, target_mip)
            .dispatch(rg, level_desc.extent);
        target_mip = target_mip + 1;
    }
    output
}

/// Reconstruct a full-resolution blurred image from the forward pyramid:
/// create an output with the same descriptor and walk the pyramid from the
/// coarsest-but-one level down to level 0, each pass blending the forward
/// level with the coarser reverse level produced by the pass emitted just
/// before it. The topmost reverse level is never written. The builder only
/// reads the forward pyramid: every pass declared before it ran — the
/// forward pyramid's among them — is left exactly as it was.
pub fn rev_blur_pyramid(rg: &mut RenderGraph, in_pyramid: &Handle) -> (out: Handle)
    requires
        old(rg).wf(),
        old(rg).valid_handle(*in_pyramid),
    ensures
        out.desc == in_pyramid.desc,
        out.id == old(rg).images@.len(),
        final(rg).images@ == old(rg).images@.push(out.desc),
        final(rg).wf(),
        final(rg).valid_handle(out),
        forall|g: Handle| #[trigger] old(rg).valid_handle(g) ==> final(rg).valid_handle(g),
        final(rg).passes@.len() == old(rg).passes@.len() + (in_pyramid.desc.mip_levels - 1),
        forall|i: int|
            0 <= i < old(rg).passes@.len() ==> final(rg).passes@[i] == old(rg).passes@[i],
        forall|i: int|
            0 <= i < in_pyramid.desc.mip_levels - 1 ==> is_reverse_pass(
                #[trigger] final(rg).passes@[old(rg).passes@.len() + i],
                *in_pyramid,
                out,
                i,
            ),
{
    proof {
        assert(old(rg).images@[in_pyramid.id as int].wf());
    }
    let desc = in_pyramid.desc;
    let output = rg.create(desc);
    let mip_levels = desc.mip_levels;
    let pass_total = mip_levels - 1;

    let mut i: u32 = 0;
    while i < pass_total
        invariant
            old(rg).wf(),
            old(rg).valid_handle(*in_pyramid),
            in_pyramid.id < old(rg).images@.len(),
            desc == in_pyramid.desc,
            desc.wf(),
            mip_levels == desc.mip_levels,
            pass_total == mip_levels - 1,
            0 <= i <= pass_total,
            output.id == old(rg).images@.len(),
            output.desc == desc,
            rg.images@ == old(rg).images@.push(desc),
            rg.wf(),
            rg.valid_handle(output),
            rg.valid_handle(*in_pyramid),
            rg.passes@.len() == old(rg).passes@.len() + i,
            forall|k: int|
                0 <= k < old(rg).passes@.len() ==> rg.passes@[k] == old(rg).passes@[k],
            forall|k: int|
                0 <= k < i ==> is_reverse_pass(
                    #[trigger] rg.passes@[old(rg).passes@.len() + k],
                    *in_pyramid,
                    output,
                    k,
                ),
        decreases pass_total - i,
    {
        let target_mip = mip_levels - 2 - i;
        let src_mip = target_mip + 1;
        let self_weight = if src_mip == mip_levels {
            BlendWeight::Zero
        } else {
            BlendWeight::Half
        };
        let downsample_amount = crate::mip::pow2_u32(target_mip);
        let level_desc = desc.div_extent(downsample_amount, downsample_amount, 1);
        proof {
            assert(level_desc.extent == output.desc.extent.at_mip(target_mip as nat));
        }
        PassBuilder::new_compute(PassName::RevBlur { target_mip }, Shader::RevBlur)
            .read_view(in_pyramid, target_mip)
            .read_view(&output, src_mip)
            .write_view(&output, target_mip)
            .constants(
                ConstantBlock::RevBlur {
                    output_width: level_desc.extent.width,
                    output_height: level_desc.extent.height,
                    self_weight,
                },
            )
            .dispatch(rg, level_desc.extent);
        i = i + 1;
    }
    output
}

/// Law: the reverse pyramid's passes come out in strictly descending
/// target-mip order, and the coarser level each pass reads (its second
/// read) is exactly the level written by the pass emitted immediately
/// before it; the first emitted pass reads the topmost level, which no
/// reverse pass ever writes.
pub proof fn lemma_reverse_reads_already_produced(
    passes: Seq<Pass>,
    in_pyramid: Handle,
    out: Handle,
    i: int,
)
    requires
        in_pyramid.desc.mip_levels >= 2,
        passes.len() == in_pyramid.desc.mip_levels - 1,
        forall|k: int|
            0 <= k < passes.len() ==> is_reverse_pass(#[trigger] passes[k], in_pyramid, out, k),
        0 <= i < passes.len(),
    ensures
        i >= 1 ==> passes[i].writes@[0].base_mip_level < passes[i - 1].writes@[0].base_mip_level,
        i >= 1 ==> passes[i].reads@[1] == passes[i - 1].writes@[0],
        i == 0 ==> passes[0].reads@[1].base_mip_level == in_pyramid.desc.mip_levels - 1,
        forall|k: int|
            0 <= k < passes.len() ==> (#[trigger] passes[k].writes@[0]).base_mip_level
                < in_pyramid.desc.mip_levels - 1,
{
    assert(is_reverse_pass(passes[i], in_pyramid, out, i));
    if i >= 1 {
        assert(is_reverse_pass(passes[i - 1], in_pyramid, out, i - 1));
    }
    assert forall|k: int| 0 <= k < passes.len() implies (
    #[trigger] passes[k].writes@[0]).base_mip_level < in_pyramid.desc.mip_levels - 1 by {
        assert(is_reverse_pass(passes[k], in_pyramid, out, k));
    }
}

/// Fuse the original image, the forward pyramid, the reverse pyramid and an
/// exposure shift into one full-resolution output. The two pyramids are
/// built first; then a single pass reads the input, the pyramids and the
/// optional extra inputs, binds the external bindless descriptor set, and
/// dispatches at the output's full extent.
pub fn post_process(
    rg: &mut RenderGraph,
    input: &Handle,
    debug_input: Option<&Handle>,
    blurred_luminance: Option<&Handle>,
    bindless_descriptor_set: u64,
    ev_shift_bits: u32,
) -> (out: Handle)
    requires
        old(rg).wf(),
        old(rg).valid_handle(*input),
        debug_input matches Option::Some(d) ==> old(rg).valid_handle(*d),
        blurred_luminance matches Option::Some(l) ==> old(rg).valid_handle(*l),
    ensures
        out.desc == combine_desc(input.desc),
        out.id == old(rg).images@.len() + 2,
        final(rg).images@ == old(rg).images@.push(blur_pyramid_desc(input.desc)).push(
            blur_pyramid_desc(input.desc),
        ).push(combine_desc(input.desc)),
        final(rg).wf(),
        final(rg).valid_handle(out),
        final(rg).passes@.len() == old(rg).passes@.len() + 2 * blur_pyramid_desc(
            input.desc,
        ).mip_levels,
        forall|i: int|
            0 <= i < old(rg).passes@.len() ==> final(rg).passes@[i] == old(rg).passes@[i],
        ({
            let base = old(rg).passes@.len() as int;
            let n = blur_pyramid_desc(input.desc).mip_levels as int;
            let fwd = Handle {
                id: old(rg).images@.len() as usize,
                desc: blur_pyramid_desc(input.desc),
            };
            let rev = Handle {
                id: (old(rg).images@.len() + 1) as usize,
                desc: blur_pyramid_desc(input.desc),
            };
            &&& forall|j: int|
                0 <= j < n ==> is_forward_pass(#[trigger] final(rg).passes@[base + j], *input, fwd, j)
            &&& forall|i: int|
                0 <= i < n - 1 ==> is_reverse_pass(
                    #[trigger] final(rg).passes@[base + n + i],
                    fwd,
                    rev,
                    i,
                )
            &&& is_combine_pass(
                final(rg).passes@[base + 2 * n - 1],
                *input,
                deref_opt(debug_input),
                deref_opt(blurred_luminance),
                fwd,
                rev,
                out,
                bindless_descriptor_set,
                ev_shift_bits,
            )
        }),
{
    proof {
        assert(old(rg).images@[input.id as int].wf());
    }
    let fwd = blur_pyramid(rg, input);
    let rev = rev_blur_pyramid(rg, &fwd);

    let output_desc = input.desc.with_format(ImageFormat::B10G11R11UfloatPack32);
    let output = rg.create(output_desc);
    let blur_pyramid_mip_count = fwd.desc.mip_levels;

    let mut builder = PassBuilder::new_compute(PassName::PostCombine, Shader::PostCombine).read(
        input,
    );
    if let Option::Some(d) = debug_input {
        builder = builder.read(d);
    }
    builder = builder.read(&fwd).read(&rev);
    if let Option::Some(l) = blurred_luminance {
        builder = builder.read(l);
    }
    builder
        .write(&output)
        .raw_descriptor_set(1, bindless_descriptor_set)
        .constants(
            ConstantBlock::Combine {
                width: output_desc.extent.width,
                height: output_desc.extent.height,
                pyramid_mip_count: blur_pyramid_mip_count,
                ev_shift_bits,
            },
        )
        .dispatch(rg, output_desc.extent);
    output
}

} // verus!
