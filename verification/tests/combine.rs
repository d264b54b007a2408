use bloom_pyramid::graph::{ConstantBlock, PassName, RenderGraph, Shader};
use bloom_pyramid::image::{Extent3, ImageDesc, ImageFormat};
use bloom_pyramid::post::post_process;

fn input_desc(width: u32, height: u32) -> ImageDesc {
    ImageDesc {
        extent: Extent3 { width, height, depth: 1 },
        format: ImageFormat::R16G16B16A16Sfloat,
        mip_levels: 1,
    }
}

#[test]
fn combiner_emits_one_pass_reading_three_images() {
    let mut rg = RenderGraph::new();
    let input = rg.create(input_desc(1920, 1080));
    let ev_shift_bits = 0.5f32.to_bits();
    let out = post_process(&mut rg, &input, None, None, 0xABCD, ev_shift_bits);

    // forward pyramid: 10 passes; reverse pyramid: 9; combiner: exactly 1
    assert_eq!(rg.passes.len(), 20);
    assert_eq!(rg.images.len(), 4);
    let fwd_id = input.id + 1;
    let rev_id = input.id + 2;
    assert_eq!(out.id, input.id + 3);
    assert_eq!(out.desc.extent, input.desc.extent);
    assert_eq!(out.desc.format, ImageFormat::B10G11R11UfloatPack32);

    let p = &rg.passes[19];
    assert_eq!(p.name, PassName::PostCombine);
    assert_eq!(p.shader, Shader::PostCombine);
    assert_eq!(p.reads.len(), 3);
    assert_eq!(p.reads[0].image, input.id);
    assert_eq!(p.reads[1].image, fwd_id);
    assert_eq!(p.reads[1].level_count, 10);
    assert_eq!(p.reads[2].image, rev_id);
    assert_eq!(p.reads[2].level_count, 10);
    assert_eq!(p.writes.len(), 1);
    assert_eq!(p.writes[0].image, out.id);
    assert_eq!(p.descriptor_sets.len(), 1);
    assert_eq!(p.descriptor_sets[0].slot, 1);
    assert_eq!(p.descriptor_sets[0].raw, 0xABCD);
    assert_eq!(
        p.constants,
        Some(ConstantBlock::Combine {
            width: 1920,
            height: 1080,
            pyramid_mip_count: 10,
            ev_shift_bits,
        })
    );
    // dispatched at the input's full extent
    assert_eq!(p.dispatch_extent, input.desc.extent);
}

#[test]
fn combiner_reads_optional_inputs_in_order() {
    let mut rg = RenderGraph::new();
    let input = rg.create(input_desc(640, 360));
    let debug = rg.create(input_desc(640, 360));
    let lum = rg.create(ImageDesc {
        format: ImageFormat::R16G16Sfloat,
        ..input_desc(640, 360)
    });
    let out = post_process(&mut rg, &input, Some(&debug), Some(&lum), 7, 0);

    let p = rg.passes.last().expect("combine pass missing");
    assert_eq!(p.reads.len(), 5);
    assert_eq!(p.reads[0].image, input.id);
    assert_eq!(p.reads[1].image, debug.id);
    assert_eq!(p.reads[2].image, lum.id + 1); // forward pyramid
    assert_eq!(p.reads[3].image, lum.id + 2); // reverse pyramid
    assert_eq!(p.reads[4].image, lum.id);
    assert_eq!(p.writes[0].image, out.id);
}

#[test]
fn combiner_on_degenerate_input() {
    let mut rg = RenderGraph::new();
    let input = rg.create(input_desc(1, 1));
    let _out = post_process(&mut rg, &input, None, None, 0, 0);
    // a single-level pyramid: one forward pass, no reverse pass, one combine
    assert_eq!(rg.passes.len(), 2);
    let p = &rg.passes[1];
    assert_eq!(p.name, PassName::PostCombine);
    match p.constants {
        Some(ConstantBlock::Combine { pyramid_mip_count, .. }) => {
            assert_eq!(pyramid_mip_count, 1)
        }
        _ => panic!("combine pass without its constant payload"),
    }
}
