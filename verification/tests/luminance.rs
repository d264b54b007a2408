use bloom_pyramid::graph::{ConstantBlock, PassName, RenderGraph, Shader};
use bloom_pyramid::image::{Extent3, ImageDesc, ImageFormat};
use bloom_pyramid::luminance::edge_preserving_filter_luminance;

#[test]
fn luminance_filter_pass_chain() {
    let mut rg = RenderGraph::new();
    let input = rg.create(ImageDesc {
        extent: Extent3 { width: 640, height: 480, depth: 1 },
        format: ImageFormat::R8G8B8A8Unorm,
        mip_levels: 1,
    });
    let out = edge_preserving_filter_luminance(&mut rg, &input);

    // one extraction pass, then seven filter iterations
    assert_eq!(rg.passes.len(), 8);
    assert_eq!(rg.images.len(), 9);
    let lum_id = input.id + 1;
    assert_eq!(out.id, lum_id + 7);
    assert_eq!(out.desc.format, ImageFormat::R16G16Sfloat);
    assert_eq!(out.desc.extent, input.desc.extent);

    let extract = &rg.passes[0];
    assert_eq!(extract.name, PassName::LogLuminance);
    assert_eq!(extract.shader, Shader::ExtractLogLuminance);
    assert_eq!(extract.reads.len(), 1);
    assert_eq!(extract.reads[0].image, input.id);
    assert_eq!(extract.writes.len(), 1);
    assert_eq!(extract.writes[0].image, lum_id);
    assert_eq!(extract.dispatch_extent, input.desc.extent);

    let expected_skip: [u32; 7] = [64, 32, 16, 8, 4, 2, 1];
    for i in 0..7usize {
        let p = &rg.passes[1 + i];
        assert_eq!(p.name, PassName::ATrous { iteration: i as u32 });
        assert_eq!(p.shader, Shader::LuminanceATrous);
        assert_eq!(p.reads.len(), 2);
        assert_eq!(p.reads[0].image, lum_id + i);
        assert_eq!(p.reads[1].image, lum_id);
        assert_eq!(p.writes.len(), 1);
        assert_eq!(p.writes[0].image, lum_id + 1 + i);
        assert_eq!(
            p.constants,
            Some(ConstantBlock::ATrous { width: 640, height: 480, px_skip: expected_skip[i] })
        );
        assert_eq!(p.dispatch_extent, input.desc.extent);
    }

    // the first iteration has no previous output yet: it reads the
    // extracted luminance through both of its reads
    assert_eq!(rg.passes[1].reads[0], rg.passes[1].reads[1]);
}
