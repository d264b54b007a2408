use bloom_pyramid::image::{Extent3, ImageDesc, ImageFormat};
use bloom_pyramid::mip::{div_axis_u32, mip_count_1d, pow2_u32, skip_levels};

#[test]
fn mip_count_of_common_resolutions() {
    assert_eq!(mip_count_1d(1), 1);
    assert_eq!(mip_count_1d(2), 2);
    assert_eq!(mip_count_1d(3), 2);
    assert_eq!(mip_count_1d(4), 3);
    assert_eq!(mip_count_1d(960), 10);
    assert_eq!(mip_count_1d(1024), 11);
    assert_eq!(mip_count_1d(1920), 11);
    assert_eq!(mip_count_1d(u32::MAX), 32);
}

#[test]
fn skip_levels_saturates_and_clamps() {
    assert_eq!(skip_levels(11, 1), 10);
    assert_eq!(skip_levels(2, 1), 1);
    assert_eq!(skip_levels(1, 1), 1);
    assert_eq!(skip_levels(0, 1), 1);
    assert_eq!(skip_levels(3, 5), 1);
}

#[test]
fn extent_division_floors_with_minimum_one() {
    assert_eq!(div_axis_u32(960, 256), 3);
    assert_eq!(div_axis_u32(540, 256), 2);
    assert_eq!(div_axis_u32(540, 512), 1);
    assert_eq!(div_axis_u32(540, 1024), 1);
    assert_eq!(div_axis_u32(5, 1), 5);
}

#[test]
fn downsample_factors_are_powers_of_two() {
    assert_eq!(pow2_u32(0), 1);
    assert_eq!(pow2_u32(6), 64);
    assert_eq!(pow2_u32(31), 1 << 31);
}

#[test]
fn descriptor_transforms() {
    let d = ImageDesc {
        extent: Extent3 { width: 1921, height: 1, depth: 1 },
        format: ImageFormat::R8G8B8A8Unorm,
        mip_levels: 1,
    };
    let h = d.half_res();
    assert_eq!(h.extent, Extent3 { width: 961, height: 1, depth: 1 });
    assert_eq!(h.format, ImageFormat::R8G8B8A8Unorm);

    let full = ImageDesc {
        extent: Extent3 { width: 1920, height: 1080, depth: 1 },
        format: ImageFormat::R16G16B16A16Sfloat,
        mip_levels: 1,
    };
    assert_eq!(full.all_mip_levels().mip_levels, 11);
    assert_eq!(
        full.div_extent(512, 512, 1).extent,
        Extent3 { width: 3, height: 2, depth: 1 }
    );
    assert_eq!(
        full.with_format(ImageFormat::B10G11R11UfloatPack32).format,
        ImageFormat::B10G11R11UfloatPack32
    );
    assert_eq!(full.with_mip_levels(7).mip_levels, 7);
}
