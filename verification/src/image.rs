//! Semantic image descriptors and the transforms that derive one descriptor
//! from another: half resolution, format override, extent division, natural
//! mip-chain length, and an explicit mip-level count.

use vstd::prelude::*;
use vstd::arithmetic::power2::pow2;
use crate::mip::{div_axis, div_axis_u32, mip_chain_len, mip_count_1d};

verus! {

/// Pixel formats this post-processing stage deals in. The pyramid and the
/// combined output use the compact packed-float format; the luminance filter
/// uses a two-channel half-float format; inputs may arrive in anything.
#[derive(Clone, Copy, PartialEq, Eq, Structural, Debug)]
pub enum ImageFormat {
    R8G8B8A8Unorm,
    B10G11R11UfloatPack32,
    R16G16B16A16Sfloat,
    R16G16Sfloat,
}

/// A three-dimensional work-item or texel extent.
#[derive(Clone, Copy, PartialEq, Eq, Structural, Debug)]
pub struct Extent3 {
    pub width: u32,
    pub height: u32,
    pub depth: u32,
}

/// Semantic record of an image: resolution, pixel format and mip-level count.
#[derive(Clone, Copy, PartialEq, Eq, Structural, Debug)]
pub struct ImageDesc {
    pub extent: Extent3,
    pub format: ImageFormat,
    pub mip_levels: u32,
}

/// One axis halved with rounding up, so a 1-texel axis stays 1.
pub open spec fn half_dim(x: u32) -> u32 {
    (((x + 1) / 2) as u32)
}

impl Extent3 {
    /// Every axis has at least one texel.
    pub open spec fn wf(self) -> bool {
        self.width >= 1 && self.height >= 1 && self.depth >= 1
    }

    /// The larger of width and height, which bounds the mip chain of a
    /// two-dimensional image (depth does not contribute levels).
    pub open spec fn max_dim(self) -> nat {
        if self.width >= self.height {
            self.width as nat
        } else {
            self.height as nat
        }
    }

    /// The extent of mip level `m` of an image whose base extent is `self`:
    /// width and height divided by `2^m` with floor rounding and a minimum
    /// of 1; depth untouched.
    pub open spec fn at_mip(self, m: nat) -> Extent3 {
        Extent3 {
            width: div_axis(self.width as nat, pow2(m)) as u32,
            height: div_axis(self.height as nat, pow2(m)) as u32,
            depth: self.depth,
        }
    }
}

impl ImageDesc {
    /// A descriptor is well formed when its extent is non-degenerate and its
    /// mip-level count is at least 1 and no more than the 32 levels a `u32`
    /// resolution can ever yield.
    pub open spec fn wf(self) -> bool {
        self.extent.wf() && 1 <= self.mip_levels <= 32
    }

    /// Length of the natural (maximum possible) mip chain of this
    /// resolution.
    pub open spec fn natural_mip_count(self) -> nat {
        mip_chain_len(self.extent.max_dim())
    }

    /// Same image at half resolution (rounded up per axis, depth kept), with
    /// format and mip-level count unchanged.
    pub fn half_res(self) -> (r: ImageDesc)
        ensures
            r.extent.width == half_dim(self.extent.width),
            r.extent.height == half_dim(self.extent.height),
            r.extent.depth == self.extent.depth,
            r.format == self.format,
            r.mip_levels == self.mip_levels,
            self.extent.wf() ==> r.extent.wf(),
    {
        ImageDesc {
            extent: Extent3 {
                width: self.extent.width / 2 + self.extent.width % 2,
                height: self.extent.height / 2 + self.extent.height % 2,
                depth: self.extent.depth,
            },
            ..self
        }
    }

    /// Same image with the pixel format overridden.
    pub fn with_format(self, format: ImageFormat) -> (r: ImageDesc)
        ensures
            r == (ImageDesc { format, ..self }),
    {
        ImageDesc { format, ..self }
    }

    /// Same image with as many mip levels as its resolution allows.
    pub fn all_mip_levels(self) -> (r: ImageDesc)
        requires
            self.extent.wf(),
        ensures
            r.mip_levels == self.natural_mip_count(),
            1 <= r.mip_levels <= 32,
            r.extent == self.extent,
            r.format == self.format,
    {
        let max_dim = if self.extent.width >= self.extent.height {
            self.extent.width
        } else {
            self.extent.height
        };
        ImageDesc { mip_levels: mip_count_1d(max_dim), ..self }
    }

    /// Same image with an explicit mip-level count.
    pub fn with_mip_levels(self, mip_levels: u32) -> (r: ImageDesc)
        ensures
            r == (ImageDesc { mip_levels, ..self }),
    {
        ImageDesc { mip_levels, ..self }
    }

    /// Same image with each extent axis divided by a factor, floor-rounded,
    /// minimum one texel per axis.
    pub fn div_extent(self, div_w: u32, div_h: u32, div_d: u32) -> (r: ImageDesc)
        requires
            div_w >= 1,
            div_h >= 1,
            div_d >= 1,
        ensures
            r.extent.width == div_axis(self.extent.width as nat, div_w as nat),
            r.extent.height == div_axis(self.extent.height as nat, div_h as nat),
            r.extent.depth == div_axis(self.extent.depth as nat, div_d as nat),
            r.format == self.format,
            r.mip_levels == self.mip_levels,
    {
        ImageDesc {
            extent: Extent3 {
                width: div_axis_u32(self.extent.width, div_w),
                height: div_axis_u32(self.extent.height, div_h),
                depth: div_axis_u32(self.extent.depth, div_d),
            },
            ..self
        }
    }
}

} // verus!
