//! Selection of the resampling kernel used by resizing.

use vstd::prelude::*;

verus! {

/// Resampling kernel for a resize.
#[derive(Clone, Copy, Debug, PartialEq, Eq, Structural)]
pub enum ResizeFilter {
    Nearest,
    Triangle,
    CatmullRom,
    Gaussian,
    Lanczos3,
}

impl ResizeFilter {
    /// The kernel that a numeric filter code selects: 0 nearest, 1 triangle,
    /// 2 Catmull-Rom, 3 Gaussian, 4 Lanczos3, and nearest for any other code.
    pub open spec fn spec_from_code(code: u32) -> ResizeFilter {
        if code == 1 {
            ResizeFilter::Triangle
        } else if code == 2 {
            ResizeFilter::CatmullRom
        } else if code == 3 {
            ResizeFilter::Gaussian
        } else if code == 4 {
            ResizeFilter::Lanczos3
        } else {
            ResizeFilter::Nearest
        }
    }

    /// Selects the kernel for a numeric filter code; an unknown code falls
    /// back to nearest rather than failing.
    pub fn from_code(code: u32) -> (r: ResizeFilter)
        ensures
            r == ResizeFilter::spec_from_code(code),
    {
        match code {
            1 => ResizeFilter::Triangle,
            2 => ResizeFilter::CatmullRom,
            3 => ResizeFilter::Gaussian,
            4 => ResizeFilter::Lanczos3,
            _ => ResizeFilter::Nearest,
        }
    }
}

/// Every code outside 0..=4 selects the same kernel as code 0.
pub proof fn law_unknown_filter_code_is_nearest(code: u32)
    requires
        code > 4,
    ensures
        ResizeFilter::spec_from_code(code) == ResizeFilter::spec_from_code(0),
{
}

} // verus!
