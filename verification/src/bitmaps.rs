//! The samplers that bitmaps are drawn with.
//!
//! A bitmap fill either repeats or is clamped at its edges, along each axis,
//! and is read either smoothed or pixel by pixel. Each combination that the
//! renderer uses is described once; the device makes a sampler from each
//! description, and the sampler for a bitmap is picked among them.

use vstd::prelude::*;

verus! {

/// What a sampler gives for a coordinate outside the bitmap.
#[derive(Clone, Copy, Debug, PartialEq, Eq, Structural)]
pub enum AddressMode {
    /// The colour at the nearest edge.
    ClampToEdge,
    /// The bitmap again.
    Repeat,
}

/// How a sampler reads between pixels.
#[derive(Clone, Copy, Debug, PartialEq, Eq, Structural)]
pub enum FilterMode {
    /// The nearest pixel.
    Nearest,
    /// A blend of the pixels around.
    Linear,
}

/// The description of one sampler.
#[derive(Clone, Copy, Debug, PartialEq, Eq)]
pub struct Sampler {
    pub label: &'static str,
    pub address_mode_u: AddressMode,
    pub address_mode_v: AddressMode,
    pub address_mode_w: AddressMode,
    pub mag_filter: FilterMode,
    pub min_filter: FilterMode,
    pub mipmap_filter: FilterMode,
    /// The lowest level of detail that is used.
    pub lod_min_clamp: u8,
    /// The highest level of detail that is used.
    pub lod_max_clamp: u8,
}

/// The description of the sampler with the given behaviour along the two axes
/// of a bitmap and the given filter. The third axis repeats, one filter serves
/// for enlarging, shrinking and between mip levels, and the levels of detail
/// from 0 to 100 are used.
pub open spec fn described(
    address_mode_u: AddressMode,
    address_mode_v: AddressMode,
    filter: FilterMode,
    label: &'static str,
) -> Sampler {
    Sampler {
        label,
        address_mode_u,
        address_mode_v,
        address_mode_w: AddressMode::Repeat,
        mag_filter: filter,
        min_filter: filter,
        mipmap_filter: filter,
        lod_min_clamp: 0,
        lod_max_clamp: 100,
    }
}

/// Describes the sampler with the given behaviour along the two axes of a
/// bitmap and the given filter.
pub fn create_sampler(
    address_mode_u: AddressMode,
    address_mode_v: AddressMode,
    filter: FilterMode,
    sampler_label: &'static str,
) -> (sampler: Sampler)
    ensures
        sampler == described(address_mode_u, address_mode_v, filter, sampler_label),
{
    Sampler {
        label: sampler_label,
        address_mode_u,
        address_mode_v,
        address_mode_w: AddressMode::Repeat,
        mag_filter: filter,
        min_filter: filter,
        mipmap_filter: filter,
        lod_min_clamp: 0,
        lod_max_clamp: 100,
    }
}

/// The samplers of the renderer, one for each way of drawing a bitmap: as
/// descriptions, or as what a device has made of them.
#[derive(Debug)]
pub struct BitmapSamplers<S> {
    pub repeat_linear: S,
    pub repeat_nearest: S,
    pub clamp_linear: S,
    pub clamp_nearest: S,
    pub clamp_u_repeat_v_linear: S,
    pub clamp_u_repeat_v_nearest: S,
    pub repeat_u_clamp_v_linear: S,
    pub repeat_u_clamp_v_nearest: S,
}

impl BitmapSamplers<Sampler> {
    /// Each sampler is the one its name says.
    pub open spec fn wf(&self) -> bool {
        &&& self.repeat_linear == described(
            AddressMode::Repeat,
            AddressMode::Repeat,
            FilterMode::Linear,
            "Repeat & Linear sampler",
        )
        &&& self.repeat_nearest == described(
            AddressMode::Repeat,
            AddressMode::Repeat,
            FilterMode::Nearest,
            "Repeat & Nearest sampler",
        )
        &&& self.clamp_linear == described(
            AddressMode::ClampToEdge,
            AddressMode::ClampToEdge,
            FilterMode::Linear,
            "Clamp & Linear sampler",
        )
        &&& self.clamp_nearest == described(
            AddressMode::ClampToEdge,
            AddressMode::ClampToEdge,
            FilterMode::Nearest,
            "Clamp & Nearest sampler",
        )
        &&& self.clamp_u_repeat_v_linear == described(
            AddressMode::ClampToEdge,
            AddressMode::Repeat,
            FilterMode::Linear,
            "Clamp U, Repeat V & Linear sampler",
        )
        &&& self.clamp_u_repeat_v_nearest == described(
            AddressMode::ClampToEdge,
            AddressMode::Repeat,
            FilterMode::Nearest,
            "Clamp U, Repeat V & Nearest sampler",
        )
        &&& self.repeat_u_clamp_v_linear == described(
            AddressMode::Repeat,
            AddressMode::ClampToEdge,
            FilterMode::Linear,
            "Repeat U, Clamp V & Linear sampler",
        )
        &&& self.repeat_u_clamp_v_nearest == described(
            AddressMode::Repeat,
            AddressMode::ClampToEdge,
            FilterMode::Nearest,
            "Repeat U, Clamp V & Nearest sampler",
        )
    }

    /// Describes all the samplers.
    pub fn new() -> (samplers: BitmapSamplers<Sampler>)
        ensures
            samplers.wf(),
    {
        let repeat_linear = create_sampler(
            AddressMode::Repeat,
            AddressMode::Repeat,
            FilterMode::Linear,
            "Repeat & Linear sampler",
        );
        let repeat_nearest = create_sampler(
            AddressMode::Repeat,
            AddressMode::Repeat,
            FilterMode::Nearest,
            "Repeat & Nearest sampler",
        );
        let clamp_linear = create_sampler(
            AddressMode::ClampToEdge,
            AddressMode::ClampToEdge,
            FilterMode::Linear,
            "Clamp & Linear sampler",
        );
        let clamp_nearest = create_sampler(
            AddressMode::ClampToEdge,
            AddressMode::ClampToEdge,
            FilterMode::Nearest,
            "Clamp & Nearest sampler",
        );
        let clamp_u_repeat_v_linear = create_sampler(
            AddressMode::ClampToEdge,
            AddressMode::Repeat,
            FilterMode::Linear,
            "Clamp U, Repeat V & Linear sampler",
        );
        let clamp_u_repeat_v_nearest = create_sampler(
            AddressMode::ClampToEdge,
            AddressMode::Repeat,
            FilterMode::Nearest,
            "Clamp U, Repeat V & Nearest sampler",
        );
        let repeat_u_clamp_v_linear = create_sampler(
            AddressMode::Repeat,
            AddressMode::ClampToEdge,
            FilterMode::Linear,
            "Repeat U, Clamp V & Linear sampler",
        );
        let repeat_u_clamp_v_nearest = create_sampler(
            AddressMode::Repeat,
            AddressMode::ClampToEdge,
            FilterMode::Nearest,
            "Repeat U, Clamp V & Nearest sampler",
        );
        BitmapSamplers {
            repeat_linear,
            repeat_nearest,
            clamp_linear,
            clamp_nearest,
            clamp_u_repeat_v_linear,
            clamp_u_repeat_v_nearest,
            repeat_u_clamp_v_linear,
            repeat_u_clamp_v_nearest,
        }
    }

}

impl<S> BitmapSamplers<S> {
    /// The sampler for a bitmap that repeats along both axes or along none,
    /// smoothed or not.
    pub fn get_sampler(&self, is_repeating: bool, is_smoothed: bool) -> (sampler: &S)
        ensures
            *sampler == if is_repeating {
                if is_smoothed {
                    self.repeat_linear
                } else {
                    self.repeat_nearest
                }
            } else {
                if is_smoothed {
                    self.clamp_linear
                } else {
                    self.clamp_nearest
                }
            },
    {
        match (is_repeating, is_smoothed) {
            (true, true) => &self.repeat_linear,
            (true, false) => &self.repeat_nearest,
            (false, true) => &self.clamp_linear,
            (false, false) => &self.clamp_nearest,
        }
    }
}

/// Among the described samplers, the one for a bitmap repeats exactly where
/// the bitmap does, along both axes, and blends exactly where the bitmap is
/// smoothed.
pub proof fn lemma_sampler_fits(
    samplers: BitmapSamplers<Sampler>,
    is_repeating: bool,
    is_smoothed: bool,
)
    requires
        samplers.wf(),
    ensures
        ({
            let sampler = if is_repeating {
                if is_smoothed {
                    samplers.repeat_linear
                } else {
                    samplers.repeat_nearest
                }
            } else {
                if is_smoothed {
                    samplers.clamp_linear
                } else {
                    samplers.clamp_nearest
                }
            };
            &&& sampler.address_mode_u == sampler.address_mode_v
            &&& (sampler.address_mode_u == AddressMode::Repeat) == is_repeating
            &&& (sampler.mag_filter == FilterMode::Linear) == is_smoothed
            &&& sampler.min_filter == sampler.mag_filter
        }),
{
}

} // verus!
