//! The per-record rewrite rules: hue classification, the light rewrite, and
//! cell scrubbing.
//!
//! Converting a color between RGB and HSV and scaling its channels are the
//! business of an outside color library working in fractional arithmetic;
//! the caller runs that conversion and hands in one candidate outcome per
//! hue class. This module holds the rules themselves: which class a hue
//! falls in, which candidate is kept, and how flags, radius and the unused
//! fourth channel are rewritten.

use vstd::prelude::*;

use crate::records::Atmosphere;
use crate::records::CellRecord;
use crate::records::CellView;
use crate::records::Color;
use crate::records::LightRecord;
use crate::records::LightView;
use crate::records::FLAG_FLICKER;
use crate::records::FLAG_FLICKER_SLOW;
use crate::records::FLAG_NEGATIVE;

verus! {

/// The IEEE-754 bit pattern of 14 degrees as a 32-bit fractional value.
pub const HUE_LOW_BITS: u32 = 0x4160_0000;

/// The IEEE-754 bit pattern of 64 degrees as a 32-bit fractional value.
pub const HUE_HIGH_BITS: u32 = 0x4280_0000;

/// Whether a hue is "colored" (warm): above 64 or below 14 degrees.
///
/// The hue is handed over as the IEEE-754 bit pattern of its value in
/// degrees, which the color library keeps in (-180, 180]. On non-negative
/// values the bit patterns order exactly as the values do, and every
/// negative value's pattern is at least 0x8000_0000, above both bounds, so
/// a hue is standard exactly when its pattern lies between the patterns of
/// 14 and 64 degrees.
pub open spec fn is_colored_hue(hue_bits: u32) -> bool {
    !(HUE_LOW_BITS <= hue_bits && hue_bits <= HUE_HIGH_BITS)
}

/// Classifies a hue as "colored" (warm) or "standard"; see [`is_colored_hue`].
pub fn classify_hue(hue_bits: u32) -> (r: bool)
    ensures
        r == is_colored_hue(hue_bits),
{
    !(HUE_LOW_BITS <= hue_bits && hue_bits <= HUE_HIGH_BITS)
}

/// One candidate outcome of the color transform: the scaled color channels
/// and the scaled radius, as the color library computed them for one class's
/// factors.
#[derive(Clone, Copy, PartialEq, Eq, Structural, Debug)]
pub struct ColorOutcome {
    pub r: u8,
    pub g: u8,
    pub b: u8,
    pub radius: u32,
}

/// A light's flags after the configured flicker handling: both flicker
/// variants cleared when flicker disabling is on.
pub open spec fn flags_after_flicker(flags: u32, disable_flicker: bool) -> u32 {
    if disable_flicker {
        flags & !(FLAG_FLICKER | FLAG_FLICKER_SLOW)
    } else {
        flags
    }
}

/// The light record the merge emits for an input light.
///
/// Flicker flags are cleared first when configured. A negative light keeps
/// its color, loses the negative flag, and has its radius forced to zero;
/// any other light takes the outcome of its hue class, with the unused
/// fourth color channel always zero.
pub open spec fn light_result(
    l: LightView,
    hue_bits: u32,
    standard: ColorOutcome,
    colored: ColorOutcome,
    disable_flicker: bool,
) -> LightView {
    let flags = flags_after_flicker(l.flags, disable_flicker);
    if flags & FLAG_NEGATIVE != 0 {
        LightView { id: l.id, color: l.color, radius: 0, flags: flags & !FLAG_NEGATIVE }
    } else {
        let o = if is_colored_hue(hue_bits) {
            colored
        } else {
            standard
        };
        LightView {
            id: l.id,
            color: Color { r: o.r, g: o.g, b: o.b, a: 0 },
            radius: o.radius,
            flags,
        }
    }
}

/// Rewrites one light record; see [`light_result`].
pub fn transform_light(
    light: &LightRecord,
    hue_bits: u32,
    standard: ColorOutcome,
    colored: ColorOutcome,
    disable_flicker: bool,
) -> (r: LightRecord)
    ensures
        r@ == light_result(light@, hue_bits, standard, colored, disable_flicker),
{
    let mut flags = light.flags;
    if disable_flicker {
        flags = flags & !(FLAG_FLICKER | FLAG_FLICKER_SLOW);
    }
    if flags & FLAG_NEGATIVE != 0 {
        LightRecord { id: light.id.clone(), color: light.color, radius: 0, flags: flags
            & !FLAG_NEGATIVE }
    } else {
        let o = if classify_hue(hue_bits) {
            colored
        } else {
            standard
        };
        LightRecord {
            id: light.id.clone(),
            color: Color { r: o.r, g: o.g, b: o.b, a: 0 },
            radius: o.radius,
            flags,
        }
    }
}

/// The cell record the merge emits for an eligible interior cell: all
/// object references dropped, the sunlight color zeroed, and the other
/// atmosphere fields kept.
pub open spec fn cell_result(c: CellView) -> CellView {
    CellView {
        id: c.id,
        interior: c.interior,
        atmosphere: match c.atmosphere {
            Some(a) => Some(
                Atmosphere {
                    fog_density_bits: a.fog_density_bits,
                    fog_color: a.fog_color,
                    ambient_color: a.ambient_color,
                    sunlight_color: Color { r: 0, g: 0, b: 0, a: 0 },
                },
            ),
            None => None,
        },
        ref_count: 0,
    }
}

/// Scrubs one cell record; see [`cell_result`].
pub fn scrub_cell(cell: &CellRecord) -> (r: CellRecord)
    ensures
        r@ == cell_result(cell@),
{
    CellRecord {
        id: cell.id.clone(),
        interior: cell.interior,
        atmosphere: match cell.atmosphere {
            Some(a) => Some(
                Atmosphere {
                    fog_density_bits: a.fog_density_bits,
                    fog_color: a.fog_color,
                    ambient_color: a.ambient_color,
                    sunlight_color: Color { r: 0, g: 0, b: 0, a: 0 },
                },
            ),
            None => None,
        },
        ref_count: 0,
    }
}

} // verus!
