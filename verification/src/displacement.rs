//! The displacement-map effect: its channel and sampling-mode enumerations
//! and its parameter struct. Unlike the authored kinds, this runtime form
//! holds a live bitmap handle rather than a static wire reference.

use vstd::prelude::*;

use crate::types::BitmapHandle;
use crate::types::Color;

verus! {

/// Which color channel of a sampled map pixel drives displacement.
#[derive(Clone, Copy, Debug, PartialEq, Eq)]
pub enum DisplacementMapFilterComponent {
    Alpha,
    Blue,
    Green,
    Red,
}

/// Sampling policy for out-of-bounds map coordinates: clamp to the map's
/// edge, substitute the filter's fixed color, leave the source pixel
/// untouched, or wrap modulo the map's dimensions.
#[derive(Clone, Copy, Debug, PartialEq, Eq)]
pub enum DisplacementMapFilterMode {
    Clamp,
    Color,
    Ignore,
    Wrap,
}

/// Parameters of the displacement-map effect. A pure parameter holder:
/// construction always succeeds, and an absent `map_bitmap` is a valid
/// steady state, not an error. `scale_x` and `scale_y` hold IEEE-754
/// single-precision bit patterns, carried through uninterpreted.
#[derive(Clone, Copy, Debug, PartialEq, Eq)]
pub struct DisplacementMapFilter {
    /// Substituted for out-of-bounds samples when `mode` is `Color`.
    pub color: Color,
    /// Small integer selector for the channel driving horizontal offset.
    pub component_x: u8,
    /// Small integer selector for the channel driving vertical offset.
    pub component_y: u8,
    /// The displacement source; absent means none is configured yet.
    pub map_bitmap: Option<BitmapHandle>,
    /// Integer offset applied before sampling the map.
    pub map_point: (i32, i32),
    /// Sampling policy for out-of-bounds coordinates.
    pub mode: DisplacementMapFilterMode,
    /// Bit pattern of the horizontal displacement multiplier.
    pub scale_x: u32,
    /// Bit pattern of the vertical displacement multiplier.
    pub scale_y: u32,
}

impl Default for DisplacementMapFilter {
    /// A safe starting state: transparent black color, the lowest-valued
    /// channel selectors, no bound map, zero offset, Wrap mode, and zero
    /// scale on both axes (the bit pattern of zero), so the effect is a
    /// practical no-op until configured.
    fn default() -> (r: Self)
        ensures
            r.color == (Color { r: 0u8, g: 0u8, b: 0u8, a: 0u8 }),
            r.component_x == 0,
            r.component_y == 0,
            r.map_bitmap is None,
            r.map_point == (0i32, 0i32),
            r.mode is Wrap,
            r.scale_x == 0,
            r.scale_y == 0,
    {
        DisplacementMapFilter {
            color: Color::from_rgba(0),
            component_x: 0,
            component_y: 0,
            map_bitmap: None,
            map_point: (0, 0),
            mode: DisplacementMapFilterMode::Wrap,
            scale_x: 0,
            scale_y: 0,
        }
    }
}

} // verus!
