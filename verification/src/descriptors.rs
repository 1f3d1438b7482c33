//! The authored (wire-format) filter descriptors: one parameter struct per
//! authored filter kind, and the closed eight-variant descriptor union that
//! the conversion into the runtime [`crate::filter::Filter`] consumes.
//!
//! Fields declared as `u32` bit patterns hold IEEE-754 single-precision
//! numbers exactly as the wire format stores them; they are carried through
//! unchanged and never interpreted here.

use vstd::prelude::*;

use crate::color_matrix::is_identity_color_matrix;
use crate::color_matrix::F32_ONE_BITS;
use crate::types::Color;
use crate::types::Fixed16;
use crate::types::Fixed8;
use crate::types::GradientRecord;

verus! {

/// Parameters of the drop-shadow effect. `flags` holds the wire flag bits
/// (inner shadow, knockout, composite source, pass count).
#[derive(Clone, Copy, Debug, PartialEq, Eq)]
pub struct DropShadowFilter {
    pub color: Color,
    pub blur_x: Fixed16,
    pub blur_y: Fixed16,
    pub angle: Fixed16,
    pub distance: Fixed16,
    pub strength: Fixed8,
    pub flags: u8,
}

/// Parameters of the blur effect. `flags` holds the wire flag bits
/// (pass count).
#[derive(Clone, Copy, Debug, PartialEq, Eq)]
pub struct BlurFilter {
    pub blur_x: Fixed16,
    pub blur_y: Fixed16,
    pub flags: u8,
}

/// Parameters of the glow effect. `flags` holds the wire flag bits
/// (inner glow, knockout, composite source, pass count).
#[derive(Clone, Copy, Debug, PartialEq, Eq)]
pub struct GlowFilter {
    pub color: Color,
    pub blur_x: Fixed16,
    pub blur_y: Fixed16,
    pub strength: Fixed8,
    pub flags: u8,
}

/// Parameters of the bevel effect. `flags` holds the wire flag bits
/// (inner shadow, knockout, composite source, on top, pass count).
#[derive(Clone, Copy, Debug, PartialEq, Eq)]
pub struct BevelFilter {
    pub shadow_color: Color,
    pub highlight_color: Color,
    pub blur_x: Fixed16,
    pub blur_y: Fixed16,
    pub angle: Fixed16,
    pub distance: Fixed16,
    pub strength: Fixed8,
    pub flags: u8,
}

/// Parameters of the gradient glow and gradient bevel effects: a gradient
/// over the blur parameters. `flags` holds the wire flag bits.
#[derive(Debug, PartialEq, Eq)]
pub struct GradientFilter {
    pub colors: Vec<GradientRecord>,
    pub blur_x: Fixed16,
    pub blur_y: Fixed16,
    pub angle: Fixed16,
    pub distance: Fixed16,
    pub strength: Fixed8,
    pub flags: u8,
}

/// Mathematical image of a [`GradientFilter`]: the gradient as a sequence.
#[verifier::ext_equal]
pub struct GradientFilterView {
    pub colors: Seq<GradientRecord>,
    pub blur_x: Fixed16,
    pub blur_y: Fixed16,
    pub angle: Fixed16,
    pub distance: Fixed16,
    pub strength: Fixed8,
    pub flags: u8,
}

impl View for GradientFilter {
    type V = GradientFilterView;

    open spec fn view(&self) -> GradientFilterView {
        GradientFilterView {
            colors: self.colors@,
            blur_x: self.blur_x,
            blur_y: self.blur_y,
            angle: self.angle,
            distance: self.distance,
            strength: self.strength,
            flags: self.flags,
        }
    }
}

impl Clone for GradientFilter {
    /// Copies every parameter; the gradient is reproduced element by element.
    fn clone(&self) -> (r: Self)
        ensures
            r@ == self@,
    {
        let r = GradientFilter {
            colors: copy_vec(&self.colors),
            blur_x: self.blur_x,
            blur_y: self.blur_y,
            angle: self.angle,
            distance: self.distance,
            strength: self.strength,
            flags: self.flags,
        };
        proof {
            assert(r@ =~= self@);
        }
        r
    }
}

/// Parameters of the convolution effect. `matrix` holds
/// `num_matrix_rows * num_matrix_cols` coefficient bit patterns in row-major
/// order; `divisor` and `bias` are bit patterns as well. `flags` holds the
/// wire flag bits (clamp, preserve alpha).
#[derive(Debug, PartialEq, Eq)]
pub struct ConvolutionFilter {
    pub num_matrix_rows: u8,
    pub num_matrix_cols: u8,
    pub matrix: Vec<u32>,
    pub divisor: u32,
    pub bias: u32,
    pub default_color: Color,
    pub flags: u8,
}

/// Mathematical image of a [`ConvolutionFilter`]: the matrix as a sequence.
#[verifier::ext_equal]
pub struct ConvolutionFilterView {
    pub num_matrix_rows: u8,
    pub num_matrix_cols: u8,
    pub matrix: Seq<u32>,
    pub divisor: u32,
    pub bias: u32,
    pub default_color: Color,
    pub flags: u8,
}

impl View for ConvolutionFilter {
    type V = ConvolutionFilterView;

    open spec fn view(&self) -> ConvolutionFilterView {
        ConvolutionFilterView {
            num_matrix_rows: self.num_matrix_rows,
            num_matrix_cols: self.num_matrix_cols,
            matrix: self.matrix@,
            divisor: self.divisor,
            bias: self.bias,
            default_color: self.default_color,
            flags: self.flags,
        }
    }
}

impl Clone for ConvolutionFilter {
    /// Copies every parameter; the coefficient matrix is reproduced element
    /// by element.
    fn clone(&self) -> (r: Self)
        ensures
            r@ == self@,
    {
        let r = ConvolutionFilter {
            num_matrix_rows: self.num_matrix_rows,
            num_matrix_cols: self.num_matrix_cols,
            matrix: copy_vec(&self.matrix),
            divisor: self.divisor,
            bias: self.bias,
            default_color: self.default_color,
            flags: self.flags,
        };
        proof {
            assert(r@ =~= self@);
        }
        r
    }
}

/// Parameters of the color-matrix effect: twenty coefficient bit patterns in
/// row-major order, one row of five per output channel (red, green, blue,
/// alpha): four channel factors and one offset.
#[derive(Clone, Copy, Debug, PartialEq, Eq)]
pub struct ColorMatrixFilter {
    pub matrix: [u32; 20],
}

impl Default for ColorMatrixFilter {
    /// The identity color matrix: every channel is scaled by one with no
    /// offset, so colors pass through unchanged.
    fn default() -> (r: Self)
        ensures
            is_identity_color_matrix(r.matrix@),
    {
        let matrix: [u32; 20] = [
            F32_ONE_BITS, 0, 0, 0, 0,
            0, F32_ONE_BITS, 0, 0, 0,
            0, 0, F32_ONE_BITS, 0, 0,
            0, 0, 0, F32_ONE_BITS, 0,
        ];
        ColorMatrixFilter { matrix }
    }
}

/// The authored filter descriptor: the closed, structurally validated
/// eight-variant union that the wire format delivers. The runtime
/// [`crate::filter::Filter`] adds two further kinds that have no authored
/// counterpart.
#[derive(Debug)]
pub enum FilterDescriptor {
    DropShadowFilter(Box<DropShadowFilter>),
    BlurFilter(Box<BlurFilter>),
    GlowFilter(Box<GlowFilter>),
    BevelFilter(Box<BevelFilter>),
    GradientGlowFilter(Box<GradientFilter>),
    ConvolutionFilter(Box<ConvolutionFilter>),
    ColorMatrixFilter(Box<ColorMatrixFilter>),
    GradientBevelFilter(Box<GradientFilter>),
}

/// Mathematical image of a [`FilterDescriptor`].
#[verifier::ext_equal]
pub enum FilterDescriptorView {
    DropShadowFilter(DropShadowFilter),
    BlurFilter(BlurFilter),
    GlowFilter(GlowFilter),
    BevelFilter(BevelFilter),
    GradientGlowFilter(GradientFilterView),
    ConvolutionFilter(ConvolutionFilterView),
    ColorMatrixFilter(ColorMatrixFilter),
    GradientBevelFilter(GradientFilterView),
}

impl View for FilterDescriptor {
    type V = FilterDescriptorView;

    open spec fn view(&self) -> FilterDescriptorView {
        match self {
            FilterDescriptor::DropShadowFilter(f) => FilterDescriptorView::DropShadowFilter(**f),
            FilterDescriptor::BlurFilter(f) => FilterDescriptorView::BlurFilter(**f),
            FilterDescriptor::GlowFilter(f) => FilterDescriptorView::GlowFilter(**f),
            FilterDescriptor::BevelFilter(f) => FilterDescriptorView::BevelFilter(**f),
            FilterDescriptor::GradientGlowFilter(f) => FilterDescriptorView::GradientGlowFilter(
                f@,
            ),
            FilterDescriptor::ConvolutionFilter(f) => FilterDescriptorView::ConvolutionFilter(f@),
            FilterDescriptor::ColorMatrixFilter(f) => FilterDescriptorView::ColorMatrixFilter(**f),
            FilterDescriptor::GradientBevelFilter(f) => FilterDescriptorView::GradientBevelFilter(
                f@,
            ),
        }
    }
}

impl Clone for FilterDescriptor {
    /// Copies the descriptor; every field of the active kind is reproduced.
    fn clone(&self) -> (r: Self)
        ensures
            r@ == self@,
    {
        match self {
            FilterDescriptor::DropShadowFilter(f) => FilterDescriptor::DropShadowFilter(
                Box::new(**f),
            ),
            FilterDescriptor::BlurFilter(f) => FilterDescriptor::BlurFilter(Box::new(**f)),
            FilterDescriptor::GlowFilter(f) => FilterDescriptor::GlowFilter(Box::new(**f)),
            FilterDescriptor::BevelFilter(f) => FilterDescriptor::BevelFilter(Box::new(**f)),
            FilterDescriptor::GradientGlowFilter(f) => FilterDescriptor::GradientGlowFilter(
                Box::new((**f).clone()),
            ),
            FilterDescriptor::ConvolutionFilter(f) => FilterDescriptor::ConvolutionFilter(
                Box::new((**f).clone()),
            ),
            FilterDescriptor::ColorMatrixFilter(f) => FilterDescriptor::ColorMatrixFilter(
                Box::new(**f),
            ),
            FilterDescriptor::GradientBevelFilter(f) => FilterDescriptor::GradientBevelFilter(
                Box::new((**f).clone()),
            ),
        }
    }
}

/// Reproduces a vector of plain copyable values element by element.
pub(crate) fn copy_vec<T: Copy>(v: &Vec<T>) -> (r: Vec<T>)
    ensures
        r@ == v@,
{
    let mut r: Vec<T> = Vec::new();
    let mut i: usize = 0;
    while i < v.len()
        invariant
            i <= v.len(),
            r.len() == i,
            forall|j: int| 0 <= j < i ==> r@[j] == v@[j],
        decreases v.len() - i,
    {
        r.push(v[i]);
        i = i + 1;
    }
    proof {
        assert(r@ =~= v@);
    }
    r
}

} // verus!
