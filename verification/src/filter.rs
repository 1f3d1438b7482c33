//! The top-level tagged filter union and the lossless conversion from an
//! authored wire-format descriptor into it.

use vstd::prelude::*;

use crate::color_matrix::is_identity_color_matrix;
use crate::descriptors::BevelFilter;
use crate::descriptors::BlurFilter;
use crate::descriptors::ColorMatrixFilter;
use crate::descriptors::ConvolutionFilter;
use crate::descriptors::ConvolutionFilterView;
use crate::descriptors::DropShadowFilter;
use crate::descriptors::FilterDescriptor;
use crate::descriptors::FilterDescriptorView;
use crate::descriptors::GlowFilter;
use crate::descriptors::GradientFilter;
use crate::descriptors::GradientFilterView;
use crate::displacement::DisplacementMapFilter;
use crate::shader::ShaderFilter;
use crate::shader::ShaderFilterView;
use crate::shader::ShaderObject;

verus! {

/// The runtime filter: a closed tagged union with exactly one kind active.
/// Nine kinds wrap a kind-specific parameter value; the tenth,
/// [`ShaderFilter`], is runtime-only. The kinds share no behavior, so
/// consumers must distinguish them exhaustively.
#[derive(Debug)]
pub enum Filter<S: ShaderObject> {
    BevelFilter(BevelFilter),
    BlurFilter(BlurFilter),
    ColorMatrixFilter(ColorMatrixFilter),
    ConvolutionFilter(ConvolutionFilter),
    DisplacementMapFilter(DisplacementMapFilter),
    DropShadowFilter(DropShadowFilter),
    GlowFilter(GlowFilter),
    GradientBevelFilter(GradientFilter),
    GradientGlowFilter(GradientFilter),
    ShaderFilter(ShaderFilter<S>),
}

/// Mathematical image of a [`Filter`].
#[verifier::ext_equal]
pub enum FilterView {
    BevelFilter(BevelFilter),
    BlurFilter(BlurFilter),
    ColorMatrixFilter(ColorMatrixFilter),
    ConvolutionFilter(ConvolutionFilterView),
    DisplacementMapFilter(DisplacementMapFilter),
    DropShadowFilter(DropShadowFilter),
    GlowFilter(GlowFilter),
    GradientBevelFilter(GradientFilterView),
    GradientGlowFilter(GradientFilterView),
    ShaderFilter(ShaderFilterView),
}

impl<S: ShaderObject> View for Filter<S> {
    type V = FilterView;

    open spec fn view(&self) -> FilterView {
        match self {
            Filter::BevelFilter(f) => FilterView::BevelFilter(*f),
            Filter::BlurFilter(f) => FilterView::BlurFilter(*f),
            Filter::ColorMatrixFilter(f) => FilterView::ColorMatrixFilter(*f),
            Filter::ConvolutionFilter(f) => FilterView::ConvolutionFilter(f@),
            Filter::DisplacementMapFilter(f) => FilterView::DisplacementMapFilter(*f),
            Filter::DropShadowFilter(f) => FilterView::DropShadowFilter(*f),
            Filter::GlowFilter(f) => FilterView::GlowFilter(*f),
            Filter::GradientBevelFilter(f) => FilterView::GradientBevelFilter(f@),
            Filter::GradientGlowFilter(f) => FilterView::GradientGlowFilter(f@),
            Filter::ShaderFilter(f) => FilterView::ShaderFilter(f@),
        }
    }
}

/// The runtime filter that an authored descriptor denotes: the variant of
/// the same kind, holding the descriptor's payload unchanged.
pub open spec fn converted_filter<S: ShaderObject>(d: FilterDescriptor) -> Filter<S> {
    match d {
        FilterDescriptor::DropShadowFilter(f) => Filter::DropShadowFilter(*f),
        FilterDescriptor::BlurFilter(f) => Filter::BlurFilter(*f),
        FilterDescriptor::GlowFilter(f) => Filter::GlowFilter(*f),
        FilterDescriptor::BevelFilter(f) => Filter::BevelFilter(*f),
        FilterDescriptor::GradientGlowFilter(f) => Filter::GradientGlowFilter(*f),
        FilterDescriptor::ConvolutionFilter(f) => Filter::ConvolutionFilter(*f),
        FilterDescriptor::ColorMatrixFilter(f) => Filter::ColorMatrixFilter(*f),
        FilterDescriptor::GradientBevelFilter(f) => Filter::GradientBevelFilter(*f),
    }
}

/// View-level image of the conversion: the variant of the same kind,
/// holding the image of the descriptor's payload unchanged.
pub open spec fn converted_filter_view(d: FilterDescriptorView) -> FilterView {
    match d {
        FilterDescriptorView::DropShadowFilter(f) => FilterView::DropShadowFilter(f),
        FilterDescriptorView::BlurFilter(f) => FilterView::BlurFilter(f),
        FilterDescriptorView::GlowFilter(f) => FilterView::GlowFilter(f),
        FilterDescriptorView::BevelFilter(f) => FilterView::BevelFilter(f),
        FilterDescriptorView::GradientGlowFilter(f) => FilterView::GradientGlowFilter(f),
        FilterDescriptorView::ConvolutionFilter(f) => FilterView::ConvolutionFilter(f),
        FilterDescriptorView::ColorMatrixFilter(f) => FilterView::ColorMatrixFilter(f),
        FilterDescriptorView::GradientBevelFilter(f) => FilterView::GradientBevelFilter(f),
    }
}

/// The by-value conversion agrees with its view-level image.
proof fn lemma_converted_filter_view<S: ShaderObject>(d: FilterDescriptor)
    ensures
        converted_filter::<S>(d)@ == converted_filter_view(d@),
{
}

impl<S: ShaderObject> Filter<S> {
    /// Conversion from a borrowed descriptor, for callers that keep the
    /// authored form: reproduces the payload and converts it, so the result
    /// is the variant of the same kind with the payload's image unchanged.
    pub fn from_descriptor(d: &FilterDescriptor) -> (r: Filter<S>)
        ensures
            r@ == converted_filter_view(d@),
    {
        let own = d.clone();
        proof {
            lemma_converted_filter_view::<S>(own);
        }
        Filter::from(own)
    }
}

impl<S: ShaderObject> vstd::std_specs::convert::FromSpecImpl<FilterDescriptor> for Filter<S> {
    open spec fn obeys_from_spec() -> bool {
        true
    }

    open spec fn from_spec(v: FilterDescriptor) -> Self {
        converted_filter(v)
    }
}

impl<S: ShaderObject> From<FilterDescriptor> for Filter<S> {
    /// Conversion from the authored descriptor: one arm per authored kind,
    /// total — no arm can fail, since the descriptor's eight kinds are
    /// closed and already structurally validated — and lossless, the
    /// payload moved into the runtime variant field for field.
    fn from(value: FilterDescriptor) -> (r: Self) {
        match value {
            FilterDescriptor::DropShadowFilter(f) => Filter::DropShadowFilter(*f),
            FilterDescriptor::BlurFilter(f) => Filter::BlurFilter(*f),
            FilterDescriptor::GlowFilter(f) => Filter::GlowFilter(*f),
            FilterDescriptor::BevelFilter(f) => Filter::BevelFilter(*f),
            FilterDescriptor::GradientGlowFilter(f) => Filter::GradientGlowFilter(*f),
            FilterDescriptor::ConvolutionFilter(f) => Filter::ConvolutionFilter(*f),
            FilterDescriptor::ColorMatrixFilter(f) => Filter::ColorMatrixFilter(*f),
            FilterDescriptor::GradientBevelFilter(f) => Filter::GradientBevelFilter(*f),
        }
    }
}

impl<S: ShaderObject> Default for Filter<S> {
    /// The default filter is a color-matrix filter holding the identity
    /// matrix — the cheapest filter that provably has no visible effect —
    /// so it is a safe placeholder wherever a dummy filter is needed.
    fn default() -> (r: Self)
        ensures
            r matches Filter::ColorMatrixFilter(f) && is_identity_color_matrix(f.matrix@),
    {
        Filter::ColorMatrixFilter(ColorMatrixFilter::default())
    }
}

impl<S: ShaderObject> Clone for Filter<S> {
    /// Copies the filter: the active kind and every field of its payload
    /// are preserved. A shader filter's script object is copied through
    /// its own clone capability, never aliased.
    fn clone(&self) -> (r: Self)
        ensures
            r@ == self@,
    {
        match self {
            Filter::BevelFilter(f) => Filter::BevelFilter(*f),
            Filter::BlurFilter(f) => Filter::BlurFilter(*f),
            Filter::ColorMatrixFilter(f) => Filter::ColorMatrixFilter(*f),
            Filter::ConvolutionFilter(f) => Filter::ConvolutionFilter(f.clone()),
            Filter::DisplacementMapFilter(f) => Filter::DisplacementMapFilter(*f),
            Filter::DropShadowFilter(f) => Filter::DropShadowFilter(*f),
            Filter::GlowFilter(f) => Filter::GlowFilter(*f),
            Filter::GradientBevelFilter(f) => Filter::GradientBevelFilter(f.clone()),
            Filter::GradientGlowFilter(f) => Filter::GradientGlowFilter(f.clone()),
            Filter::ShaderFilter(f) => Filter::ShaderFilter(f.clone()),
        }
    }
}

/// Law: the conversion from an authored descriptor is total — every one of
/// the eight authored kinds is converted — and lossless: the result is the
/// runtime variant of the same kind holding the descriptor's payload
/// unchanged, field for field.
pub proof fn lemma_conversion_total_and_lossless<S: ShaderObject>(d: FilterDescriptor)
    ensures
        match d {
            FilterDescriptor::DropShadowFilter(f) => converted_filter::<S>(d)
                == Filter::<S>::DropShadowFilter(*f),
            FilterDescriptor::BlurFilter(f) => converted_filter::<S>(d) == Filter::<
                S,
            >::BlurFilter(*f),
            FilterDescriptor::GlowFilter(f) => converted_filter::<S>(d) == Filter::<
                S,
            >::GlowFilter(*f),
            FilterDescriptor::BevelFilter(f) => converted_filter::<S>(d) == Filter::<
                S,
            >::BevelFilter(*f),
            FilterDescriptor::GradientGlowFilter(f) => converted_filter::<S>(d) == Filter::<
                S,
            >::GradientGlowFilter(*f),
            FilterDescriptor::ConvolutionFilter(f) => converted_filter::<S>(d) == Filter::<
                S,
            >::ConvolutionFilter(*f),
            FilterDescriptor::ColorMatrixFilter(f) => converted_filter::<S>(d) == Filter::<
                S,
            >::ColorMatrixFilter(*f),
            FilterDescriptor::GradientBevelFilter(f) => converted_filter::<S>(d) == Filter::<
                S,
            >::GradientBevelFilter(*f),
        },
{
}

} // verus!
