//! Behavioral tests for the filter data model: conversion from authored
//! descriptors, defaults, cloning, and shader-object narrowing.

use render_filters::color_matrix::F32_ONE_BITS;
use render_filters::descriptors::BevelFilter;
use render_filters::descriptors::BlurFilter;
use render_filters::descriptors::ColorMatrixFilter;
use render_filters::descriptors::ConvolutionFilter;
use render_filters::descriptors::DropShadowFilter;
use render_filters::descriptors::FilterDescriptor;
use render_filters::descriptors::GlowFilter;
use render_filters::descriptors::GradientFilter;
use render_filters::displacement::DisplacementMapFilter;
use render_filters::displacement::DisplacementMapFilterComponent;
use render_filters::displacement::DisplacementMapFilterMode;
use render_filters::filter::Filter;
use render_filters::shader::downcast_shader_object;
use render_filters::shader::OpaqueShaderObject;
use render_filters::shader::ShaderArgument;
use render_filters::shader::ShaderFilter;
use render_filters::types::BitmapHandle;
use render_filters::types::Color;
use render_filters::types::Fixed16;
use render_filters::types::Fixed8;
use render_filters::types::GradientRecord;
use render_filters::types::ShaderHandle;

type RuntimeFilter = Filter<OpaqueShaderObject>;

fn sample_color() -> Color {
    Color {
        r: 0x12,
        g: 0x34,
        b: 0x56,
        a: 0x78,
    }
}

#[test]
fn color_from_rgba_unpacks_argb_word() {
    let c = Color::from_rgba(0xFFAABBCC);
    assert_eq!(c.a, 0xFF);
    assert_eq!(c.r, 0xAA);
    assert_eq!(c.g, 0xBB);
    assert_eq!(c.b, 0xCC);
    let zero = Color::from_rgba(0);
    assert_eq!(
        zero,
        Color {
            r: 0,
            g: 0,
            b: 0,
            a: 0
        }
    );
}

#[test]
fn convert_drop_shadow_preserves_fields() {
    let original = DropShadowFilter {
        color: sample_color(),
        blur_x: Fixed16 { bits: 5 << 16 },
        blur_y: Fixed16 { bits: -3 },
        angle: Fixed16 { bits: 123456 },
        distance: Fixed16 { bits: -654321 },
        strength: Fixed8 { bits: 0x0180 },
        flags: 0b1010_0011,
    };
    let descriptor = FilterDescriptor::DropShadowFilter(Box::new(original));
    match RuntimeFilter::from(descriptor) {
        Filter::DropShadowFilter(f) => assert_eq!(f, original),
        _ => panic!("conversion changed the filter kind"),
    }
}

#[test]
fn convert_blur_preserves_fields() {
    let original = BlurFilter {
        blur_x: Fixed16 { bits: 0x0001_8000 },
        blur_y: Fixed16 { bits: 0x0000_8000 },
        flags: 3 << 3,
    };
    let descriptor = FilterDescriptor::BlurFilter(Box::new(original));
    match RuntimeFilter::from(descriptor) {
        Filter::BlurFilter(f) => assert_eq!(f, original),
        _ => panic!("conversion changed the filter kind"),
    }
}

#[test]
fn convert_glow_preserves_fields() {
    let original = GlowFilter {
        color: Color {
            r: 1,
            g: 2,
            b: 3,
            a: 4,
        },
        blur_x: Fixed16 { bits: 77 },
        blur_y: Fixed16 { bits: -77 },
        strength: Fixed8 { bits: -128 },
        flags: 0b1110_0001,
    };
    let descriptor = FilterDescriptor::GlowFilter(Box::new(original));
    match RuntimeFilter::from(descriptor) {
        Filter::GlowFilter(f) => assert_eq!(f, original),
        _ => panic!("conversion changed the filter kind"),
    }
}

#[test]
fn convert_bevel_preserves_fields() {
    let original = BevelFilter {
        shadow_color: sample_color(),
        highlight_color: Color {
            r: 0xFF,
            g: 0xFF,
            b: 0xFF,
            a: 0xFF,
        },
        blur_x: Fixed16 { bits: 1 },
        blur_y: Fixed16 { bits: 2 },
        angle: Fixed16 { bits: 3 },
        distance: Fixed16 { bits: 4 },
        strength: Fixed8 { bits: 5 },
        flags: 0b1001_0101,
    };
    let descriptor = FilterDescriptor::BevelFilter(Box::new(original));
    match RuntimeFilter::from(descriptor) {
        Filter::BevelFilter(f) => assert_eq!(f, original),
        _ => panic!("conversion changed the filter kind"),
    }
}

fn sample_gradient() -> GradientFilter {
    GradientFilter {
        colors: vec![
            GradientRecord {
                ratio: 0,
                color: Color {
                    r: 9,
                    g: 8,
                    b: 7,
                    a: 6,
                },
            },
            GradientRecord {
                ratio: 128,
                color: sample_color(),
            },
            GradientRecord {
                ratio: 255,
                color: Color {
                    r: 0,
                    g: 0,
                    b: 0,
                    a: 255,
                },
            },
        ],
        blur_x: Fixed16 { bits: 10 },
        blur_y: Fixed16 { bits: 20 },
        angle: Fixed16 { bits: -30 },
        distance: Fixed16 { bits: 40 },
        strength: Fixed8 { bits: -50 },
        flags: 0b0101_0110,
    }
}

#[test]
fn convert_gradient_glow_preserves_fields_and_order() {
    let original = sample_gradient();
    let descriptor = FilterDescriptor::GradientGlowFilter(Box::new(original.clone()));
    match RuntimeFilter::from(descriptor) {
        Filter::GradientGlowFilter(f) => assert_eq!(f, original),
        _ => panic!("conversion changed the filter kind"),
    }
}

#[test]
fn convert_gradient_bevel_preserves_fields_and_order() {
    let original = sample_gradient();
    let descriptor = FilterDescriptor::GradientBevelFilter(Box::new(original.clone()));
    match RuntimeFilter::from(descriptor) {
        Filter::GradientBevelFilter(f) => assert_eq!(f, original),
        _ => panic!("conversion changed the filter kind"),
    }
}

#[test]
fn convert_convolution_preserves_fields() {
    let original = ConvolutionFilter {
        num_matrix_rows: 2,
        num_matrix_cols: 3,
        matrix: vec![
            1.0f32.to_bits(),
            (-2.5f32).to_bits(),
            0.0f32.to_bits(),
            3.25f32.to_bits(),
            4.0f32.to_bits(),
            5.5f32.to_bits(),
        ],
        divisor: 2.0f32.to_bits(),
        bias: (-1.0f32).to_bits(),
        default_color: sample_color(),
        flags: 0b11,
    };
    let descriptor = FilterDescriptor::ConvolutionFilter(Box::new(original.clone()));
    match RuntimeFilter::from(descriptor) {
        Filter::ConvolutionFilter(f) => assert_eq!(f, original),
        _ => panic!("conversion changed the filter kind"),
    }
}

#[test]
fn convert_color_matrix_preserves_fields() {
    let mut matrix = [0u32; 20];
    for (i, entry) in matrix.iter_mut().enumerate() {
        *entry = (i as f32 * 0.25 - 1.5).to_bits();
    }
    let original = ColorMatrixFilter { matrix };
    let descriptor = FilterDescriptor::ColorMatrixFilter(Box::new(original));
    match RuntimeFilter::from(descriptor) {
        Filter::ColorMatrixFilter(f) => assert_eq!(f, original),
        _ => panic!("conversion changed the filter kind"),
    }
}

#[test]
fn from_descriptor_borrows_and_preserves_fields() {
    let original = sample_gradient();
    let descriptor = FilterDescriptor::GradientBevelFilter(Box::new(original.clone()));
    let converted: RuntimeFilter = Filter::from_descriptor(&descriptor);
    match (converted, descriptor) {
        (Filter::GradientBevelFilter(a), FilterDescriptor::GradientBevelFilter(b)) => {
            assert_eq!(a, *b);
            assert_eq!(a, original);
        }
        _ => panic!("conversion changed the filter kind"),
    }
}

#[test]
fn descriptor_clone_preserves_every_field() {
    let descriptor = FilterDescriptor::GradientGlowFilter(Box::new(sample_gradient()));
    match (descriptor.clone(), descriptor) {
        (FilterDescriptor::GradientGlowFilter(a), FilterDescriptor::GradientGlowFilter(b)) => {
            assert_eq!(*a, *b)
        }
        _ => panic!("clone changed the descriptor kind"),
    }
}

#[test]
fn default_filter_is_identity_color_matrix() {
    let expected_one = 1.0f32.to_bits();
    assert_eq!(F32_ONE_BITS, expected_one);
    match RuntimeFilter::default() {
        Filter::ColorMatrixFilter(f) => {
            for (i, &entry) in f.matrix.iter().enumerate() {
                if i == 0 || i == 6 || i == 12 || i == 18 {
                    assert_eq!(entry, expected_one);
                } else {
                    assert_eq!(entry, 0.0f32.to_bits());
                }
            }
        }
        _ => panic!("the default filter is not a color-matrix filter"),
    }
}

/// Applies a color-matrix row to a color with real single-precision
/// arithmetic, as a renderer would.
fn apply_matrix_row(matrix: &[u32; 20], row: usize, c: Color) -> f32 {
    let m = |i: usize| f32::from_bits(matrix[5 * row + i]);
    m(0) * c.r as f32 + m(1) * c.g as f32 + m(2) * c.b as f32 + m(3) * c.a as f32 + m(4)
}

#[test]
fn default_matrix_application_returns_colors_unchanged() {
    let filter = match RuntimeFilter::default() {
        Filter::ColorMatrixFilter(f) => f,
        _ => panic!("the default filter is not a color-matrix filter"),
    };
    let samples = [
        Color {
            r: 0,
            g: 0,
            b: 0,
            a: 0,
        },
        Color {
            r: 255,
            g: 255,
            b: 255,
            a: 255,
        },
        sample_color(),
        Color {
            r: 1,
            g: 254,
            b: 128,
            a: 7,
        },
    ];
    for c in samples {
        assert_eq!(apply_matrix_row(&filter.matrix, 0, c), c.r as f32);
        assert_eq!(apply_matrix_row(&filter.matrix, 1, c), c.g as f32);
        assert_eq!(apply_matrix_row(&filter.matrix, 2, c), c.b as f32);
        assert_eq!(apply_matrix_row(&filter.matrix, 3, c), c.a as f32);
    }
}

#[test]
fn displacement_default_is_safe_wrap_no_op() {
    let d = DisplacementMapFilter::default();
    assert_eq!(
        d.color,
        Color {
            r: 0,
            g: 0,
            b: 0,
            a: 0
        }
    );
    assert_eq!(d.component_x, 0);
    assert_eq!(d.component_y, 0);
    assert_eq!(d.map_bitmap, None);
    assert_eq!(d.map_point, (0, 0));
    assert_eq!(d.mode, DisplacementMapFilterMode::Wrap);
    assert_eq!(d.scale_x, 0.0f32.to_bits());
    assert_eq!(d.scale_y, 0.0f32.to_bits());
}

#[test]
fn displacement_components_are_a_closed_set_of_four() {
    let all = [
        DisplacementMapFilterComponent::Alpha,
        DisplacementMapFilterComponent::Blue,
        DisplacementMapFilterComponent::Green,
        DisplacementMapFilterComponent::Red,
    ];
    for (i, a) in all.iter().enumerate() {
        for (j, b) in all.iter().enumerate() {
            assert_eq!(a == b, i == j);
        }
    }
}

const SCRIPT_TYPE_TAG: u64 = 7;

fn sample_shader_filter() -> ShaderFilter<OpaqueShaderObject> {
    ShaderFilter {
        bottom_extension: -8,
        left_extension: -5,
        right_extension: 7,
        top_extension: -6,
        shader_object: Box::new(OpaqueShaderObject {
            type_tag: SCRIPT_TYPE_TAG,
            words: vec![1, 2, 3],
        }),
        shader: ShaderHandle { id: 42 },
        shader_args: vec![
            ShaderArgument::ValueInput {
                index: 0,
                value: vec![2.0f32.to_bits(), 0.5f32.to_bits()],
            },
            ShaderArgument::TextureInput {
                index: 1,
                channel_index: 2,
                texture: BitmapHandle { id: 9 },
            },
        ],
    }
}

#[test]
fn shader_filter_clone_copies_object_and_keeps_argument_order() {
    let original = sample_shader_filter();
    let mut copy = original.clone();

    assert_eq!(copy.shader, original.shader);
    assert_eq!(copy.shader_args, original.shader_args);

    // The copy narrows to the originating concrete type; a foreign tag is
    // reported as absent, not as an error.
    assert!(downcast_shader_object(&*copy.shader_object, SCRIPT_TYPE_TAG).is_some());
    assert!(downcast_shader_object(&*copy.shader_object, SCRIPT_TYPE_TAG + 1).is_none());
    assert_eq!(copy.shader_object.words, original.shader_object.words);

    // The copy owns its object independently: changing it leaves the
    // original untouched.
    copy.shader_object.words.push(99);
    copy.shader_args.clear();
    assert_eq!(original.shader_object.words, vec![1, 2, 3]);
    assert_eq!(original.shader_args.len(), 2);
}

#[test]
fn negative_extension_margins_round_trip_unchanged() {
    let filter = sample_shader_filter();
    assert_eq!(filter.left_extension, -5);
    assert_eq!(filter.top_extension, -6);
    assert_eq!(filter.right_extension, 7);
    assert_eq!(filter.bottom_extension, -8);

    let copy = filter.clone();
    assert_eq!(copy.left_extension, -5);
    assert_eq!(copy.top_extension, -6);
    assert_eq!(copy.right_extension, 7);
    assert_eq!(copy.bottom_extension, -8);
}

#[test]
fn runtime_filter_clone_preserves_shader_kind() {
    let filter = Filter::ShaderFilter(sample_shader_filter());
    match filter.clone() {
        Filter::ShaderFilter(f) => {
            assert_eq!(f.shader, ShaderHandle { id: 42 });
            assert_eq!(f.shader_args.len(), 2);
            assert_eq!(f.shader_object.type_tag, SCRIPT_TYPE_TAG);
        }
        _ => panic!("clone changed the filter kind"),
    }
    match filter {
        Filter::ShaderFilter(f) => assert_eq!(f.shader_object.words, vec![1, 2, 3]),
        _ => panic!("clone consumed the original"),
    }
}
