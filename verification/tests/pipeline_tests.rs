use quad_gradient::gradient::{
    Gradient, GradientRenderStrategy, Layer, LinearGradient, INSTANCE_WORDS,
};
use quad_gradient::packed::{pack_linear, pack_radial, ColorStop, Packed};
use quad_gradient::pipeline::{AttributeFormat, Pipeline, ShaderSources, INSTANCE_STRIDE};
use quad_gradient::quad::Quad;

fn sources() -> ShaderSources {
    ShaderSources {
        quad: b"quad".to_vec(),
        vertex: b"vertex".to_vec(),
        linear_fill: b"linear fill".to_vec(),
        radial_fill: b"radial fill".to_vec(),
        color: b"color".to_vec(),
        linear_rgb: b"linear rgb".to_vec(),
    }
}

#[test]
fn shader_fragments_are_assembled_in_order() {
    let pipeline = Pipeline::new(17, &sources());
    assert_eq!(
        pipeline.linear_pipeline().shader_source,
        b"quad\nvertex\nlinear fill\ncolor\nlinear rgb".to_vec()
    );
    assert_eq!(
        pipeline.radial_pipeline().shader_source,
        b"quad\nvertex\nradial fill\ncolor\nlinear rgb".to_vec()
    );
    assert_eq!(pipeline.linear_pipeline().format, 17);
    assert_eq!(pipeline.radial_pipeline().format, 17);
}

#[test]
fn fixed_function_state_is_pinned() {
    let pipeline = Pipeline::new(0, &sources());
    for description in [pipeline.linear_pipeline(), pipeline.radial_pipeline()] {
        assert!(description.triangle_list);
        assert!(description.clockwise_front_face);
        assert!(!description.depth_stencil);
        assert_eq!(description.sample_count, 1);
        assert_eq!(description.sample_mask, u64::MAX);
        assert!(!description.alpha_to_coverage_enabled);
    }
}

#[test]
fn vertex_attributes_cover_the_record_gaplessly() {
    let pipeline = Pipeline::new(0, &sources());
    let attributes = &pipeline.linear_pipeline().attributes;
    let expected_formats = [
        AttributeFormat::Uint32x4,
        AttributeFormat::Uint32x4,
        AttributeFormat::Uint32x4,
        AttributeFormat::Uint32x4,
        AttributeFormat::Uint32x4,
        AttributeFormat::Float32x4,
        AttributeFormat::Float32x4,
        AttributeFormat::Float32x4,
        AttributeFormat::Float32x4,
        AttributeFormat::Float32,
        AttributeFormat::Uint32,
    ];
    assert_eq!(attributes.len(), expected_formats.len());
    let mut expected_offset = 0u64;
    for (i, attribute) in attributes.iter().enumerate() {
        assert_eq!(attribute.format, expected_formats[i]);
        assert_eq!(attribute.offset, expected_offset);
        assert_eq!(attribute.shader_location, i as u32);
        expected_offset += match attribute.format {
            AttributeFormat::Uint32x4 | AttributeFormat::Float32x4 => 16,
            AttributeFormat::Float32 | AttributeFormat::Uint32 => 4,
        };
    }
    assert_eq!(expected_offset, INSTANCE_STRIDE);
    assert_eq!(INSTANCE_STRIDE, 4 * INSTANCE_WORDS as u64);
    assert_eq!(pipeline.radial_pipeline().attributes, *attributes);
}

fn quad(tag: u32) -> Quad {
    Quad {
        position: [tag, 2],
        scale: [3, 4],
        border_color: [5, 6, 7, 8],
        border_radius: [9, 10, 11, 12],
        border_width: 13,
        snap: 1,
    }
}

fn frame() -> Vec<Gradient> {
    let stops = vec![ColorStop { offset: 0, color: 1 }];
    vec![
        Gradient {
            gradient: Packed::Linear(pack_linear(&stops, [0, 0, 0, 0])),
            quad: quad(1),
        },
        Gradient {
            gradient: Packed::Radial(pack_radial(&stops, [0, 0, 0, 0])),
            quad: quad(2),
        },
        Gradient {
            gradient: Packed::Radial(pack_radial(&stops, [0, 0, 0, 0])),
            quad: quad(3),
        },
    ]
}

#[test]
fn radial_draw_binds_only_the_radial_kind() {
    let mut layer = Layer::new();
    let _ = layer.prepare(&frame());
    let pipeline = Pipeline::new(0, &sources());

    let command = pipeline.render(&layer, 0..2, &GradientRenderStrategy::Radial);
    assert_eq!(command.strategy, GradientRenderStrategy::Radial);
    assert_eq!(command.vertex_start, 0);
    assert_eq!(command.vertex_end, 6);
    assert_eq!(command.instance_start, 0);
    assert_eq!(command.instance_end, 2);
}

#[test]
fn linear_draw_binds_only_the_linear_kind() {
    let mut layer = Layer::new();
    let _ = layer.prepare(&frame());
    let pipeline = Pipeline::new(0, &sources());

    let command = pipeline.render(&layer, 0..1, &GradientRenderStrategy::Linear);
    assert_eq!(command.strategy, GradientRenderStrategy::Linear);
    assert_eq!(command.vertex_start, 0);
    assert_eq!(command.vertex_end, 6);
    assert_eq!(command.instance_start, 0);
    assert_eq!(command.instance_end, 1);
}

#[test]
fn flattened_instance_matches_the_wire_layout() {
    let stops = vec![
        ColorStop { offset: 0, color: 0x0403_0201 },
        ColorStop { offset: 32768, color: 0xff00_00ff },
    ];
    let instance = LinearGradient {
        gradient: pack_linear(&stops, [21, 22, 23, 24]),
        quad: quad(31),
    };
    let words = instance.to_words();
    assert_eq!(words.len(), INSTANCE_WORDS);

    // First stop color 0x04030201: channels 1, 2, 3, 4 widened by 257.
    assert_eq!(words[0], 257 + 514 * 65536);
    assert_eq!(words[1], 771 + 1028 * 65536);
    // Second stop color 0xff0000ff.
    assert_eq!(words[2], 65535);
    assert_eq!(words[3], 65535 * 65536);
    // Empty slots encode color zero.
    for k in 2..8 {
        assert_eq!(words[2 * k], 0);
        assert_eq!(words[2 * k + 1], 0);
    }
    // Offsets two per word: slots 0 and 1, then sentinel pairs.
    assert_eq!(words[16], 32768 * 65536);
    assert_eq!(words[17], 65535 + 65535 * 65536);
    assert_eq!(words[18], 65535 + 65535 * 65536);
    assert_eq!(words[19], 65535 + 65535 * 65536);
    // Ramp direction.
    assert_eq!(&words[20..24], &[21, 22, 23, 24]);
    // Quad tail: position, scale, border color, border radius, width, snap.
    assert_eq!(&words[24..38], &[31, 2, 3, 4, 5, 6, 7, 8, 9, 10, 11, 12, 13, 1]);
}

#[test]
fn flattened_radial_instance_carries_center_and_radii() {
    let stops = vec![ColorStop { offset: 0, color: 0 }];
    let instance = quad_gradient::gradient::RadialGradient {
        gradient: pack_radial(&stops, [41, 42, 43, 44]),
        quad: quad(7),
    };
    let words = instance.to_words();
    assert_eq!(words.len(), INSTANCE_WORDS);
    assert_eq!(&words[20..24], &[41, 42, 43, 44]);
    assert_eq!(&words[24..38], &[7, 2, 3, 4, 5, 6, 7, 8, 9, 10, 11, 12, 13, 1]);
}
