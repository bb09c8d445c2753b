use vstd::prelude::*;

use crate::gradient::{GradientRenderStrategy, Layer, INSTANCE_WORDS};
use core::ops::Range;

verus! {

/// Format of one instance-stepped vertex attribute, named as the device API
/// names it.
#[derive(Debug, Clone, Copy, PartialEq, Eq, Structural)]
pub enum AttributeFormat {
    Uint32x4,
    Float32x4,
    Float32,
    Uint32,
}

/// Size of one attribute in bytes.
pub open spec fn attribute_size(f: AttributeFormat) -> int {
    match f {
        AttributeFormat::Uint32x4 => 16,
        AttributeFormat::Float32x4 => 16,
        AttributeFormat::Float32 => 4,
        AttributeFormat::Uint32 => 4,
    }
}

/// One attribute of the instance-stepped vertex buffer: its format, its byte
/// offset inside the instance record, and the shader location it binds to.
#[derive(Debug, Clone, Copy, PartialEq, Eq, Structural)]
pub struct VertexAttribute {
    pub format: AttributeFormat,
    pub offset: u64,
    pub shader_location: u32,
}

/// The fixed attribute list of a gradient instance record, in the exact order
/// the wire format lays the fields out: four color-pair words each for colors
/// one to eight, the eight packed offsets, the kind-specific geometry, the
/// position and scale, the border color, the border radius, the border width
/// and the snap flag. Offsets are implicit and consecutive.
pub open spec fn gradient_attributes() -> Seq<VertexAttribute> {
    seq![
        VertexAttribute { format: AttributeFormat::Uint32x4, offset: 0, shader_location: 0 },
        VertexAttribute { format: AttributeFormat::Uint32x4, offset: 16, shader_location: 1 },
        VertexAttribute { format: AttributeFormat::Uint32x4, offset: 32, shader_location: 2 },
        VertexAttribute { format: AttributeFormat::Uint32x4, offset: 48, shader_location: 3 },
        VertexAttribute { format: AttributeFormat::Uint32x4, offset: 64, shader_location: 4 },
        VertexAttribute { format: AttributeFormat::Float32x4, offset: 80, shader_location: 5 },
        VertexAttribute { format: AttributeFormat::Float32x4, offset: 96, shader_location: 6 },
        VertexAttribute { format: AttributeFormat::Float32x4, offset: 112, shader_location: 7 },
        VertexAttribute { format: AttributeFormat::Float32x4, offset: 128, shader_location: 8 },
        VertexAttribute { format: AttributeFormat::Float32, offset: 144, shader_location: 9 },
        VertexAttribute { format: AttributeFormat::Uint32, offset: 148, shader_location: 10 },
    ]
}

/// Byte stride of one instance record in the vertex buffer.
pub const INSTANCE_STRIDE: u64 = 152;

/// The attribute list is a gapless, in-order cover of the instance record:
/// the first attribute starts at byte zero, every later one starts exactly
/// where the previous one ends, locations count up from zero, and the end of
/// the last attribute is the stride, which is the byte size of the flattened
/// instance's words.
pub proof fn lemma_attribute_layout()
    ensures
        gradient_attributes().len() == 11,
        gradient_attributes()[0].offset == 0,
        forall|i: int|
            0 <= i < 10 ==> (#[trigger] gradient_attributes()[i + 1]).offset
                == gradient_attributes()[i].offset + attribute_size(gradient_attributes()[i].format),
        forall|i: int| 0 <= i < 11 ==> (#[trigger] gradient_attributes()[i]).shader_location == i,
        gradient_attributes()[10].offset + attribute_size(gradient_attributes()[10].format)
            == INSTANCE_STRIDE,
        INSTANCE_STRIDE == 4 * INSTANCE_WORDS,
{
}

/// The shader-source fragments both pipelines are assembled from: the shared
/// quad-shape module, the shared vertex-transform module, one fill module per
/// kind, the shared color module and the shared color-linearization module,
/// each as the bytes of its source text.
#[derive(Debug, Clone, PartialEq, Eq)]
pub struct ShaderSources {
    /// Shared quad-shape module.
    pub quad: Vec<u8>,
    /// Shared vertex-transform module.
    pub vertex: Vec<u8>,
    /// Linear fill module.
    pub linear_fill: Vec<u8>,
    /// Radial fill module.
    pub radial_fill: Vec<u8>,
    /// Shared color module.
    pub color: Vec<u8>,
    /// Shared color-linearization module.
    pub linear_rgb: Vec<u8>,
}

/// A full shader source: the five fragments in their required order, joined
/// by newlines. The order is part of the contract, since later fragments
/// reference symbols the earlier ones define.
pub open spec fn assembled_source(
    quad: Seq<u8>,
    vertex: Seq<u8>,
    fill: Seq<u8>,
    color: Seq<u8>,
    linear_rgb: Seq<u8>,
) -> Seq<u8> {
    quad + seq![10u8] + vertex + seq![10u8] + fill + seq![10u8] + color + seq![10u8] + linear_rgb
}

/// Everything the device needs to compile one gradient pipeline, as plain
/// values: the assembled shader source and the fixed-function configuration.
/// The device glue turns this description into the compiled pipeline object,
/// field for field.
#[derive(Debug, Clone, PartialEq, Eq)]
pub struct PipelineDescription {
    /// Assembled shader source text, as bytes.
    pub shader_source: Vec<u8>,
    /// Pixel format word of the render target the pipeline draws to.
    pub format: u32,
    /// Instance-stepped vertex attributes, in order, with implicit
    /// consecutive offsets.
    pub attributes: Vec<VertexAttribute>,
    /// Byte stride of one instance record.
    pub array_stride: u64,
    /// Primitive topology is a triangle list.
    pub triangle_list: bool,
    /// Front faces wind clockwise.
    pub clockwise_front_face: bool,
    /// Whether a depth/stencil test is attached (it never is).
    pub depth_stencil: bool,
    /// Single-sample rendering.
    pub sample_count: u32,
    /// All sample-mask bits set.
    pub sample_mask: u64,
    /// Alpha-to-coverage stays off.
    pub alpha_to_coverage_enabled: bool,
}

/// One instanced draw call, fully determined: which kind's pipeline and
/// buffer to bind, the six quad vertices, and the instance range to step
/// over.
#[derive(Debug, Clone, Copy, PartialEq, Eq, Structural)]
pub struct DrawCommand {
    /// Kind whose pipeline and whose instance buffer the pass must bind —
    /// both selections follow this one tag.
    pub strategy: GradientRenderStrategy,
    /// First vertex index (always zero).
    pub vertex_start: u32,
    /// End vertex index (always six: two triangles forming the quad).
    pub vertex_end: u32,
    /// First instance of the draw, an index into the bound kind's buffer.
    pub instance_start: u32,
    /// End instance of the draw.
    pub instance_end: u32,
}

/// Appends one source fragment to the assembled output.
fn append_fragment(out: &mut Vec<u8>, fragment: &Vec<u8>)
    ensures
        final(out)@ == old(out)@ + fragment@,
{
    let mut i: usize = 0;
    while i < fragment.len()
        invariant
            i <= fragment@.len(),
            out@ == old(out)@ + fragment@.take(i as int),
        decreases fragment@.len() - i,
    {
        out.push(fragment[i]);
        proof {
            assert(old(out)@ + fragment@.take(i + 1int) =~= (old(out)@ + fragment@.take(i as int)).push(
                fragment@[i as int],
            ));
        }
        i += 1;
    }
    proof {
        assert(out@ =~= old(out)@ + fragment@);
        assert(fragment@.take(fragment@.len() as int) =~= fragment@);
    }
}

/// Owns the two compiled gradient pipelines, described as plain values; built
/// once at startup and immutable afterwards.
#[derive(Debug, Clone, PartialEq, Eq)]
pub struct Pipeline {
    linear_gradient_pipeline: PipelineDescription,
    radial_gradient_pipeline: PipelineDescription,
}

impl Pipeline {
    /// Description of the linear pipeline.
    pub closed spec fn spec_linear_pipeline(&self) -> PipelineDescription {
        self.linear_gradient_pipeline
    }

    /// Description of the radial pipeline.
    pub closed spec fn spec_radial_pipeline(&self) -> PipelineDescription {
        self.radial_gradient_pipeline
    }

    /// Builds the two kind pipelines for a render target of pixel format
    /// `format`, each from the shared fragments and its own fill fragment.
    pub fn new(format: u32, sources: &ShaderSources) -> (r: Self)
        ensures
            is_gradient_pipeline_for(
                r.spec_linear_pipeline(),
                format,
                sources.quad@,
                sources.vertex@,
                sources.linear_fill@,
                sources.color@,
                sources.linear_rgb@,
            ),
            is_gradient_pipeline_for(
                r.spec_radial_pipeline(),
                format,
                sources.quad@,
                sources.vertex@,
                sources.radial_fill@,
                sources.color@,
                sources.linear_rgb@,
            ),
    {
        let linear_gradient_pipeline = Self::create_gradient_pipeline(
            format,
            sources,
            &sources.linear_fill,
        );
        let radial_gradient_pipeline = Self::create_gradient_pipeline(
            format,
            sources,
            &sources.radial_fill,
        );
        Pipeline { linear_gradient_pipeline, radial_gradient_pipeline }
    }

    /// Assembles one kind's pipeline description: the five shader fragments
    /// joined in their required order, the fixed attribute layout, and the
    /// fixed-function state — triangle list, clockwise winding, no
    /// depth/stencil, single sample with all mask bits and no
    /// alpha-to-coverage.
    pub fn create_gradient_pipeline(
        format: u32,
        sources: &ShaderSources,
        gradient_shader: &Vec<u8>,
    ) -> (p: PipelineDescription)
        ensures
            is_gradient_pipeline_for(
                p,
                format,
                sources.quad@,
                sources.vertex@,
                gradient_shader@,
                sources.color@,
                sources.linear_rgb@,
            ),
    {
        let mut shader_source: Vec<u8> = Vec::new();
        append_fragment(&mut shader_source, &sources.quad);
        shader_source.push(10u8);
        append_fragment(&mut shader_source, &sources.vertex);
        shader_source.push(10u8);
        append_fragment(&mut shader_source, gradient_shader);
        shader_source.push(10u8);
        append_fragment(&mut shader_source, &sources.color);
        shader_source.push(10u8);
        append_fragment(&mut shader_source, &sources.linear_rgb);
        proof {
            assert(shader_source@ =~= assembled_source(
                sources.quad@,
                sources.vertex@,
                gradient_shader@,
                sources.color@,
                sources.linear_rgb@,
            ));
        }

        let mut attributes: Vec<VertexAttribute> = Vec::new();
        attributes.push(
            VertexAttribute { format: AttributeFormat::Uint32x4, offset: 0, shader_location: 0 },
        );
        attributes.push(
            VertexAttribute { format: AttributeFormat::Uint32x4, offset: 16, shader_location: 1 },
        );
        attributes.push(
            VertexAttribute { format: AttributeFormat::Uint32x4, offset: 32, shader_location: 2 },
        );
        attributes.push(
            VertexAttribute { format: AttributeFormat::Uint32x4, offset: 48, shader_location: 3 },
        );
        attributes.push(
            VertexAttribute { format: AttributeFormat::Uint32x4, offset: 64, shader_location: 4 },
        );
        attributes.push(
            VertexAttribute { format: AttributeFormat::Float32x4, offset: 80, shader_location: 5 },
        );
        attributes.push(
            VertexAttribute { format: AttributeFormat::Float32x4, offset: 96, shader_location: 6 },
        );
        attributes.push(
            VertexAttribute { format: AttributeFormat::Float32x4, offset: 112, shader_location: 7 },
        );
        attributes.push(
            VertexAttribute { format: AttributeFormat::Float32x4, offset: 128, shader_location: 8 },
        );
        attributes.push(
            VertexAttribute { format: AttributeFormat::Float32, offset: 144, shader_location: 9 },
        );
        attributes.push(
            VertexAttribute { format: AttributeFormat::Uint32, offset: 148, shader_location: 10 },
        );
        proof {
            assert(attributes@ =~= gradient_attributes());
        }

        PipelineDescription {
            shader_source,
            format,
            attributes,
            array_stride: INSTANCE_STRIDE,
            triangle_list: true,
            clockwise_front_face: true,
            depth_stencil: false,
            sample_count: 1,
            sample_mask: 0xffff_ffff_ffff_ffff,
            alpha_to_coverage_enabled: false,
        }
    }

    /// Selects the pipeline and instance buffer of `strategy`'s kind and
    /// determines the draw: six vertices (two triangles forming the quad),
    /// instanced over `range`. `range` must be a sub-range of the selected
    /// kind's written length; the command never names the other kind, so
    /// drawing one kind cannot touch the other's pipeline or buffer.
    pub fn render(
        &self,
        layer: &Layer,
        range: Range<usize>,
        strategy: &GradientRenderStrategy,
    ) -> (cmd: DrawCommand)
        requires
            range.start <= range.end,
            range.end <= u32::MAX,
            *strategy == GradientRenderStrategy::Linear ==> range.end
                <= layer.spec_linear().len(),
            *strategy == GradientRenderStrategy::Radial ==> range.end
                <= layer.spec_radial().len(),
        ensures
            cmd.strategy == *strategy,
            cmd.vertex_start == 0,
            cmd.vertex_end == 6,
            cmd.instance_start == range.start,
            cmd.instance_end == range.end,
    {
        DrawCommand {
            strategy: *strategy,
            vertex_start: 0,
            vertex_end: 6,
            instance_start: range.start as u32,
            instance_end: range.end as u32,
        }
    }
}

/// What it means for a description to be the gradient pipeline of one kind:
/// its source is the five fragments assembled in order, its vertex layout is
/// the fixed gapless attribute list with the instance stride, and its
/// fixed-function state is triangle list, clockwise winding, no
/// depth/stencil, one sample with a full mask and no alpha-to-coverage.
pub open spec fn is_gradient_pipeline_for(
    p: PipelineDescription,
    format: u32,
    quad: Seq<u8>,
    vertex: Seq<u8>,
    fill: Seq<u8>,
    color: Seq<u8>,
    linear_rgb: Seq<u8>,
) -> bool {
    &&& p.shader_source@ == assembled_source(quad, vertex, fill, color, linear_rgb)
    &&& p.format == format
    &&& p.attributes@ == gradient_attributes()
    &&& p.array_stride == INSTANCE_STRIDE
    &&& p.triangle_list
    &&& p.clockwise_front_face
    &&& !p.depth_stencil
    &&& p.sample_count == 1
    &&& p.sample_mask == 0xffff_ffff_ffff_ffff
    &&& !p.alpha_to_coverage_enabled
}

impl Pipeline {
    /// The linear pipeline description, for the device glue.
    pub fn linear_pipeline(&self) -> (r: &PipelineDescription)
        ensures
            *r == self.spec_linear_pipeline(),
    {
        &self.linear_gradient_pipeline
    }

    /// The radial pipeline description, for the device glue.
    pub fn radial_pipeline(&self) -> (r: &PipelineDescription)
        ensures
            *r == self.spec_radial_pipeline(),
    {
        &self.radial_gradient_pipeline
    }
}

} // verus!
