use webgpu_pipeline::blend::{
    serialize_blend_component, serialize_blend_state, serialize_color_target_state, BlendComponent,
    BlendFactor, BlendOperation, BlendState, ColorTargetState, GpuBlendComponent, GpuBlendState,
    GpuColorTargetState, COLOR_WRITE_ALL,
};
use webgpu_pipeline::depth_stencil::{
    serialize_depth_stencil_state, serialize_stencil_face_state, CompareFunction, DepthBiasState,
    DepthStencilState, GpuDepthStencilState, GpuStencilFaceState, StencilFaceState,
    StencilOperation, StencilState, F32_ZERO_BITS, STENCIL_MASK_ALL,
};
use webgpu_pipeline::multisample::{
    serialize_multisample_state, GpuMultisampleState, MultisampleState, SAMPLE_MASK_LOW,
};
use webgpu_pipeline::primitive::{
    serialize_primitive_state, Face, FrontFace, GpuPrimitiveState, IndexFormat, PolygonMode,
    PrimitiveState, PrimitiveTopology,
};
use webgpu_pipeline::texture::TextureFormat;
use webgpu_pipeline::vertex::{
    serialize_vertex_attribute, serialize_vertex_buffer_layout, serialize_vertex_buffers,
    vertex_buffers_are_valid, GpuVertexAttribute, GpuVertexBufferLayout, GpuVertexFormat,
    InputStepMode, VertexAttribute, VertexBufferLayout, VertexFormat,
};

fn name(text: &str) -> Option<String> {
    Some(String::from(text))
}

fn empty_component() -> GpuBlendComponent {
    GpuBlendComponent { src_factor: None, dst_factor: None, operation: None }
}

fn empty_face() -> GpuStencilFaceState {
    GpuStencilFaceState { compare: None, fail_op: None, depth_fail_op: None, pass_op: None }
}

fn empty_depth_stencil(format: &str) -> GpuDepthStencilState {
    GpuDepthStencilState {
        format: String::from(format),
        depth_write_enabled: None,
        depth_compare: None,
        stencil_front: None,
        stencil_back: None,
        stencil_read_mask: None,
        stencil_write_mask: None,
        depth_bias: None,
        depth_bias_slope_scale: None,
        depth_bias_clamp: None,
    }
}

fn ignore_face() -> StencilFaceState {
    StencilFaceState {
        compare: CompareFunction::Always,
        fail_op: StencilOperation::Keep,
        depth_fail_op: StencilOperation::Keep,
        pass_op: StencilOperation::Keep,
    }
}

#[test]
fn primitive_state_left_out() {
    assert_eq!(
        serialize_primitive_state(None),
        PrimitiveState {
            topology: PrimitiveTopology::TriangleList,
            strip_index_format: None,
            front_face: FrontFace::Ccw,
            cull_mode: None,
            clamp_depth: false,
            polygon_mode: PolygonMode::Fill,
            conservative: false,
        }
    );
    assert_eq!(PrimitiveState::default(), serialize_primitive_state(None));
    assert_eq!(PolygonMode::default(), PolygonMode::Fill);
}

#[test]
fn primitive_state_with_nothing_named() {
    let described = GpuPrimitiveState {
        topology: None,
        strip_index_format: None,
        front_face: None,
        cull_mode: None,
        clamp_depth: true,
    };
    assert!(described.is_valid());
    assert_eq!(
        serialize_primitive_state(Some(described)),
        PrimitiveState {
            topology: PrimitiveTopology::TriangleList,
            strip_index_format: None,
            front_face: FrontFace::Ccw,
            cull_mode: None,
            clamp_depth: true,
            polygon_mode: PolygonMode::Fill,
            conservative: false,
        }
    );
}

#[test]
fn primitive_state_with_everything_named() {
    let described = GpuPrimitiveState {
        topology: name("line-strip"),
        strip_index_format: name("uint16"),
        front_face: name("cw"),
        cull_mode: name("back"),
        clamp_depth: false,
    };
    assert!(described.is_valid());
    assert_eq!(
        serialize_primitive_state(Some(described)),
        PrimitiveState {
            topology: PrimitiveTopology::LineStrip,
            strip_index_format: Some(IndexFormat::Uint16),
            front_face: FrontFace::Cw,
            cull_mode: Some(Face::Back),
            clamp_depth: false,
            polygon_mode: PolygonMode::Fill,
            conservative: false,
        }
    );
}

#[test]
fn primitive_state_cull_mode_none_culls_nothing() {
    let described = GpuPrimitiveState {
        topology: name("point-list"),
        strip_index_format: None,
        front_face: None,
        cull_mode: name("none"),
        clamp_depth: false,
    };
    let state = serialize_primitive_state(Some(described));
    assert_eq!(state.cull_mode, None);
    assert_eq!(state.topology, PrimitiveTopology::PointList);
}

#[test]
fn primitive_state_with_an_unknown_name_is_not_valid() {
    let mut described = GpuPrimitiveState {
        topology: name("triangle-fan"),
        strip_index_format: None,
        front_face: None,
        cull_mode: None,
        clamp_depth: false,
    };
    assert!(!described.is_valid());
    described.topology = None;
    described.strip_index_format = name("uint8");
    assert!(!described.is_valid());
    described.strip_index_format = None;
    described.front_face = name("clockwise");
    assert!(!described.is_valid());
    described.front_face = None;
    described.cull_mode = name("both");
    assert!(!described.is_valid());
    described.cull_mode = None;
    assert!(described.is_valid());
}

#[test]
fn blend_component_with_nothing_named_replaces() {
    assert!(empty_component().is_valid());
    assert_eq!(
        serialize_blend_component(empty_component()),
        BlendComponent {
            src_factor: BlendFactor::One,
            dst_factor: BlendFactor::Zero,
            operation: BlendOperation::Add,
        }
    );
}

#[test]
fn blend_component_with_everything_named() {
    let described = GpuBlendComponent {
        src_factor: name("src-alpha"),
        dst_factor: name("one-minus-src-alpha"),
        operation: name("reverse-subtract"),
    };
    assert!(described.is_valid());
    assert_eq!(
        serialize_blend_component(described),
        BlendComponent {
            src_factor: BlendFactor::SrcAlpha,
            dst_factor: BlendFactor::OneMinusSrcAlpha,
            operation: BlendOperation::ReverseSubtract,
        }
    );
}

#[test]
fn blend_component_with_an_unknown_name_is_not_valid() {
    let mut described = empty_component();
    described.src_factor = name("src-color");
    assert!(!described.is_valid());
    described.src_factor = None;
    described.dst_factor = name("dst-color");
    assert!(!described.is_valid());
    described.dst_factor = None;
    described.operation = name("plus");
    assert!(!described.is_valid());
}

#[test]
fn blend_state_keeps_color_and_alpha_apart() {
    let described = GpuBlendState {
        color: GpuBlendComponent {
            src_factor: name("constant"),
            dst_factor: None,
            operation: name("max"),
        },
        alpha: GpuBlendComponent {
            src_factor: None,
            dst_factor: name("dst-alpha"),
            operation: name("min"),
        },
    };
    assert!(described.is_valid());
    assert_eq!(
        serialize_blend_state(described),
        BlendState {
            color: BlendComponent {
                src_factor: BlendFactor::Constant,
                dst_factor: BlendFactor::Zero,
                operation: BlendOperation::Max,
            },
            alpha: BlendComponent {
                src_factor: BlendFactor::One,
                dst_factor: BlendFactor::DstAlpha,
                operation: BlendOperation::Min,
            },
        }
    );
}

#[test]
fn blend_state_is_valid_only_with_both_components() {
    let mut described = GpuBlendState { color: empty_component(), alpha: empty_component() };
    assert!(described.is_valid());
    described.alpha.operation = name("blend");
    assert!(!described.is_valid());
    described.alpha.operation = None;
    described.color.src_factor = name("two");
    assert!(!described.is_valid());
}

#[test]
fn color_target_without_blend_or_mask() {
    let described =
        GpuColorTargetState { format: String::from("bgra8unorm"), blend: None, write_mask: None };
    assert!(described.is_valid());
    assert_eq!(
        serialize_color_target_state(described),
        ColorTargetState { format: TextureFormat::Bgra8Unorm, blend: None, write_mask: 15 }
    );
    assert_eq!(COLOR_WRITE_ALL, 15);
}

#[test]
fn color_target_with_blend_and_mask() {
    let described = GpuColorTargetState {
        format: String::from("rgba8unorm-srgb"),
        blend: Some(GpuBlendState { color: empty_component(), alpha: empty_component() }),
        write_mask: Some(5),
    };
    assert!(described.is_valid());
    let replace = BlendComponent {
        src_factor: BlendFactor::One,
        dst_factor: BlendFactor::Zero,
        operation: BlendOperation::Add,
    };
    assert_eq!(
        serialize_color_target_state(described),
        ColorTargetState {
            format: TextureFormat::Rgba8UnormSrgb,
            blend: Some(BlendState { color: replace, alpha: replace }),
            write_mask: 5,
        }
    );
}

#[test]
fn color_target_write_masks() {
    for bits in 0u32..=15 {
        let described = GpuColorTargetState {
            format: String::from("r8unorm"),
            blend: None,
            write_mask: Some(bits),
        };
        assert!(described.is_valid(), "{}", bits);
        assert_eq!(serialize_color_target_state(described).write_mask, bits);
    }
    for bits in [16u32, 17, 31, 32, 0x100, 0x8000_0000, 0xFFFF_FFFF] {
        let described = GpuColorTargetState {
            format: String::from("r8unorm"),
            blend: None,
            write_mask: Some(bits),
        };
        assert!(!described.is_valid(), "{}", bits);
    }
}

#[test]
fn color_target_with_an_unknown_format_is_not_valid() {
    let described =
        GpuColorTargetState { format: String::from("rgb9e5ufloat"), blend: None, write_mask: None };
    assert!(!described.is_valid());
    let mut blend = GpuBlendState { color: empty_component(), alpha: empty_component() };
    blend.color.operation = name("none");
    let described = GpuColorTargetState {
        format: String::from("r8unorm"),
        blend: Some(blend),
        write_mask: None,
    };
    assert!(!described.is_valid());
}

#[test]
fn stencil_face_with_nothing_named_ignores_the_buffer() {
    assert!(empty_face().is_valid());
    assert_eq!(serialize_stencil_face_state(empty_face()), ignore_face());
    assert_eq!(StencilFaceState::default(), ignore_face());
}

#[test]
fn stencil_face_with_everything_named() {
    let described = GpuStencilFaceState {
        compare: name("less-equal"),
        fail_op: name("zero"),
        depth_fail_op: name("increment-wrap"),
        pass_op: name("replace"),
    };
    assert!(described.is_valid());
    assert_eq!(
        serialize_stencil_face_state(described),
        StencilFaceState {
            compare: CompareFunction::LessEqual,
            fail_op: StencilOperation::Zero,
            depth_fail_op: StencilOperation::IncrementWrap,
            pass_op: StencilOperation::Replace,
        }
    );
}

#[test]
fn stencil_face_with_an_unknown_name_is_not_valid() {
    let mut described = empty_face();
    described.compare = name("sometimes");
    assert!(!described.is_valid());
    described.compare = None;
    described.fail_op = name("increment");
    assert!(!described.is_valid());
    described.fail_op = None;
    described.depth_fail_op = name("decrement");
    assert!(!described.is_valid());
    described.depth_fail_op = None;
    described.pass_op = name("clear");
    assert!(!described.is_valid());
    described.pass_op = None;
    assert!(described.is_valid());
}

#[test]
fn depth_stencil_with_only_a_format() {
    let described = empty_depth_stencil("depth24plus");
    assert!(described.is_valid());
    assert_eq!(
        serialize_depth_stencil_state(described),
        DepthStencilState {
            format: TextureFormat::Depth24Plus,
            depth_write_enabled: false,
            depth_compare: CompareFunction::Always,
            stencil: StencilState {
                front: ignore_face(),
                back: ignore_face(),
                read_mask: 0xFFFF_FFFF,
                write_mask: 0xFFFF_FFFF,
            },
            bias: DepthBiasState { constant: 0, slope_scale: 0, clamp: 0 },
        }
    );
    assert_eq!(STENCIL_MASK_ALL, 0xFFFF_FFFF);
    assert_eq!(F32_ZERO_BITS, 0.0f32.to_bits());
}

#[test]
fn depth_stencil_with_everything_given() {
    let described = GpuDepthStencilState {
        format: String::from("depth24plus-stencil8"),
        depth_write_enabled: Some(true),
        depth_compare: name("less"),
        stencil_front: Some(GpuStencilFaceState {
            compare: name("equal"),
            fail_op: None,
            depth_fail_op: None,
            pass_op: name("invert"),
        }),
        stencil_back: Some(empty_face()),
        stencil_read_mask: Some(0xF0),
        stencil_write_mask: Some(0x0F),
        depth_bias: Some(-2),
        depth_bias_slope_scale: Some(1.5f32.to_bits()),
        depth_bias_clamp: Some((-0.25f32).to_bits()),
    };
    assert!(described.is_valid());
    let state = serialize_depth_stencil_state(described);
    assert_eq!(state.format, TextureFormat::Depth24PlusStencil8);
    assert!(state.depth_write_enabled);
    assert_eq!(state.depth_compare, CompareFunction::Less);
    assert_eq!(
        state.stencil.front,
        StencilFaceState {
            compare: CompareFunction::Equal,
            fail_op: StencilOperation::Keep,
            depth_fail_op: StencilOperation::Keep,
            pass_op: StencilOperation::Invert,
        }
    );
    assert_eq!(state.stencil.back, ignore_face());
    assert_eq!(state.stencil.read_mask, 0xF0);
    assert_eq!(state.stencil.write_mask, 0x0F);
    assert_eq!(state.bias.constant, -2);
    assert_eq!(f32::from_bits(state.bias.slope_scale), 1.5);
    assert_eq!(f32::from_bits(state.bias.clamp), -0.25);
}

#[test]
fn depth_stencil_with_something_unknown_is_not_valid() {
    assert!(!empty_depth_stencil("depth16unorm").is_valid());
    let mut described = empty_depth_stencil("depth32float");
    assert!(described.is_valid());
    described.depth_compare = name("lesser");
    assert!(!described.is_valid());
    described.depth_compare = None;
    let mut face = empty_face();
    face.pass_op = name("swap");
    described.stencil_front = Some(face);
    assert!(!described.is_valid());
    described.stencil_front = None;
    let mut face = empty_face();
    face.compare = name("maybe");
    described.stencil_back = Some(face);
    assert!(!described.is_valid());
}

#[test]
fn multisample_left_out_enables_all_64_mask_bits() {
    assert_eq!(
        serialize_multisample_state(None),
        MultisampleState { count: 1, mask: u64::MAX, alpha_to_coverage_enabled: false }
    );
    assert_eq!(MultisampleState::default(), serialize_multisample_state(None));
}

#[test]
fn multisample_with_nothing_given_enables_the_low_32_mask_bits() {
    let described =
        GpuMultisampleState { count: None, mask: None, alpha_to_coverage_enabled: None };
    assert_eq!(
        serialize_multisample_state(Some(described)),
        MultisampleState { count: 1, mask: 0xFFFF_FFFF, alpha_to_coverage_enabled: false }
    );
    assert_eq!(SAMPLE_MASK_LOW, 0xFFFF_FFFF);
}

#[test]
fn multisample_with_everything_given() {
    let described = GpuMultisampleState {
        count: Some(4),
        mask: Some(0x1_0000_0003),
        alpha_to_coverage_enabled: Some(true),
    };
    assert_eq!(
        serialize_multisample_state(Some(described)),
        MultisampleState { count: 4, mask: 0x1_0000_0003, alpha_to_coverage_enabled: true }
    );
}

#[test]
fn vertex_attribute_keeps_offset_and_location() {
    let described = GpuVertexAttribute {
        format: GpuVertexFormat::Float32x3,
        offset: u64::MAX,
        shader_location: 7,
    };
    assert_eq!(
        serialize_vertex_attribute(described),
        VertexAttribute { format: VertexFormat::Float32x3, offset: u64::MAX, shader_location: 7 }
    );
}

#[test]
fn vertex_buffer_layout_steps_per_vertex_unless_told() {
    let described =
        GpuVertexBufferLayout { array_stride: 16, step_mode: None, attributes: vec![] };
    assert!(described.is_valid());
    assert_eq!(
        serialize_vertex_buffer_layout(described),
        VertexBufferLayout {
            array_stride: 16,
            step_mode: InputStepMode::Vertex,
            attributes: vec![],
        }
    );
    let described = GpuVertexBufferLayout {
        array_stride: 0,
        step_mode: name("instance"),
        attributes: vec![
            GpuVertexAttribute { format: GpuVertexFormat::Uint8x4, offset: 0, shader_location: 0 },
            GpuVertexAttribute { format: GpuVertexFormat::Sint32, offset: 4, shader_location: 3 },
            GpuVertexAttribute {
                format: GpuVertexFormat::Float64x2,
                offset: 8,
                shader_location: 1,
            },
        ],
    };
    assert!(described.is_valid());
    assert_eq!(
        serialize_vertex_buffer_layout(described),
        VertexBufferLayout {
            array_stride: 0,
            step_mode: InputStepMode::Instance,
            attributes: vec![
                VertexAttribute { format: VertexFormat::Uint8x4, offset: 0, shader_location: 0 },
                VertexAttribute { format: VertexFormat::Sint32, offset: 4, shader_location: 3 },
                VertexAttribute { format: VertexFormat::Float64x2, offset: 8, shader_location: 1 },
            ],
        }
    );
    let described = GpuVertexBufferLayout {
        array_stride: 4,
        step_mode: name("vertex"),
        attributes: vec![],
    };
    assert_eq!(serialize_vertex_buffer_layout(described).step_mode, InputStepMode::Vertex);
}

#[test]
fn vertex_buffer_layout_with_an_unknown_step_mode_is_not_valid() {
    let described =
        GpuVertexBufferLayout { array_stride: 16, step_mode: name("draw"), attributes: vec![] };
    assert!(!described.is_valid());
}

#[test]
fn vertex_buffers_skip_empty_slots_and_keep_the_order() {
    let slot = |stride: u64| {
        Some(GpuVertexBufferLayout { array_stride: stride, step_mode: None, attributes: vec![] })
    };
    let layout = |stride: u64| VertexBufferLayout {
        array_stride: stride,
        step_mode: InputStepMode::Vertex,
        attributes: vec![],
    };
    assert_eq!(serialize_vertex_buffers(None), vec![]);
    assert_eq!(serialize_vertex_buffers(Some(vec![])), vec![]);
    assert_eq!(serialize_vertex_buffers(Some(vec![None, None])), vec![]);
    assert_eq!(
        serialize_vertex_buffers(Some(vec![None, slot(8), None, slot(4), slot(12), None])),
        vec![layout(8), layout(4), layout(12)]
    );
    assert_eq!(serialize_vertex_buffers(Some(vec![slot(1), slot(2)])), vec![layout(1), layout(2)]);
}

#[test]
fn vertex_buffers_are_valid_when_every_filled_slot_is() {
    let slot = |mode: Option<String>| {
        Some(GpuVertexBufferLayout { array_stride: 0, step_mode: mode, attributes: vec![] })
    };
    assert!(vertex_buffers_are_valid(&None));
    assert!(vertex_buffers_are_valid(&Some(vec![])));
    assert!(vertex_buffers_are_valid(&Some(vec![None, slot(None), slot(name("instance"))])));
    assert!(!vertex_buffers_are_valid(&Some(vec![None, slot(None), slot(name("pixel"))])));
    assert!(!vertex_buffers_are_valid(&Some(vec![slot(name("")), slot(None)])));
}
