use webgpu_pipeline::blend::{
    serialize_color_target_state, BlendComponent, GpuColorTargetState, COLOR_WRITE_ALL,
};
use webgpu_pipeline::depth_stencil::{CompareFunction, StencilFaceState, StencilOperation};
use webgpu_pipeline::multisample::MultisampleState;
use webgpu_pipeline::primitive::{
    Face, FrontFace, IndexFormat, PolygonMode, PrimitiveState, PrimitiveTopology,
};

fn native_topology(topology: PrimitiveTopology) -> wgpu_types::PrimitiveTopology {
    match topology {
        PrimitiveTopology::PointList => wgpu_types::PrimitiveTopology::PointList,
        PrimitiveTopology::LineList => wgpu_types::PrimitiveTopology::LineList,
        PrimitiveTopology::LineStrip => wgpu_types::PrimitiveTopology::LineStrip,
        PrimitiveTopology::TriangleList => wgpu_types::PrimitiveTopology::TriangleList,
        PrimitiveTopology::TriangleStrip => wgpu_types::PrimitiveTopology::TriangleStrip,
    }
}

fn native_primitive_state(state: PrimitiveState) -> wgpu_types::PrimitiveState {
    wgpu_types::PrimitiveState {
        topology: native_topology(state.topology),
        strip_index_format: state.strip_index_format.map(|format| match format {
            IndexFormat::Uint16 => wgpu_types::IndexFormat::Uint16,
            IndexFormat::Uint32 => wgpu_types::IndexFormat::Uint32,
        }),
        front_face: match state.front_face {
            FrontFace::Ccw => wgpu_types::FrontFace::Ccw,
            FrontFace::Cw => wgpu_types::FrontFace::Cw,
        },
        cull_mode: state.cull_mode.map(|face| match face {
            Face::Front => wgpu_types::Face::Front,
            Face::Back => wgpu_types::Face::Back,
        }),
        clamp_depth: state.clamp_depth,
        polygon_mode: match state.polygon_mode {
            PolygonMode::Fill => wgpu_types::PolygonMode::Fill,
            PolygonMode::Line => wgpu_types::PolygonMode::Line,
            PolygonMode::Point => wgpu_types::PolygonMode::Point,
        },
        conservative: state.conservative,
    }
}

fn native_compare(compare: CompareFunction) -> wgpu_types::CompareFunction {
    match compare {
        CompareFunction::Never => wgpu_types::CompareFunction::Never,
        CompareFunction::Less => wgpu_types::CompareFunction::Less,
        CompareFunction::Equal => wgpu_types::CompareFunction::Equal,
        CompareFunction::LessEqual => wgpu_types::CompareFunction::LessEqual,
        CompareFunction::Greater => wgpu_types::CompareFunction::Greater,
        CompareFunction::NotEqual => wgpu_types::CompareFunction::NotEqual,
        CompareFunction::GreaterEqual => wgpu_types::CompareFunction::GreaterEqual,
        CompareFunction::Always => wgpu_types::CompareFunction::Always,
    }
}

fn native_stencil_operation(operation: StencilOperation) -> wgpu_types::StencilOperation {
    match operation {
        StencilOperation::Keep => wgpu_types::StencilOperation::Keep,
        StencilOperation::Zero => wgpu_types::StencilOperation::Zero,
        StencilOperation::Replace => wgpu_types::StencilOperation::Replace,
        StencilOperation::Invert => wgpu_types::StencilOperation::Invert,
        StencilOperation::IncrementClamp => wgpu_types::StencilOperation::IncrementClamp,
        StencilOperation::DecrementClamp => wgpu_types::StencilOperation::DecrementClamp,
        StencilOperation::IncrementWrap => wgpu_types::StencilOperation::IncrementWrap,
        StencilOperation::DecrementWrap => wgpu_types::StencilOperation::DecrementWrap,
    }
}

#[test]
fn primitive_state_default_is_the_native_default() {
    assert_eq!(
        native_primitive_state(PrimitiveState::default()),
        wgpu_types::PrimitiveState::default()
    );
}

#[test]
fn polygon_mode_default_is_the_native_default() {
    let native = match PolygonMode::default() {
        PolygonMode::Fill => wgpu_types::PolygonMode::Fill,
        PolygonMode::Line => wgpu_types::PolygonMode::Line,
        PolygonMode::Point => wgpu_types::PolygonMode::Point,
    };
    assert_eq!(native, wgpu_types::PolygonMode::default());
}

#[test]
fn stencil_face_default_is_the_native_default() {
    let face = StencilFaceState::default();
    let native = wgpu_types::StencilFaceState {
        compare: native_compare(face.compare),
        fail_op: native_stencil_operation(face.fail_op),
        depth_fail_op: native_stencil_operation(face.depth_fail_op),
        pass_op: native_stencil_operation(face.pass_op),
    };
    assert_eq!(native, wgpu_types::StencilFaceState::default());
    assert_eq!(native, wgpu_types::StencilFaceState::IGNORE);
}

#[test]
fn multisample_default_is_the_native_default() {
    let state = MultisampleState::default();
    let native = wgpu_types::MultisampleState::default();
    assert_eq!(state.count, native.count);
    assert_eq!(state.mask, native.mask);
    assert_eq!(state.alpha_to_coverage_enabled, native.alpha_to_coverage_enabled);
    assert_eq!(state.count, 1);
    assert_eq!(state.mask, 0xFFFF_FFFF_FFFF_FFFF);
    assert!(!state.alpha_to_coverage_enabled);
}

#[test]
fn color_write_all_is_the_native_mask_of_all_channels() {
    assert_eq!(COLOR_WRITE_ALL, wgpu_types::ColorWrite::ALL.bits());
    assert_eq!(COLOR_WRITE_ALL, wgpu_types::ColorWrite::default().bits());
    let described =
        GpuColorTargetState { format: String::from("r8unorm"), blend: None, write_mask: None };
    assert_eq!(serialize_color_target_state(described).write_mask, 15);
}

#[test]
fn color_write_masks_are_those_the_native_library_takes() {
    for bits in 0u32..=64 {
        let described = GpuColorTargetState {
            format: String::from("r8unorm"),
            blend: None,
            write_mask: Some(bits),
        };
        let native = wgpu_types::ColorWrite::from_bits(bits);
        assert_eq!(described.is_valid(), native.is_some(), "{}", bits);
        if let Some(flags) = native {
            assert_eq!(serialize_color_target_state(described).write_mask, flags.bits());
        }
    }
}

#[test]
fn blend_component_with_nothing_named_is_the_native_replace() {
    let replace = wgpu_types::BlendComponent::REPLACE;
    assert_eq!(replace.src_factor, wgpu_types::BlendFactor::One);
    assert_eq!(replace.dst_factor, wgpu_types::BlendFactor::Zero);
    assert_eq!(replace.operation, wgpu_types::BlendOperation::Add);
    let described = webgpu_pipeline::blend::GpuBlendComponent {
        src_factor: None,
        dst_factor: None,
        operation: None,
    };
    assert_eq!(
        webgpu_pipeline::blend::serialize_blend_component(described),
        BlendComponent {
            src_factor: webgpu_pipeline::blend::BlendFactor::One,
            dst_factor: webgpu_pipeline::blend::BlendFactor::Zero,
            operation: webgpu_pipeline::blend::BlendOperation::Add,
        }
    );
}
