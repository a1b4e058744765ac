//! Depth and stencil state of a render pipeline.

use crate::text::str_eq;
use crate::texture::{parse_texture_format, texture_format_of, TextureFormat};
use vstd::prelude::*;

verus! {

/// The test that decides whether a depth or stencil value passes.
#[derive(Clone, Copy, Debug, PartialEq, Eq, Hash)]
pub enum CompareFunction {
    Never,
    Less,
    Equal,
    LessEqual,
    Greater,
    NotEqual,
    GreaterEqual,
    Always,
}

/// What happens to a stencil value after a test.
#[derive(Clone, Copy, Debug, PartialEq, Eq, Hash)]
pub enum StencilOperation {
    Keep,
    Zero,
    Replace,
    Invert,
    IncrementClamp,
    DecrementClamp,
    IncrementWrap,
    DecrementWrap,
}

/// The comparison that a name stands for, if it names one.
pub open spec fn compare_function_of(name: Seq<char>) -> Option<CompareFunction> {
    if name == "never"@ {
        Some(CompareFunction::Never)
    } else if name == "less"@ {
        Some(CompareFunction::Less)
    } else if name == "equal"@ {
        Some(CompareFunction::Equal)
    } else if name == "less-equal"@ {
        Some(CompareFunction::LessEqual)
    } else if name == "greater"@ {
        Some(CompareFunction::Greater)
    } else if name == "not-equal"@ {
        Some(CompareFunction::NotEqual)
    } else if name == "greater-equal"@ {
        Some(CompareFunction::GreaterEqual)
    } else if name == "always"@ {
        Some(CompareFunction::Always)
    } else {
        None
    }
}

/// The stencil operation that a name stands for, if it names one.
pub open spec fn stencil_operation_of(name: Seq<char>) -> Option<StencilOperation> {
    if name == "keep"@ {
        Some(StencilOperation::Keep)
    } else if name == "zero"@ {
        Some(StencilOperation::Zero)
    } else if name == "replace"@ {
        Some(StencilOperation::Replace)
    } else if name == "invert"@ {
        Some(StencilOperation::Invert)
    } else if name == "increment-clamp"@ {
        Some(StencilOperation::IncrementClamp)
    } else if name == "decrement-clamp"@ {
        Some(StencilOperation::DecrementClamp)
    } else if name == "increment-wrap"@ {
        Some(StencilOperation::IncrementWrap)
    } else if name == "decrement-wrap"@ {
        Some(StencilOperation::DecrementWrap)
    } else {
        None
    }
}

/// Reads the name of a comparison.
pub fn parse_compare_function(name: &str) -> (compare: Option<CompareFunction>)
    ensures
        compare == compare_function_of(name@),
{
    if str_eq(name, "never") {
        Some(CompareFunction::Never)
    } else if str_eq(name, "less") {
        Some(CompareFunction::Less)
    } else if str_eq(name, "equal") {
        Some(CompareFunction::Equal)
    } else if str_eq(name, "less-equal") {
        Some(CompareFunction::LessEqual)
    } else if str_eq(name, "greater") {
        Some(CompareFunction::Greater)
    } else if str_eq(name, "not-equal") {
        Some(CompareFunction::NotEqual)
    } else if str_eq(name, "greater-equal") {
        Some(CompareFunction::GreaterEqual)
    } else if str_eq(name, "always") {
        Some(CompareFunction::Always)
    } else {
        None
    }
}

/// The comparison named by `compare`, which must name one.
pub fn serialize_compare_function(compare: &str) -> (compare_function: CompareFunction)
    requires
        compare_function_of(compare@) is Some,
    ensures
        compare_function_of(compare@) == Some(compare_function),
{
    parse_compare_function(compare).unwrap()
}

/// Reads the name of a stencil operation.
pub fn parse_stencil_operation(name: &str) -> (operation: Option<StencilOperation>)
    ensures
        operation == stencil_operation_of(name@),
{
    if str_eq(name, "keep") {
        Some(StencilOperation::Keep)
    } else if str_eq(name, "zero") {
        Some(StencilOperation::Zero)
    } else if str_eq(name, "replace") {
        Some(StencilOperation::Replace)
    } else if str_eq(name, "invert") {
        Some(StencilOperation::Invert)
    } else if str_eq(name, "increment-clamp") {
        Some(StencilOperation::IncrementClamp)
    } else if str_eq(name, "decrement-clamp") {
        Some(StencilOperation::DecrementClamp)
    } else if str_eq(name, "increment-wrap") {
        Some(StencilOperation::IncrementWrap)
    } else if str_eq(name, "decrement-wrap") {
        Some(StencilOperation::DecrementWrap)
    } else {
        None
    }
}

/// The stencil operation named by `operation`, which must name one.
pub fn serialize_stencil_operation(operation: &str) -> (stencil_operation: StencilOperation)
    requires
        stencil_operation_of(operation@) is Some,
    ensures
        stencil_operation_of(operation@) == Some(stencil_operation),
{
    parse_stencil_operation(operation).unwrap()
}

/// Stencil behaviour for one side of a triangle, as a script describes it.
#[derive(Debug, PartialEq, Eq)]
pub struct GpuStencilFaceState {
    pub compare: Option<String>,
    pub fail_op: Option<String>,
    pub depth_fail_op: Option<String>,
    pub pass_op: Option<String>,
}

/// Stencil behaviour for one side of a triangle.
#[derive(Clone, Copy, Debug, PartialEq, Eq, Hash)]
pub struct StencilFaceState {
    pub compare: CompareFunction,
    pub fail_op: StencilOperation,
    pub depth_fail_op: StencilOperation,
    pub pass_op: StencilOperation,
}

impl StencilFaceState {
    /// The state that leaves the stencil buffer alone: the test always
    /// passes and every outcome keeps the stored value.
    pub open spec fn ignore() -> StencilFaceState {
        StencilFaceState {
            compare: CompareFunction::Always,
            fail_op: StencilOperation::Keep,
            depth_fail_op: StencilOperation::Keep,
            pass_op: StencilOperation::Keep,
        }
    }
}

impl Default for StencilFaceState {
    fn default() -> (state: StencilFaceState)
        ensures
            state == StencilFaceState::ignore(),
    {
        StencilFaceState {
            compare: CompareFunction::Always,
            fail_op: StencilOperation::Keep,
            depth_fail_op: StencilOperation::Keep,
            pass_op: StencilOperation::Keep,
        }
    }
}

/// The operation that an optional name asks for: `Keep` when it is absent.
pub open spec fn stencil_operation_or_keep(name: Option<String>) -> StencilOperation {
    match name {
        Some(name) => stencil_operation_of(name@).unwrap(),
        None => StencilOperation::Keep,
    }
}

/// The comparison that an optional name asks for: `Always` when it is absent.
pub open spec fn compare_function_or_always(name: Option<String>) -> CompareFunction {
    match name {
        Some(name) => compare_function_of(name@).unwrap(),
        None => CompareFunction::Always,
    }
}

impl GpuStencilFaceState {
    /// Every name that is present belongs to its vocabulary.
    pub open spec fn valid(&self) -> bool {
        &&& self.compare matches Some(name) ==> compare_function_of(name@) is Some
        &&& self.fail_op matches Some(name) ==> stencil_operation_of(name@) is Some
        &&& self.depth_fail_op matches Some(name) ==> stencil_operation_of(name@) is Some
        &&& self.pass_op matches Some(name) ==> stencil_operation_of(name@) is Some
    }

    /// The state described.
    pub open spec fn resolved(&self) -> StencilFaceState
        recommends
            self.valid(),
    {
        StencilFaceState {
            compare: compare_function_or_always(self.compare),
            fail_op: stencil_operation_or_keep(self.fail_op),
            depth_fail_op: stencil_operation_or_keep(self.depth_fail_op),
            pass_op: stencil_operation_or_keep(self.pass_op),
        }
    }

    /// Tests `valid`.
    pub fn is_valid(&self) -> (ok: bool)
        ensures
            ok == self.valid(),
    {
        let compare_ok = match &self.compare {
            Some(name) => parse_compare_function(name.as_str()).is_some(),
            None => true,
        };
        compare_ok && stencil_operation_known(&self.fail_op) && stencil_operation_known(
            &self.depth_fail_op,
        ) && stencil_operation_known(&self.pass_op)
    }
}

fn stencil_operation_known(name: &Option<String>) -> (ok: bool)
    ensures
        ok == (*name matches Some(name) ==> stencil_operation_of(name@) is Some),
{
    match name {
        Some(name) => parse_stencil_operation(name.as_str()).is_some(),
        None => true,
    }
}

fn stencil_operation_for(name: &Option<String>) -> (operation: StencilOperation)
    requires
        *name matches Some(name) ==> stencil_operation_of(name@) is Some,
    ensures
        operation == stencil_operation_or_keep(*name),
{
    match name {
        Some(name) => serialize_stencil_operation(name.as_str()),
        None => StencilOperation::Keep,
    }
}

fn compare_function_for(name: &Option<String>) -> (compare: CompareFunction)
    requires
        *name matches Some(name) ==> compare_function_of(name@) is Some,
    ensures
        compare == compare_function_or_always(*name),
{
    match name {
        Some(name) => serialize_compare_function(name.as_str()),
        None => CompareFunction::Always,
    }
}

/// Resolves the stencil behaviour for one side of a triangle.
pub fn serialize_stencil_face_state(state: GpuStencilFaceState) -> (face: StencilFaceState)
    requires
        state.valid(),
    ensures
        face == state.resolved(),
{
    StencilFaceState {
        compare: compare_function_for(&state.compare),
        fail_op: stencil_operation_for(&state.fail_op),
        depth_fail_op: stencil_operation_for(&state.depth_fail_op),
        pass_op: stencil_operation_for(&state.pass_op),
    }
}

/// A single-precision floating-point number, held as its bit pattern.
pub type F32Bits = u32;

/// Depth and stencil state as a script describes it.
#[derive(Debug, PartialEq, Eq)]
pub struct GpuDepthStencilState {
    pub format: String,
    pub depth_write_enabled: Option<bool>,
    pub depth_compare: Option<String>,
    pub stencil_front: Option<GpuStencilFaceState>,
    pub stencil_back: Option<GpuStencilFaceState>,
    pub stencil_read_mask: Option<u32>,
    pub stencil_write_mask: Option<u32>,
    pub depth_bias: Option<i32>,
    pub depth_bias_slope_scale: Option<F32Bits>,
    pub depth_bias_clamp: Option<F32Bits>,
}

/// Stencil state of both sides, and the masks applied to stencil values.
#[derive(Clone, Copy, Debug, PartialEq, Eq, Hash)]
pub struct StencilState {
    pub front: StencilFaceState,
    pub back: StencilFaceState,
    pub read_mask: u32,
    pub write_mask: u32,
}

/// Bias added to the depth of a fragment.
#[derive(Clone, Copy, Debug, PartialEq, Eq, Hash)]
pub struct DepthBiasState {
    pub constant: i32,
    pub slope_scale: F32Bits,
    pub clamp: F32Bits,
}

/// Depth and stencil state as a render pipeline is created with it.
#[derive(Clone, Copy, Debug, PartialEq, Eq, Hash)]
pub struct DepthStencilState {
    pub format: TextureFormat,
    pub depth_write_enabled: bool,
    pub depth_compare: CompareFunction,
    pub stencil: StencilState,
    pub bias: DepthBiasState,
}

/// The mask that lets every bit of a stencil value through.
pub const STENCIL_MASK_ALL: u32 = 0xFFFF_FFFF;

/// The bit pattern of the single-precision number zero.
pub const F32_ZERO_BITS: F32Bits = 0;

/// The stencil state of one side: the one described, or the one that
/// ignores the stencil buffer.
pub open spec fn stencil_face_of(face: Option<GpuStencilFaceState>) -> StencilFaceState {
    match face {
        Some(face) => face.resolved(),
        None => StencilFaceState::ignore(),
    }
}

impl GpuDepthStencilState {
    /// The format and every name that is present belong to their
    /// vocabularies.
    pub open spec fn valid(&self) -> bool {
        &&& texture_format_of(self.format@) is Some
        &&& self.depth_compare matches Some(name) ==> compare_function_of(name@) is Some
        &&& self.stencil_front matches Some(face) ==> face.valid()
        &&& self.stencil_back matches Some(face) ==> face.valid()
    }

    /// The state described. What is absent is replaced: depth writes are
    /// off, the depth test always passes, both masks let every bit through,
    /// and the depth bias is zero.
    pub open spec fn resolved(&self) -> DepthStencilState
        recommends
            self.valid(),
    {
        DepthStencilState {
            format: texture_format_of(self.format@).unwrap(),
            depth_write_enabled: self.depth_write_enabled.unwrap_or(false),
            depth_compare: compare_function_or_always(self.depth_compare),
            stencil: StencilState {
                front: stencil_face_of(self.stencil_front),
                back: stencil_face_of(self.stencil_back),
                read_mask: self.stencil_read_mask.unwrap_or(STENCIL_MASK_ALL),
                write_mask: self.stencil_write_mask.unwrap_or(STENCIL_MASK_ALL),
            },
            bias: DepthBiasState {
                constant: self.depth_bias.unwrap_or(0),
                slope_scale: self.depth_bias_slope_scale.unwrap_or(F32_ZERO_BITS),
                clamp: self.depth_bias_clamp.unwrap_or(F32_ZERO_BITS),
            },
        }
    }

    /// Tests `valid`.
    pub fn is_valid(&self) -> (ok: bool)
        ensures
            ok == self.valid(),
    {
        let format_ok = parse_texture_format(self.format.as_str()).is_some();
        let compare_ok = match &self.depth_compare {
            Some(name) => parse_compare_function(name.as_str()).is_some(),
            None => true,
        };
        let front_ok = match &self.stencil_front {
            Some(face) => face.is_valid(),
            None => true,
        };
        let back_ok = match &self.stencil_back {
            Some(face) => face.is_valid(),
            None => true,
        };
        format_ok && compare_ok && front_ok && back_ok
    }
}

fn stencil_face_for(face: Option<GpuStencilFaceState>) -> (resolved: StencilFaceState)
    requires
        face matches Some(face) ==> face.valid(),
    ensures
        resolved == stencil_face_of(face),
{
    match face {
        Some(face) => serialize_stencil_face_state(face),
        None => StencilFaceState::default(),
    }
}

/// Resolves the depth and stencil state of a render pipeline.
pub fn serialize_depth_stencil_state(state: GpuDepthStencilState) -> (resolved: DepthStencilState)
    requires
        state.valid(),
    ensures
        resolved == state.resolved(),
{
    DepthStencilState {
        format: parse_texture_format(state.format.as_str()).unwrap(),
        depth_write_enabled: state.depth_write_enabled.unwrap_or(false),
        depth_compare: compare_function_for(&state.depth_compare),
        stencil: StencilState {
            front: stencil_face_for(state.stencil_front),
            back: stencil_face_for(state.stencil_back),
            read_mask: state.stencil_read_mask.unwrap_or(STENCIL_MASK_ALL),
            write_mask: state.stencil_write_mask.unwrap_or(STENCIL_MASK_ALL),
        },
        bias: DepthBiasState {
            constant: state.depth_bias.unwrap_or(0),
            slope_scale: state.depth_bias_slope_scale.unwrap_or(F32_ZERO_BITS),
            clamp: state.depth_bias_clamp.unwrap_or(F32_ZERO_BITS),
        },
    }
}

} // verus!
