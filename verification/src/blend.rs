//! Blending and color targets of a render pipeline.

use crate::native::{color_write_default, color_write_from_bits};
use crate::text::str_eq;
use crate::texture::{parse_texture_format, texture_format_of, TextureFormat};
use vstd::prelude::*;

verus! {

/// A multiplier applied to the source or the destination color.
#[derive(Clone, Copy, Debug, PartialEq, Eq, Hash)]
pub enum BlendFactor {
    Zero,
    One,
    Src,
    OneMinusSrc,
    SrcAlpha,
    OneMinusSrcAlpha,
    Dst,
    OneMinusDst,
    DstAlpha,
    OneMinusDstAlpha,
    SrcAlphaSaturated,
    Constant,
    OneMinusConstant,
}

/// How the weighted source and destination are combined.
#[derive(Clone, Copy, Debug, PartialEq, Eq, Hash)]
pub enum BlendOperation {
    Add,
    Subtract,
    ReverseSubtract,
    Min,
    Max,
}

/// The blend factor that a name stands for, if it names one.
pub open spec fn blend_factor_of(name: Seq<char>) -> Option<BlendFactor> {
    if name == "zero"@ {
        Some(BlendFactor::Zero)
    } else if name == "one"@ {
        Some(BlendFactor::One)
    } else if name == "src"@ {
        Some(BlendFactor::Src)
    } else if name == "one-minus-src"@ {
        Some(BlendFactor::OneMinusSrc)
    } else if name == "src-alpha"@ {
        Some(BlendFactor::SrcAlpha)
    } else if name == "one-minus-src-alpha"@ {
        Some(BlendFactor::OneMinusSrcAlpha)
    } else if name == "dst"@ {
        Some(BlendFactor::Dst)
    } else if name == "one-minus-dst"@ {
        Some(BlendFactor::OneMinusDst)
    } else if name == "dst-alpha"@ {
        Some(BlendFactor::DstAlpha)
    } else if name == "one-minus-dst-alpha"@ {
        Some(BlendFactor::OneMinusDstAlpha)
    } else if name == "src-alpha-saturated"@ {
        Some(BlendFactor::SrcAlphaSaturated)
    } else if name == "constant"@ {
        Some(BlendFactor::Constant)
    } else if name == "one-minus-constant"@ {
        Some(BlendFactor::OneMinusConstant)
    } else {
        None
    }
}

/// The blend operation that a name stands for, if it names one.
pub open spec fn blend_operation_of(name: Seq<char>) -> Option<BlendOperation> {
    if name == "add"@ {
        Some(BlendOperation::Add)
    } else if name == "subtract"@ {
        Some(BlendOperation::Subtract)
    } else if name == "reverse-subtract"@ {
        Some(BlendOperation::ReverseSubtract)
    } else if name == "min"@ {
        Some(BlendOperation::Min)
    } else if name == "max"@ {
        Some(BlendOperation::Max)
    } else {
        None
    }
}

/// Reads the name of a blend factor.
pub fn parse_blend_factor(name: &str) -> (factor: Option<BlendFactor>)
    ensures
        factor == blend_factor_of(name@),
{
    if str_eq(name, "zero") {
        Some(BlendFactor::Zero)
    } else if str_eq(name, "one") {
        Some(BlendFactor::One)
    } else if str_eq(name, "src") {
        Some(BlendFactor::Src)
    } else if str_eq(name, "one-minus-src") {
        Some(BlendFactor::OneMinusSrc)
    } else if str_eq(name, "src-alpha") {
        Some(BlendFactor::SrcAlpha)
    } else if str_eq(name, "one-minus-src-alpha") {
        Some(BlendFactor::OneMinusSrcAlpha)
    } else if str_eq(name, "dst") {
        Some(BlendFactor::Dst)
    } else if str_eq(name, "one-minus-dst") {
        Some(BlendFactor::OneMinusDst)
    } else if str_eq(name, "dst-alpha") {
        Some(BlendFactor::DstAlpha)
    } else if str_eq(name, "one-minus-dst-alpha") {
        Some(BlendFactor::OneMinusDstAlpha)
    } else if str_eq(name, "src-alpha-saturated") {
        Some(BlendFactor::SrcAlphaSaturated)
    } else if str_eq(name, "constant") {
        Some(BlendFactor::Constant)
    } else if str_eq(name, "one-minus-constant") {
        Some(BlendFactor::OneMinusConstant)
    } else {
        None
    }
}

/// The blend factor named by `blend_factor`, which must name one.
pub fn serialize_blend_factor(blend_factor: &str) -> (factor: BlendFactor)
    requires
        blend_factor_of(blend_factor@) is Some,
    ensures
        blend_factor_of(blend_factor@) == Some(factor),
{
    parse_blend_factor(blend_factor).unwrap()
}

/// Reads the name of a blend operation.
pub fn parse_blend_operation(name: &str) -> (operation: Option<BlendOperation>)
    ensures
        operation == blend_operation_of(name@),
{
    if str_eq(name, "add") {
        Some(BlendOperation::Add)
    } else if str_eq(name, "subtract") {
        Some(BlendOperation::Subtract)
    } else if str_eq(name, "reverse-subtract") {
        Some(BlendOperation::ReverseSubtract)
    } else if str_eq(name, "min") {
        Some(BlendOperation::Min)
    } else if str_eq(name, "max") {
        Some(BlendOperation::Max)
    } else {
        None
    }
}

/// One blend equation as a script describes it.
#[derive(Debug, PartialEq, Eq)]
pub struct GpuBlendComponent {
    pub src_factor: Option<String>,
    pub dst_factor: Option<String>,
    pub operation: Option<String>,
}

/// The blend equations of a color target as a script describes them.
#[derive(Debug, PartialEq, Eq)]
pub struct GpuBlendState {
    pub color: GpuBlendComponent,
    pub alpha: GpuBlendComponent,
}

/// One blend equation.
#[derive(Clone, Copy, Debug, PartialEq, Eq, Hash)]
pub struct BlendComponent {
    pub src_factor: BlendFactor,
    pub dst_factor: BlendFactor,
    pub operation: BlendOperation,
}

/// The blend equations of a color target: one for color, one for alpha.
#[derive(Clone, Copy, Debug, PartialEq, Eq, Hash)]
pub struct BlendState {
    pub color: BlendComponent,
    pub alpha: BlendComponent,
}

/// The factor that an optional name asks for: `default` when it is absent.
pub open spec fn blend_factor_or(name: Option<String>, default: BlendFactor) -> BlendFactor {
    match name {
        Some(name) => blend_factor_of(name@).unwrap(),
        None => default,
    }
}

impl GpuBlendComponent {
    /// Every name that is present belongs to its vocabulary.
    pub open spec fn valid(&self) -> bool {
        &&& self.src_factor matches Some(name) ==> blend_factor_of(name@) is Some
        &&& self.dst_factor matches Some(name) ==> blend_factor_of(name@) is Some
        &&& self.operation matches Some(name) ==> blend_operation_of(name@) is Some
    }

    /// The equation described. Where nothing is named, the source replaces
    /// the destination: source factor one, destination factor zero, added.
    pub open spec fn resolved(&self) -> BlendComponent
        recommends
            self.valid(),
    {
        BlendComponent {
            src_factor: blend_factor_or(self.src_factor, BlendFactor::One),
            dst_factor: blend_factor_or(self.dst_factor, BlendFactor::Zero),
            operation: match self.operation {
                Some(name) => blend_operation_of(name@).unwrap(),
                None => BlendOperation::Add,
            },
        }
    }

    /// Tests `valid`.
    pub fn is_valid(&self) -> (ok: bool)
        ensures
            ok == self.valid(),
    {
        let src_ok = match &self.src_factor {
            Some(name) => parse_blend_factor(name.as_str()).is_some(),
            None => true,
        };
        let dst_ok = match &self.dst_factor {
            Some(name) => parse_blend_factor(name.as_str()).is_some(),
            None => true,
        };
        let operation_ok = match &self.operation {
            Some(name) => parse_blend_operation(name.as_str()).is_some(),
            None => true,
        };
        src_ok && dst_ok && operation_ok
    }
}

impl GpuBlendState {
    /// Both equations are valid.
    pub open spec fn valid(&self) -> bool {
        self.color.valid() && self.alpha.valid()
    }

    /// The equations described.
    pub open spec fn resolved(&self) -> BlendState
        recommends
            self.valid(),
    {
        BlendState { color: self.color.resolved(), alpha: self.alpha.resolved() }
    }

    /// Tests `valid`.
    pub fn is_valid(&self) -> (ok: bool)
        ensures
            ok == self.valid(),
    {
        self.color.is_valid() && self.alpha.is_valid()
    }
}

fn blend_factor_for(name: &Option<String>, default: BlendFactor) -> (factor: BlendFactor)
    requires
        *name matches Some(name) ==> blend_factor_of(name@) is Some,
    ensures
        factor == blend_factor_or(*name, default),
{
    match name {
        Some(name) => serialize_blend_factor(name.as_str()),
        None => default,
    }
}

/// Resolves one blend equation.
pub fn serialize_blend_component(blend: GpuBlendComponent) -> (component: BlendComponent)
    requires
        blend.valid(),
    ensures
        component == blend.resolved(),
{
    BlendComponent {
        src_factor: blend_factor_for(&blend.src_factor, BlendFactor::One),
        dst_factor: blend_factor_for(&blend.dst_factor, BlendFactor::Zero),
        operation: match &blend.operation {
            Some(name) => parse_blend_operation(name.as_str()).unwrap(),
            None => BlendOperation::Add,
        },
    }
}

/// Resolves the blend equations of a color target.
pub fn serialize_blend_state(state: GpuBlendState) -> (blend: BlendState)
    requires
        state.valid(),
    ensures
        blend == state.resolved(),
{
    BlendState {
        alpha: serialize_blend_component(state.alpha),
        color: serialize_blend_component(state.color),
    }
}

/// The color write mask that enables all four channels: red is bit 0, green
/// bit 1, blue bit 2, alpha bit 3.
pub const COLOR_WRITE_ALL: u32 = 15;

/// The color write mask that `bits` is, if no bit outside the four channels
/// is set.
pub open spec fn color_write_of_bits(bits: u32) -> Option<u32> {
    if bits & !COLOR_WRITE_ALL == 0 {
        Some(bits)
    } else {
        None
    }
}

/// The color write masks are the numbers up to `COLOR_WRITE_ALL`.
pub proof fn lemma_color_write_masks(bits: u32)
    ensures
        color_write_of_bits(bits) is Some <==> bits <= COLOR_WRITE_ALL,
{
    assert((bits & !15u32 == 0) <==> bits <= 15) by (bit_vector);
}

/// A color target as a script describes it.
#[derive(Debug, PartialEq, Eq)]
pub struct GpuColorTargetState {
    pub format: String,
    pub blend: Option<GpuBlendState>,
    pub write_mask: Option<u32>,
}

/// A color target as a render pipeline is created with it. `write_mask`
/// holds one bit per channel.
#[derive(Clone, Copy, Debug, PartialEq, Eq, Hash)]
pub struct ColorTargetState {
    pub format: TextureFormat,
    pub blend: Option<BlendState>,
    pub write_mask: u32,
}

impl GpuColorTargetState {
    /// The format is known, the blend equations are valid, and the write
    /// mask sets no bit that stands for no channel.
    pub open spec fn valid(&self) -> bool {
        &&& texture_format_of(self.format@) is Some
        &&& self.blend matches Some(blend) ==> blend.valid()
        &&& self.write_mask matches Some(bits) ==> color_write_of_bits(bits) is Some
    }

    /// The target described: no blending unless described, every channel
    /// written unless a mask is given.
    pub open spec fn resolved(&self) -> ColorTargetState
        recommends
            self.valid(),
    {
        ColorTargetState {
            format: texture_format_of(self.format@).unwrap(),
            blend: match self.blend {
                Some(blend) => Some(blend.resolved()),
                None => None,
            },
            write_mask: match self.write_mask {
                Some(bits) => bits,
                None => COLOR_WRITE_ALL,
            },
        }
    }

    /// Tests `valid`.
    pub fn is_valid(&self) -> (ok: bool)
        ensures
            ok == self.valid(),
    {
        let format_ok = parse_texture_format(self.format.as_str()).is_some();
        let blend_ok = match &self.blend {
            Some(blend) => blend.is_valid(),
            None => true,
        };
        let mask_ok = match self.write_mask {
            Some(bits) => color_write_from_bits(bits).is_some(),
            None => true,
        };
        format_ok && blend_ok && mask_ok
    }
}

/// Resolves one color target of a render pipeline.
pub fn serialize_color_target_state(target: GpuColorTargetState) -> (resolved: ColorTargetState)
    requires
        target.valid(),
    ensures
        resolved == target.resolved(),
{
    ColorTargetState {
        format: parse_texture_format(target.format.as_str()).unwrap(),
        blend: match target.blend {
            Some(blend) => Some(serialize_blend_state(blend)),
            None => None,
        },
        write_mask: match target.write_mask {
            Some(bits) => color_write_from_bits(bits).unwrap(),
            None => color_write_default(),
        },
    }
}

} // verus!
