//! Vertex input of a render pipeline: formats, attributes and buffer layouts.

use crate::text::str_eq;
use vstd::prelude::*;
use vstd::std_specs::convert::FromSpecImpl;

verus! {

/// The format of a vertex attribute as a script names it.
#[derive(Clone, Copy, Debug, PartialEq, Eq, Hash)]
pub enum GpuVertexFormat {
    Uint8x2,
    Uint8x4,
    Sint8x2,
    Sint8x4,
    Unorm8x2,
    Unorm8x4,
    Snorm8x2,
    Snorm8x4,
    Uint16x2,
    Uint16x4,
    Sint16x2,
    Sint16x4,
    Unorm16x2,
    Unorm16x4,
    Snorm16x2,
    Snorm16x4,
    Float16x2,
    Float16x4,
    Float32,
    Float32x2,
    Float32x3,
    Float32x4,
    Uint32,
    Uint32x2,
    Uint32x3,
    Uint32x4,
    Sint32,
    Sint32x2,
    Sint32x3,
    Sint32x4,
    Float64,
    Float64x2,
    Float64x3,
    Float64x4,
}

/// The format of a vertex attribute: the kind and width of its components,
/// and how many there are.
#[derive(Clone, Copy, Debug, PartialEq, Eq, Hash)]
pub enum VertexFormat {
    Uint8x2,
    Uint8x4,
    Sint8x2,
    Sint8x4,
    Unorm8x2,
    Unorm8x4,
    Snorm8x2,
    Snorm8x4,
    Uint16x2,
    Uint16x4,
    Sint16x2,
    Sint16x4,
    Unorm16x2,
    Unorm16x4,
    Snorm16x2,
    Snorm16x4,
    Float16x2,
    Float16x4,
    Float32,
    Float32x2,
    Float32x3,
    Float32x4,
    Uint32,
    Uint32x2,
    Uint32x3,
    Uint32x4,
    Sint32,
    Sint32x2,
    Sint32x3,
    Sint32x4,
    Float64,
    Float64x2,
    Float64x3,
    Float64x4,
}

/// The format with the same components as `vf`.
pub open spec fn vertex_format_of(vf: GpuVertexFormat) -> VertexFormat {
    match vf {
        GpuVertexFormat::Uint8x2 => VertexFormat::Uint8x2,
        GpuVertexFormat::Uint8x4 => VertexFormat::Uint8x4,
        GpuVertexFormat::Sint8x2 => VertexFormat::Sint8x2,
        GpuVertexFormat::Sint8x4 => VertexFormat::Sint8x4,
        GpuVertexFormat::Unorm8x2 => VertexFormat::Unorm8x2,
        GpuVertexFormat::Unorm8x4 => VertexFormat::Unorm8x4,
        GpuVertexFormat::Snorm8x2 => VertexFormat::Snorm8x2,
        GpuVertexFormat::Snorm8x4 => VertexFormat::Snorm8x4,
        GpuVertexFormat::Uint16x2 => VertexFormat::Uint16x2,
        GpuVertexFormat::Uint16x4 => VertexFormat::Uint16x4,
        GpuVertexFormat::Sint16x2 => VertexFormat::Sint16x2,
        GpuVertexFormat::Sint16x4 => VertexFormat::Sint16x4,
        GpuVertexFormat::Unorm16x2 => VertexFormat::Unorm16x2,
        GpuVertexFormat::Unorm16x4 => VertexFormat::Unorm16x4,
        GpuVertexFormat::Snorm16x2 => VertexFormat::Snorm16x2,
        GpuVertexFormat::Snorm16x4 => VertexFormat::Snorm16x4,
        GpuVertexFormat::Float16x2 => VertexFormat::Float16x2,
        GpuVertexFormat::Float16x4 => VertexFormat::Float16x4,
        GpuVertexFormat::Float32 => VertexFormat::Float32,
        GpuVertexFormat::Float32x2 => VertexFormat::Float32x2,
        GpuVertexFormat::Float32x3 => VertexFormat::Float32x3,
        GpuVertexFormat::Float32x4 => VertexFormat::Float32x4,
        GpuVertexFormat::Uint32 => VertexFormat::Uint32,
        GpuVertexFormat::Uint32x2 => VertexFormat::Uint32x2,
        GpuVertexFormat::Uint32x3 => VertexFormat::Uint32x3,
        GpuVertexFormat::Uint32x4 => VertexFormat::Uint32x4,
        GpuVertexFormat::Sint32 => VertexFormat::Sint32,
        GpuVertexFormat::Sint32x2 => VertexFormat::Sint32x2,
        GpuVertexFormat::Sint32x3 => VertexFormat::Sint32x3,
        GpuVertexFormat::Sint32x4 => VertexFormat::Sint32x4,
        GpuVertexFormat::Float64 => VertexFormat::Float64,
        GpuVertexFormat::Float64x2 => VertexFormat::Float64x2,
        GpuVertexFormat::Float64x3 => VertexFormat::Float64x3,
        GpuVertexFormat::Float64x4 => VertexFormat::Float64x4,
    }
}

impl FromSpecImpl<GpuVertexFormat> for VertexFormat {
    open spec fn obeys_from_spec() -> bool {
        true
    }

    open spec fn from_spec(vf: GpuVertexFormat) -> VertexFormat {
        vertex_format_of(vf)
    }
}

/// Formats that a script tells apart stay apart.
pub proof fn lemma_vertex_format_injective(a: GpuVertexFormat, b: GpuVertexFormat)
    requires
        vertex_format_of(a) == vertex_format_of(b),
    ensures
        a == b,
{
}

impl From<GpuVertexFormat> for VertexFormat {
    fn from(vf: GpuVertexFormat) -> (format: VertexFormat) {
        match vf {
            GpuVertexFormat::Uint8x2 => VertexFormat::Uint8x2,
            GpuVertexFormat::Uint8x4 => VertexFormat::Uint8x4,
            GpuVertexFormat::Sint8x2 => VertexFormat::Sint8x2,
            GpuVertexFormat::Sint8x4 => VertexFormat::Sint8x4,
            GpuVertexFormat::Unorm8x2 => VertexFormat::Unorm8x2,
            GpuVertexFormat::Unorm8x4 => VertexFormat::Unorm8x4,
            GpuVertexFormat::Snorm8x2 => VertexFormat::Snorm8x2,
            GpuVertexFormat::Snorm8x4 => VertexFormat::Snorm8x4,
            GpuVertexFormat::Uint16x2 => VertexFormat::Uint16x2,
            GpuVertexFormat::Uint16x4 => VertexFormat::Uint16x4,
            GpuVertexFormat::Sint16x2 => VertexFormat::Sint16x2,
            GpuVertexFormat::Sint16x4 => VertexFormat::Sint16x4,
            GpuVertexFormat::Unorm16x2 => VertexFormat::Unorm16x2,
            GpuVertexFormat::Unorm16x4 => VertexFormat::Unorm16x4,
            GpuVertexFormat::Snorm16x2 => VertexFormat::Snorm16x2,
            GpuVertexFormat::Snorm16x4 => VertexFormat::Snorm16x4,
            GpuVertexFormat::Float16x2 => VertexFormat::Float16x2,
            GpuVertexFormat::Float16x4 => VertexFormat::Float16x4,
            GpuVertexFormat::Float32 => VertexFormat::Float32,
            GpuVertexFormat::Float32x2 => VertexFormat::Float32x2,
            GpuVertexFormat::Float32x3 => VertexFormat::Float32x3,
            GpuVertexFormat::Float32x4 => VertexFormat::Float32x4,
            GpuVertexFormat::Uint32 => VertexFormat::Uint32,
            GpuVertexFormat::Uint32x2 => VertexFormat::Uint32x2,
            GpuVertexFormat::Uint32x3 => VertexFormat::Uint32x3,
            GpuVertexFormat::Uint32x4 => VertexFormat::Uint32x4,
            GpuVertexFormat::Sint32 => VertexFormat::Sint32,
            GpuVertexFormat::Sint32x2 => VertexFormat::Sint32x2,
            GpuVertexFormat::Sint32x3 => VertexFormat::Sint32x3,
            GpuVertexFormat::Sint32x4 => VertexFormat::Sint32x4,
            GpuVertexFormat::Float64 => VertexFormat::Float64,
            GpuVertexFormat::Float64x2 => VertexFormat::Float64x2,
            GpuVertexFormat::Float64x3 => VertexFormat::Float64x3,
            GpuVertexFormat::Float64x4 => VertexFormat::Float64x4,
        }
    }
}

/// How often a vertex buffer advances to its next element.
#[derive(Clone, Copy, Debug, PartialEq, Eq, Hash)]
pub enum InputStepMode {
    Vertex,
    Instance,
}

/// The step mode that a name stands for, if it names one.
pub open spec fn step_mode_of(name: Seq<char>) -> Option<InputStepMode> {
    if name == "vertex"@ {
        Some(InputStepMode::Vertex)
    } else if name == "instance"@ {
        Some(InputStepMode::Instance)
    } else {
        None
    }
}

/// Reads the name of a step mode.
pub fn parse_step_mode(name: &str) -> (step_mode: Option<InputStepMode>)
    ensures
        step_mode == step_mode_of(name@),
{
    if str_eq(name, "vertex") {
        Some(InputStepMode::Vertex)
    } else if str_eq(name, "instance") {
        Some(InputStepMode::Instance)
    } else {
        None
    }
}

/// One vertex attribute as a script describes it.
#[derive(Clone, Copy, Debug, PartialEq, Eq, Hash)]
pub struct GpuVertexAttribute {
    pub format: GpuVertexFormat,
    pub offset: u64,
    pub shader_location: u32,
}

/// One vertex attribute: its format, where it starts within an element of
/// the buffer, and the shader input it feeds.
#[derive(Clone, Copy, Debug, PartialEq, Eq, Hash)]
pub struct VertexAttribute {
    pub format: VertexFormat,
    pub offset: u64,
    pub shader_location: u32,
}

impl GpuVertexAttribute {
    /// The attribute described.
    pub open spec fn resolved(self) -> VertexAttribute {
        VertexAttribute {
            format: vertex_format_of(self.format),
            offset: self.offset,
            shader_location: self.shader_location,
        }
    }
}

/// Resolves one vertex attribute.
pub fn serialize_vertex_attribute(attribute: GpuVertexAttribute) -> (resolved: VertexAttribute)
    ensures
        resolved == attribute.resolved(),
{
    VertexAttribute {
        format: VertexFormat::from(attribute.format),
        offset: attribute.offset,
        shader_location: attribute.shader_location,
    }
}

/// The layout of one vertex buffer as a script describes it.
#[derive(Debug, PartialEq, Eq)]
pub struct GpuVertexBufferLayout {
    pub array_stride: u64,
    pub step_mode: Option<String>,
    pub attributes: Vec<GpuVertexAttribute>,
}

/// The layout of one vertex buffer.
#[derive(Debug, PartialEq, Eq)]
pub struct VertexBufferLayout {
    pub array_stride: u64,
    pub step_mode: InputStepMode,
    pub attributes: Vec<VertexAttribute>,
}

/// What a `VertexBufferLayout` holds.
pub struct VertexBufferLayoutView {
    pub array_stride: u64,
    pub step_mode: InputStepMode,
    pub attributes: Seq<VertexAttribute>,
}

impl View for VertexBufferLayout {
    type V = VertexBufferLayoutView;

    open spec fn view(&self) -> VertexBufferLayoutView {
        VertexBufferLayoutView {
            array_stride: self.array_stride,
            step_mode: self.step_mode,
            attributes: self.attributes@,
        }
    }
}

impl GpuVertexBufferLayout {
    /// The step mode, if named, belongs to its vocabulary.
    pub open spec fn valid(&self) -> bool {
        self.step_mode matches Some(name) ==> step_mode_of(name@) is Some
    }

    /// The layout described: it steps per vertex unless told otherwise, and
    /// holds the attributes described, in their order.
    pub open spec fn resolved(&self) -> VertexBufferLayoutView
        recommends
            self.valid(),
    {
        VertexBufferLayoutView {
            array_stride: self.array_stride,
            step_mode: match self.step_mode {
                Some(name) => step_mode_of(name@).unwrap(),
                None => InputStepMode::Vertex,
            },
            attributes: self.attributes@.map_values(|a: GpuVertexAttribute| a.resolved()),
        }
    }

    /// Tests `valid`.
    pub fn is_valid(&self) -> (ok: bool)
        ensures
            ok == self.valid(),
    {
        match &self.step_mode {
            Some(name) => parse_step_mode(name.as_str()).is_some(),
            None => true,
        }
    }
}

/// Resolves the layout of one vertex buffer.
pub fn serialize_vertex_buffer_layout(buffer: GpuVertexBufferLayout) -> (layout:
    VertexBufferLayout)
    requires
        buffer.valid(),
    ensures
        layout@ == buffer.resolved(),
{
    let step_mode = match &buffer.step_mode {
        Some(name) => parse_step_mode(name.as_str()).unwrap(),
        None => InputStepMode::Vertex,
    };
    let mut attributes: Vec<VertexAttribute> = Vec::new();
    let ghost described = buffer.attributes@;
    for attribute in it: buffer.attributes.into_iter()
        invariant
            it.seq() == described,
            attributes.len() == it.index(),
            forall|k: int|
                0 <= k < it.index() ==> attributes[k] == (#[trigger] described[k]).resolved(),
    {
        attributes.push(serialize_vertex_attribute(attribute));
    }
    let layout = VertexBufferLayout { array_stride: buffer.array_stride, step_mode, attributes };
    assert(layout@.attributes =~= buffer.resolved().attributes);
    layout
}

/// The views of a sequence of layouts.
pub open spec fn layout_views(layouts: Seq<VertexBufferLayout>) -> Seq<VertexBufferLayoutView> {
    layouts.map_values(|layout: VertexBufferLayout| layout@)
}

/// The layout that a slot of a pipeline's buffer list describes; an empty
/// slot describes none.
pub open spec fn slot_layout(slot: Option<GpuVertexBufferLayout>) -> Option<
    VertexBufferLayoutView,
> {
    match slot {
        Some(buffer) => Some(buffer.resolved()),
        None => None,
    }
}

/// Every slot that is filled holds a valid layout.
pub open spec fn slots_valid(slots: Seq<Option<GpuVertexBufferLayout>>) -> bool {
    forall|i: int|
        0 <= i < slots.len() ==> ((#[trigger] slots[i]) matches Some(buffer) ==> buffer.valid())
}

/// The layouts of the filled slots, in their order.
pub open spec fn slot_layouts(slots: Seq<Option<GpuVertexBufferLayout>>) -> Seq<
    VertexBufferLayoutView,
> {
    slots.filter_map(|slot: Option<GpuVertexBufferLayout>| slot_layout(slot))
}

/// Every buffer layout in the list, if there is a list, is valid.
pub open spec fn vertex_buffers_valid(buffers: Option<Vec<Option<GpuVertexBufferLayout>>>) -> bool {
    buffers matches Some(slots) ==> slots_valid(slots@)
}

/// The layouts of the vertex buffers of a pipeline: those of the filled
/// slots of the list; none where no list is given.
pub open spec fn vertex_buffers_of(buffers: Option<Vec<Option<GpuVertexBufferLayout>>>) -> Seq<
    VertexBufferLayoutView,
> {
    match buffers {
        Some(slots) => slot_layouts(slots@),
        None => Seq::empty(),
    }
}

/// Tests `vertex_buffers_valid`.
pub fn vertex_buffers_are_valid(buffers: &Option<Vec<Option<GpuVertexBufferLayout>>>) -> (ok: bool)
    ensures
        ok == vertex_buffers_valid(*buffers),
{
    match buffers {
        Some(slots) => {
            let mut i: usize = 0;
            while i < slots.len()
                invariant
                    i <= slots.len(),
                    *buffers == Some(*slots),
                    forall|k: int|
                        0 <= k < i ==> ((#[trigger] slots@[k]) matches Some(buffer)
                            ==> buffer.valid()),
                decreases slots.len() - i,
            {
                let slot_ok = match &slots[i] {
                    Some(buffer) => buffer.is_valid(),
                    None => true,
                };
                if !slot_ok {
                    assert(!(slots@[i as int] matches Some(buffer) ==> buffer.valid()));
                    return false;
                }
                i += 1;
            }
            true
        },
        None => true,
    }
}

/// Resolves the vertex buffer layouts of a render pipeline.
pub fn serialize_vertex_buffers(buffers: Option<Vec<Option<GpuVertexBufferLayout>>>) -> (layouts:
    Vec<VertexBufferLayout>)
    requires
        vertex_buffers_valid(buffers),
    ensures
        layout_views(layouts@) == vertex_buffers_of(buffers),
{
    let mut layouts: Vec<VertexBufferLayout> = Vec::new();
    match buffers {
        Some(slots) => {
            let ghost described = slots@;
            for slot in it: slots.into_iter()
                invariant
                    it.seq() == described,
                    slots_valid(described),
                    layout_views(layouts@) == slot_layouts(described.take(it.index())),
            {
                proof {
                    let upto = described.take(it.index() + 1);
                    assert(upto.drop_last() == described.take(it.index()));
                    assert(upto.last() == slot);
                }
                match slot {
                    Some(buffer) => {
                        let ghost before = layouts@;
                        let ghost resolved = buffer.resolved();
                        layouts.push(serialize_vertex_buffer_layout(buffer));
                        assert(layout_views(layouts@) == layout_views(before).push(resolved));
                    },
                    None => {},
                }
            }
            assert(described.take(described.len() as int) == described);
        },
        None => {},
    }
    layouts
}

} // verus!
