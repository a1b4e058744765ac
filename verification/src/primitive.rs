//! Primitive assembly and rasterization state: the names a script may use for
//! it, and the state a render pipeline is created with.

use crate::native::polygon_mode_default;
use crate::text::str_eq;
use vstd::prelude::*;

verus! {

/// Width of the indices in an index buffer.
#[derive(Clone, Copy, Debug, PartialEq, Eq, Hash)]
pub enum IndexFormat {
    Uint16,
    Uint32,
}

/// How consecutive vertices are assembled into primitives.
#[derive(Clone, Copy, Debug, PartialEq, Eq, Hash)]
pub enum PrimitiveTopology {
    PointList,
    LineList,
    LineStrip,
    TriangleList,
    TriangleStrip,
}

/// Winding order of the vertices of a front-facing triangle.
#[derive(Clone, Copy, Debug, PartialEq, Eq, Hash)]
pub enum FrontFace {
    Ccw,
    Cw,
}

/// One side of a triangle.
#[derive(Clone, Copy, Debug, PartialEq, Eq, Hash)]
pub enum Face {
    Front,
    Back,
}

/// How the interior of a polygon is rasterized.
#[derive(Clone, Copy, Debug, PartialEq, Eq, Hash)]
pub enum PolygonMode {
    Fill,
    Line,
    Point,
}

/// The index format that a name stands for, if it names one.
pub open spec fn index_format_of(name: Seq<char>) -> Option<IndexFormat> {
    if name == "uint16"@ {
        Some(IndexFormat::Uint16)
    } else if name == "uint32"@ {
        Some(IndexFormat::Uint32)
    } else {
        None
    }
}

/// The topology that a name stands for, if it names one.
pub open spec fn topology_of(name: Seq<char>) -> Option<PrimitiveTopology> {
    if name == "point-list"@ {
        Some(PrimitiveTopology::PointList)
    } else if name == "line-list"@ {
        Some(PrimitiveTopology::LineList)
    } else if name == "line-strip"@ {
        Some(PrimitiveTopology::LineStrip)
    } else if name == "triangle-list"@ {
        Some(PrimitiveTopology::TriangleList)
    } else if name == "triangle-strip"@ {
        Some(PrimitiveTopology::TriangleStrip)
    } else {
        None
    }
}

/// The winding order that a name stands for, if it names one.
pub open spec fn front_face_of(name: Seq<char>) -> Option<FrontFace> {
    if name == "ccw"@ {
        Some(FrontFace::Ccw)
    } else if name == "cw"@ {
        Some(FrontFace::Cw)
    } else {
        None
    }
}

/// The culling that a name stands for, if it names one: `Some(None)` is the
/// request to cull nothing.
pub open spec fn cull_mode_of(name: Seq<char>) -> Option<Option<Face>> {
    if name == "none"@ {
        Some(None)
    } else if name == "front"@ {
        Some(Some(Face::Front))
    } else if name == "back"@ {
        Some(Some(Face::Back))
    } else {
        None
    }
}

/// Reads the name of an index format.
pub fn parse_index_format(name: &str) -> (format: Option<IndexFormat>)
    ensures
        format == index_format_of(name@),
{
    if str_eq(name, "uint16") {
        Some(IndexFormat::Uint16)
    } else if str_eq(name, "uint32") {
        Some(IndexFormat::Uint32)
    } else {
        None
    }
}

/// The index format named by `format`, which must name one.
pub fn serialize_index_format(format: String) -> (index_format: IndexFormat)
    requires
        index_format_of(format@) is Some,
    ensures
        index_format_of(format@) == Some(index_format),
{
    parse_index_format(format.as_str()).unwrap()
}

/// Reads the name of a primitive topology.
pub fn parse_topology(name: &str) -> (topology: Option<PrimitiveTopology>)
    ensures
        topology == topology_of(name@),
{
    if str_eq(name, "point-list") {
        Some(PrimitiveTopology::PointList)
    } else if str_eq(name, "line-list") {
        Some(PrimitiveTopology::LineList)
    } else if str_eq(name, "line-strip") {
        Some(PrimitiveTopology::LineStrip)
    } else if str_eq(name, "triangle-list") {
        Some(PrimitiveTopology::TriangleList)
    } else if str_eq(name, "triangle-strip") {
        Some(PrimitiveTopology::TriangleStrip)
    } else {
        None
    }
}

/// Reads the name of a winding order.
pub fn parse_front_face(name: &str) -> (front_face: Option<FrontFace>)
    ensures
        front_face == front_face_of(name@),
{
    if str_eq(name, "ccw") {
        Some(FrontFace::Ccw)
    } else if str_eq(name, "cw") {
        Some(FrontFace::Cw)
    } else {
        None
    }
}

/// Reads the name of a cull mode.
pub fn parse_cull_mode(name: &str) -> (cull_mode: Option<Option<Face>>)
    ensures
        cull_mode == cull_mode_of(name@),
{
    if str_eq(name, "none") {
        Some(None)
    } else if str_eq(name, "front") {
        Some(Some(Face::Front))
    } else if str_eq(name, "back") {
        Some(Some(Face::Back))
    } else {
        None
    }
}

/// Primitive state as a script describes it: each name optional.
#[derive(Debug, PartialEq, Eq)]
pub struct GpuPrimitiveState {
    pub topology: Option<String>,
    pub strip_index_format: Option<String>,
    pub front_face: Option<String>,
    pub cull_mode: Option<String>,
    pub clamp_depth: bool,
}

/// Primitive state as a render pipeline is created with it.
#[derive(Clone, Copy, Debug, PartialEq, Eq, Hash)]
pub struct PrimitiveState {
    pub topology: PrimitiveTopology,
    pub strip_index_format: Option<IndexFormat>,
    pub front_face: FrontFace,
    pub cull_mode: Option<Face>,
    pub clamp_depth: bool,
    pub polygon_mode: PolygonMode,
    pub conservative: bool,
}

impl Default for PolygonMode {
    /// Polygons are filled.
    fn default() -> (mode: PolygonMode)
        ensures
            mode == PolygonMode::Fill,
    {
        polygon_mode_default()
    }
}

impl PrimitiveState {
    /// The state of a pipeline whose description leaves the primitive state
    /// out: filled counter-clockwise triangle lists, nothing culled.
    pub open spec fn unset() -> PrimitiveState {
        PrimitiveState {
            topology: PrimitiveTopology::TriangleList,
            strip_index_format: None,
            front_face: FrontFace::Ccw,
            cull_mode: None,
            clamp_depth: false,
            polygon_mode: PolygonMode::Fill,
            conservative: false,
        }
    }
}

impl Default for PrimitiveState {
    fn default() -> (state: PrimitiveState)
        ensures
            state == PrimitiveState::unset(),
    {
        PrimitiveState {
            topology: PrimitiveTopology::TriangleList,
            strip_index_format: None,
            front_face: FrontFace::Ccw,
            cull_mode: None,
            clamp_depth: false,
            polygon_mode: PolygonMode::Fill,
            conservative: false,
        }
    }
}

impl GpuPrimitiveState {
    /// Every name that is present belongs to its vocabulary.
    pub open spec fn valid(&self) -> bool {
        &&& self.topology matches Some(name) ==> topology_of(name@) is Some
        &&& self.strip_index_format matches Some(name) ==> index_format_of(name@) is Some
        &&& self.front_face matches Some(name) ==> front_face_of(name@) is Some
        &&& self.cull_mode matches Some(name) ==> cull_mode_of(name@) is Some
    }

    /// The state described: each name read, each absent name replaced by its
    /// default. Polygons are always filled, never rasterized conservatively.
    pub open spec fn resolved(&self) -> PrimitiveState
        recommends
            self.valid(),
    {
        PrimitiveState {
            topology: match self.topology {
                Some(name) => topology_of(name@).unwrap(),
                None => PrimitiveTopology::TriangleList,
            },
            strip_index_format: match self.strip_index_format {
                Some(name) => Some(index_format_of(name@).unwrap()),
                None => None,
            },
            front_face: match self.front_face {
                Some(name) => front_face_of(name@).unwrap(),
                None => FrontFace::Ccw,
            },
            cull_mode: match self.cull_mode {
                Some(name) => cull_mode_of(name@).unwrap(),
                None => None,
            },
            clamp_depth: self.clamp_depth,
            polygon_mode: PolygonMode::Fill,
            conservative: false,
        }
    }

    /// Tests `valid`.
    pub fn is_valid(&self) -> (ok: bool)
        ensures
            ok == self.valid(),
    {
        let topology_ok = match &self.topology {
            Some(name) => parse_topology(name.as_str()).is_some(),
            None => true,
        };
        let index_ok = match &self.strip_index_format {
            Some(name) => parse_index_format(name.as_str()).is_some(),
            None => true,
        };
        let front_ok = match &self.front_face {
            Some(name) => parse_front_face(name.as_str()).is_some(),
            None => true,
        };
        let cull_ok = match &self.cull_mode {
            Some(name) => parse_cull_mode(name.as_str()).is_some(),
            None => true,
        };
        topology_ok && index_ok && front_ok && cull_ok
    }
}

/// The primitive state of a pipeline described with `primitive`.
pub open spec fn primitive_state_of(primitive: Option<GpuPrimitiveState>) -> PrimitiveState {
    match primitive {
        Some(state) => state.resolved(),
        None => PrimitiveState::unset(),
    }
}

/// Resolves the primitive state of a render pipeline.
pub fn serialize_primitive_state(primitive: Option<GpuPrimitiveState>) -> (state: PrimitiveState)
    requires
        primitive matches Some(described) ==> described.valid(),
    ensures
        state == primitive_state_of(primitive),
{
    match primitive {
        Some(described) => PrimitiveState {
            topology: match &described.topology {
                Some(name) => parse_topology(name.as_str()).unwrap(),
                None => PrimitiveTopology::TriangleList,
            },
            strip_index_format: match described.strip_index_format {
                Some(name) => Some(serialize_index_format(name)),
                None => None,
            },
            front_face: match &described.front_face {
                Some(name) => parse_front_face(name.as_str()).unwrap(),
                None => FrontFace::Ccw,
            },
            cull_mode: match &described.cull_mode {
                Some(name) => parse_cull_mode(name.as_str()).unwrap(),
                None => None,
            },
            clamp_depth: described.clamp_depth,
            polygon_mode: PolygonMode::default(),
            conservative: false,
        },
        None => PrimitiveState::default(),
    }
}

} // verus!
