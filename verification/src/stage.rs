//! The programmable stages of a pipeline: a shader module and the entry
//! point to run in it, with the fixed input or output around it.

use crate::blend::{serialize_color_target_state, ColorTargetState, GpuColorTargetState};
use crate::resource::ResourceId;
use crate::vertex::{
    layout_views, serialize_vertex_buffers, vertex_buffers_are_valid, vertex_buffers_of,
    vertex_buffers_valid, GpuVertexBufferLayout, VertexBufferLayout, VertexBufferLayoutView,
};
use vstd::prelude::*;

verus! {

/// A programmable stage as a script describes it: the identifier of a shader
/// module in the resource table, and the name of an entry point.
#[derive(Debug, PartialEq, Eq)]
pub struct GpuProgrammableStage {
    pub module: ResourceId,
    pub entry_point: String,
}

/// A programmable stage: the handle of a shader module, and the name of an
/// entry point.
#[derive(Debug, PartialEq, Eq)]
pub struct ProgrammableStageDescriptor<M> {
    pub module: M,
    pub entry_point: String,
}

/// What a `ProgrammableStageDescriptor` holds.
pub struct ProgrammableStageView<M> {
    pub module: M,
    pub entry_point: Seq<char>,
}

impl<M> View for ProgrammableStageDescriptor<M> {
    type V = ProgrammableStageView<M>;

    open spec fn view(&self) -> ProgrammableStageView<M> {
        ProgrammableStageView { module: self.module, entry_point: self.entry_point@ }
    }
}

/// The vertex stage as a script describes it.
#[derive(Debug, PartialEq, Eq)]
pub struct GpuVertexState {
    pub module: ResourceId,
    pub entry_point: String,
    pub buffers: Option<Vec<Option<GpuVertexBufferLayout>>>,
}

/// The vertex stage and the layouts of the buffers that feed it.
#[derive(Debug, PartialEq, Eq)]
pub struct VertexState<M> {
    pub stage: ProgrammableStageDescriptor<M>,
    pub buffers: Vec<VertexBufferLayout>,
}

/// What a `VertexState` holds.
pub struct VertexStateView<M> {
    pub stage: ProgrammableStageView<M>,
    pub buffers: Seq<VertexBufferLayoutView>,
}

impl<M> View for VertexState<M> {
    type V = VertexStateView<M>;

    open spec fn view(&self) -> VertexStateView<M> {
        VertexStateView { stage: self.stage@, buffers: layout_views(self.buffers@) }
    }
}

impl GpuVertexState {
    /// Every buffer layout that is present is valid.
    pub open spec fn valid(&self) -> bool {
        vertex_buffers_valid(self.buffers)
    }

    /// The vertex stage described, run in the shader module `module`.
    pub open spec fn resolved<M>(&self, module: M) -> VertexStateView<M>
        recommends
            self.valid(),
    {
        VertexStateView {
            stage: ProgrammableStageView { module, entry_point: self.entry_point@ },
            buffers: vertex_buffers_of(self.buffers),
        }
    }

    /// Tests `valid`.
    pub fn is_valid(&self) -> (ok: bool)
        ensures
            ok == self.valid(),
    {
        vertex_buffers_are_valid(&self.buffers)
    }
}

/// Resolves the vertex stage of a render pipeline; `module` is the handle
/// found under `vertex.module`.
pub fn serialize_vertex_state<M>(vertex: GpuVertexState, module: M) -> (state: VertexState<M>)
    requires
        vertex.valid(),
    ensures
        state@ == vertex.resolved(module),
{
    VertexState {
        stage: ProgrammableStageDescriptor { module, entry_point: vertex.entry_point },
        buffers: serialize_vertex_buffers(vertex.buffers),
    }
}

/// The fragment stage as a script describes it.
#[derive(Debug, PartialEq, Eq)]
pub struct GpuFragmentState {
    pub targets: Vec<GpuColorTargetState>,
    pub module: ResourceId,
    pub entry_point: String,
}

/// The fragment stage and the color targets that it writes.
#[derive(Debug, PartialEq, Eq)]
pub struct FragmentState<M> {
    pub stage: ProgrammableStageDescriptor<M>,
    pub targets: Vec<ColorTargetState>,
}

/// What a `FragmentState` holds.
pub struct FragmentStateView<M> {
    pub stage: ProgrammableStageView<M>,
    pub targets: Seq<ColorTargetState>,
}

impl<M> View for FragmentState<M> {
    type V = FragmentStateView<M>;

    open spec fn view(&self) -> FragmentStateView<M> {
        FragmentStateView { stage: self.stage@, targets: self.targets@ }
    }
}

/// Every color target is valid.
pub open spec fn color_targets_valid(targets: Seq<GpuColorTargetState>) -> bool {
    forall|i: int| 0 <= i < targets.len() ==> (#[trigger] targets[i]).valid()
}

/// The color targets described, in their order.
pub open spec fn color_targets_of(targets: Seq<GpuColorTargetState>) -> Seq<ColorTargetState> {
    targets.map_values(|target: GpuColorTargetState| target.resolved())
}

/// Tests `color_targets_valid`.
pub fn color_targets_are_valid(targets: &Vec<GpuColorTargetState>) -> (ok: bool)
    ensures
        ok == color_targets_valid(targets@),
{
    let mut i: usize = 0;
    while i < targets.len()
        invariant
            i <= targets.len(),
            forall|k: int| 0 <= k < i ==> (#[trigger] targets[k]).valid(),
        decreases targets.len() - i,
    {
        if !targets[i].is_valid() {
            return false;
        }
        i += 1;
    }
    true
}

/// Resolves the color targets of a fragment stage.
pub fn serialize_color_targets(targets: Vec<GpuColorTargetState>) -> (resolved: Vec<
    ColorTargetState,
>)
    requires
        color_targets_valid(targets@),
    ensures
        resolved@ == color_targets_of(targets@),
{
    let mut resolved: Vec<ColorTargetState> = Vec::new();
    let ghost described = targets@;
    for target in it: targets.into_iter()
        invariant
            it.seq() == described,
            color_targets_valid(described),
            resolved.len() == it.index(),
            forall|k: int|
                0 <= k < it.index() ==> resolved[k] == (#[trigger] described[k]).resolved(),
    {
        resolved.push(serialize_color_target_state(target));
    }
    resolved
}

impl GpuFragmentState {
    /// Every color target is valid.
    pub open spec fn valid(&self) -> bool {
        color_targets_valid(self.targets@)
    }

    /// The fragment stage described, run in the shader module `module`.
    pub open spec fn resolved<M>(&self, module: M) -> FragmentStateView<M>
        recommends
            self.valid(),
    {
        FragmentStateView {
            stage: ProgrammableStageView { module, entry_point: self.entry_point@ },
            targets: color_targets_of(self.targets@),
        }
    }

    /// Tests `valid`.
    pub fn is_valid(&self) -> (ok: bool)
        ensures
            ok == self.valid(),
    {
        color_targets_are_valid(&self.targets)
    }
}

/// Resolves the fragment stage of a render pipeline; `module` is the handle
/// found under `fragment.module`.
pub fn serialize_fragment_state<M>(fragment: GpuFragmentState, module: M) -> (state:
    FragmentState<M>)
    requires
        fragment.valid(),
    ensures
        state@ == fragment.resolved(module),
{
    FragmentState {
        stage: ProgrammableStageDescriptor { module, entry_point: fragment.entry_point },
        targets: serialize_color_targets(fragment.targets),
    }
}

} // verus!
