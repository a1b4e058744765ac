//! The pipeline operations. Each one is split around the native call that it
//! leads to: from the script's arguments and the handles found in the
//! resource table it decides what to ask of the native library, and from
//! what the native library answered it makes what goes back to the script.

use crate::depth_stencil::{serialize_depth_stencil_state, DepthStencilState, GpuDepthStencilState};
use crate::error::WebGpuError;
use crate::multisample::{
    multisample_state_of, serialize_multisample_state, GpuMultisampleState, MultisampleState,
};
use crate::native::max_bind_groups;
use crate::primitive::{
    primitive_state_of, serialize_primitive_state, GpuPrimitiveState, PrimitiveState,
};
use crate::resource::{BadResourceId, ResourceId};
use crate::stage::{
    serialize_fragment_state, serialize_vertex_state, FragmentState, FragmentStateView,
    GpuFragmentState, GpuProgrammableStage, GpuVertexState, ProgrammableStageDescriptor,
    ProgrammableStageView, VertexState, VertexStateView,
};
use crate::text::text_of;
use vstd::prelude::*;

verus! {

/// The layout that a pipeline is created with: the handle found under the
/// identifier that the script gave, none where it gave no identifier.
pub open spec fn explicit_layout<L>(rid: Option<ResourceId>, found: Option<L>) -> Option<L> {
    match rid {
        Some(_) => found,
        None => None,
    }
}

/// The most bind group layouts that a pipeline layout of the native library
/// holds.
pub const MAX_BIND_GROUPS: usize = 8;

/// The identifiers set aside for a layout that the native library derives
/// from the shaders: one for the pipeline layout itself, and `group_ids` for
/// its bind group layouts.
#[derive(Clone, Copy, Debug, PartialEq, Eq)]
pub struct ImplicitPipelineIds {
    pub group_ids: usize,
}

/// What is set aside for a derived layout: nothing where the script names a
/// layout, else room for as many bind group layouts as a layout can hold.
pub open spec fn implicit_pipeline_ids(layout: Option<ResourceId>) -> Option<ImplicitPipelineIds> {
    match layout {
        Some(_) => None,
        None => Some(ImplicitPipelineIds { group_ids: MAX_BIND_GROUPS }),
    }
}

fn implicit_pipeline_ids_for(layout: Option<ResourceId>) -> (ids: Option<ImplicitPipelineIds>)
    ensures
        ids == implicit_pipeline_ids(layout),
{
    match layout {
        Some(_) => None,
        None => Some(ImplicitPipelineIds { group_ids: max_bind_groups() }),
    }
}

/// The script's arguments for creating a compute pipeline.
#[derive(Debug, PartialEq, Eq)]
pub struct CreateComputePipelineArgs {
    pub device_rid: ResourceId,
    pub label: Option<String>,
    pub layout: Option<ResourceId>,
    pub compute: GpuProgrammableStage,
}

/// What the native library is given to create a compute pipeline from.
#[derive(Debug, PartialEq, Eq)]
pub struct ComputePipelineDescriptor<L, M> {
    pub label: Option<String>,
    pub layout: Option<L>,
    pub stage: ProgrammableStageDescriptor<M>,
}

/// What a `ComputePipelineDescriptor` holds.
pub struct ComputePipelineDescriptorView<L, M> {
    pub label: Option<Seq<char>>,
    pub layout: Option<L>,
    pub stage: ProgrammableStageView<M>,
}

impl<L, M> View for ComputePipelineDescriptor<L, M> {
    type V = ComputePipelineDescriptorView<L, M>;

    open spec fn view(&self) -> ComputePipelineDescriptorView<L, M> {
        ComputePipelineDescriptorView {
            label: text_of(self.label),
            layout: self.layout,
            stage: self.stage@,
        }
    }
}

/// The request to create a compute pipeline: on which device, from which
/// descriptor, and with what set aside for a layout that the native library
/// is to derive.
#[derive(Debug, PartialEq, Eq)]
pub struct ComputePipelineRequest<D, L, M> {
    pub device: D,
    pub descriptor: ComputePipelineDescriptor<L, M>,
    pub implicit_pipelines: Option<ImplicitPipelineIds>,
}

impl CreateComputePipelineArgs {
    /// Whether the resource table held what the arguments name: `device`
    /// under `device_rid`, `module` under the identifier of the shader
    /// module, and `layout` under that of the layout, if one is given.
    pub open spec fn handles_found<D, L, M>(
        &self,
        device: Option<D>,
        layout: Option<L>,
        module: Option<M>,
    ) -> bool {
        &&& device is Some
        &&& self.layout is Some ==> layout is Some
        &&& module is Some
    }

    /// The descriptor of the pipeline described, with the handles found.
    pub open spec fn descriptor<L, M>(
        &self,
        layout: Option<L>,
        module: M,
    ) -> ComputePipelineDescriptorView<L, M> {
        ComputePipelineDescriptorView {
            label: text_of(self.label),
            layout: explicit_layout(self.layout, layout),
            stage: ProgrammableStageView { module, entry_point: self.compute.entry_point@ },
        }
    }
}

/// Decides what creating a compute pipeline asks of the native library.
///
/// `device`, `layout` and `module` are what the resource table holds under
/// the identifiers in `args`; `layout` counts only where `args` names a
/// layout. An identifier under which nothing was found ends the operation.
/// Room for a derived layout is set aside exactly when `args` names none.
pub fn op_webgpu_create_compute_pipeline<D, L, M>(
    args: CreateComputePipelineArgs,
    device: Option<D>,
    layout: Option<L>,
    module: Option<M>,
) -> (result: Result<ComputePipelineRequest<D, L, M>, BadResourceId>)
    ensures
        result is Ok <==> args.handles_found(device, layout, module),
        result matches Ok(request) ==> {
            &&& Some(request.device) == device
            &&& request.descriptor@ == args.descriptor(layout, module.unwrap())
            &&& request.implicit_pipelines == implicit_pipeline_ids(args.layout)
        },
{
    let device = match device {
        Some(device) => device,
        None => {
            return Err(BadResourceId);
        },
    };
    let pipeline_layout = match args.layout {
        Some(_) => match layout {
            Some(layout) => Some(layout),
            None => {
                return Err(BadResourceId);
            },
        },
        None => None,
    };
    let module = match module {
        Some(module) => module,
        None => {
            return Err(BadResourceId);
        },
    };
    let implicit_pipelines = implicit_pipeline_ids_for(args.layout);
    Ok(
        ComputePipelineRequest {
            device,
            descriptor: ComputePipelineDescriptor {
                label: args.label,
                layout: pipeline_layout,
                stage: ProgrammableStageDescriptor {
                    module,
                    entry_point: args.compute.entry_point,
                },
            },
            implicit_pipelines,
        },
    )
}

/// The script's arguments for asking a compute pipeline for one of its bind
/// group layouts.
#[derive(Clone, Copy, Debug, PartialEq, Eq)]
pub struct ComputePipelineGetBindGroupLayoutArgs {
    pub compute_pipeline_rid: ResourceId,
    pub index: u32,
}

/// The script's arguments for asking a render pipeline for one of its bind
/// group layouts.
#[derive(Clone, Copy, Debug, PartialEq, Eq)]
pub struct RenderPipelineGetBindGroupLayoutArgs {
    pub render_pipeline_rid: ResourceId,
    pub index: u32,
}

/// The request for the bind group layout at `index` of `pipeline`.
#[derive(Debug, PartialEq, Eq)]
pub struct BindGroupLayoutRequest<P> {
    pub pipeline: P,
    pub index: u32,
}

/// A bind group layout of a pipeline, as the script gets it: its identifier
/// in the resource table, its label, and the error that the native library
/// reported when asked for it.
#[derive(Debug, PartialEq, Eq)]
pub struct PipelineLayout {
    pub rid: ResourceId,
    pub label: String,
    pub err: Option<WebGpuError>,
}

impl PipelineLayout {
    /// The answer for a bind group layout that was entered in the resource
    /// table under `rid`.
    pub fn new(rid: ResourceId, label: String, err: Option<WebGpuError>) -> (layout: PipelineLayout)
        ensures
            layout.rid == rid,
            layout.label == label,
            layout.err == err,
    {
        PipelineLayout { rid, label, err }
    }
}

/// Decides what asking a compute pipeline for a bind group layout asks of
/// the native library. `compute_pipeline` is what the resource table holds
/// under `args.compute_pipeline_rid`; where it holds nothing, the operation
/// ends.
pub fn op_webgpu_compute_pipeline_get_bind_group_layout<P>(
    args: ComputePipelineGetBindGroupLayoutArgs,
    compute_pipeline: Option<P>,
) -> (result: Result<BindGroupLayoutRequest<P>, BadResourceId>)
    ensures
        result == match compute_pipeline {
            Some(pipeline) => Ok(BindGroupLayoutRequest { pipeline, index: args.index }),
            None => Err(BadResourceId),
        },
{
    match compute_pipeline {
        Some(pipeline) => Ok(BindGroupLayoutRequest { pipeline, index: args.index }),
        None => Err(BadResourceId),
    }
}

/// Decides what asking a render pipeline for a bind group layout asks of
/// the native library. `render_pipeline` is what the resource table holds
/// under `args.render_pipeline_rid`; where it holds nothing, the operation
/// ends.
pub fn op_webgpu_render_pipeline_get_bind_group_layout<P>(
    args: RenderPipelineGetBindGroupLayoutArgs,
    render_pipeline: Option<P>,
) -> (result: Result<BindGroupLayoutRequest<P>, BadResourceId>)
    ensures
        result == match render_pipeline {
            Some(pipeline) => Ok(BindGroupLayoutRequest { pipeline, index: args.index }),
            None => Err(BadResourceId),
        },
{
    match render_pipeline {
        Some(pipeline) => Ok(BindGroupLayoutRequest { pipeline, index: args.index }),
        None => Err(BadResourceId),
    }
}

/// The script's arguments for creating a render pipeline.
#[derive(Debug, PartialEq, Eq)]
pub struct CreateRenderPipelineArgs {
    pub device_rid: ResourceId,
    pub label: Option<String>,
    pub layout: Option<ResourceId>,
    pub vertex: GpuVertexState,
    pub primitive: Option<GpuPrimitiveState>,
    pub depth_stencil: Option<GpuDepthStencilState>,
    pub multisample: Option<GpuMultisampleState>,
    pub fragment: Option<GpuFragmentState>,
}

/// What the native library is given to create a render pipeline from.
#[derive(Debug, PartialEq, Eq)]
pub struct RenderPipelineDescriptor<L, M> {
    pub label: Option<String>,
    pub layout: Option<L>,
    pub vertex: VertexState<M>,
    pub primitive: PrimitiveState,
    pub depth_stencil: Option<DepthStencilState>,
    pub multisample: MultisampleState,
    pub fragment: Option<FragmentState<M>>,
}

/// What a `RenderPipelineDescriptor` holds.
pub struct RenderPipelineDescriptorView<L, M> {
    pub label: Option<Seq<char>>,
    pub layout: Option<L>,
    pub vertex: VertexStateView<M>,
    pub primitive: PrimitiveState,
    pub depth_stencil: Option<DepthStencilState>,
    pub multisample: MultisampleState,
    pub fragment: Option<FragmentStateView<M>>,
}

impl<L, M> View for RenderPipelineDescriptor<L, M> {
    type V = RenderPipelineDescriptorView<L, M>;

    open spec fn view(&self) -> RenderPipelineDescriptorView<L, M> {
        RenderPipelineDescriptorView {
            label: text_of(self.label),
            layout: self.layout,
            vertex: self.vertex@,
            primitive: self.primitive,
            depth_stencil: self.depth_stencil,
            multisample: self.multisample,
            fragment: match self.fragment {
                Some(fragment) => Some(fragment@),
                None => None,
            },
        }
    }
}

/// The request to create a render pipeline: on which device, from which
/// descriptor, and with what set aside for a layout that the native library
/// is to derive.
#[derive(Debug, PartialEq, Eq)]
pub struct RenderPipelineRequest<D, L, M> {
    pub device: D,
    pub descriptor: RenderPipelineDescriptor<L, M>,
    pub implicit_pipelines: Option<ImplicitPipelineIds>,
}

impl CreateRenderPipelineArgs {
    /// Every name, format and mask in the description belongs to its
    /// vocabulary.
    pub open spec fn valid(&self) -> bool {
        &&& self.vertex.valid()
        &&& self.primitive matches Some(primitive) ==> primitive.valid()
        &&& self.depth_stencil matches Some(depth_stencil) ==> depth_stencil.valid()
        &&& self.fragment matches Some(fragment) ==> fragment.valid()
    }

    /// Whether the resource table held what the arguments name: `device`
    /// under `device_rid`, `vertex_module` under the identifier of the
    /// vertex shader module, `layout` under that of the layout, if one is
    /// given, and `fragment_module` under that of the fragment shader
    /// module, if a fragment stage is described.
    pub open spec fn handles_found<D, L, M>(
        &self,
        device: Option<D>,
        layout: Option<L>,
        vertex_module: Option<M>,
        fragment_module: Option<M>,
    ) -> bool {
        &&& device is Some
        &&& self.layout is Some ==> layout is Some
        &&& vertex_module is Some
        &&& self.fragment is Some ==> fragment_module is Some
    }

    /// The descriptor of the pipeline described, with the handles found.
    pub open spec fn descriptor<L, M>(
        &self,
        layout: Option<L>,
        vertex_module: M,
        fragment_module: Option<M>,
    ) -> RenderPipelineDescriptorView<L, M>
        recommends
            self.valid(),
            self.fragment is Some ==> fragment_module is Some,
    {
        RenderPipelineDescriptorView {
            label: text_of(self.label),
            layout: explicit_layout(self.layout, layout),
            vertex: self.vertex.resolved(vertex_module),
            primitive: primitive_state_of(self.primitive),
            depth_stencil: match self.depth_stencil {
                Some(depth_stencil) => Some(depth_stencil.resolved()),
                None => None,
            },
            multisample: multisample_state_of(self.multisample),
            fragment: match self.fragment {
                Some(fragment) => Some(fragment.resolved(fragment_module.unwrap())),
                None => None,
            },
        }
    }

    /// Whether the operation can be carried out with the handles found:
    /// where it does not end for want of a handle, the description is valid.
    pub open spec fn resolvable<D, L, M>(
        &self,
        device: Option<D>,
        layout: Option<L>,
        vertex_module: Option<M>,
        fragment_module: Option<M>,
    ) -> bool {
        self.handles_found(device, layout, vertex_module, fragment_module) ==> self.valid()
    }

    /// Tests `resolvable`.
    pub fn is_resolvable<D, L, M>(
        &self,
        device: &Option<D>,
        layout: &Option<L>,
        vertex_module: &Option<M>,
        fragment_module: &Option<M>,
    ) -> (ok: bool)
        ensures
            ok == self.resolvable(*device, *layout, *vertex_module, *fragment_module),
    {
        let found = device.is_some() && (self.layout.is_none() || layout.is_some())
            && vertex_module.is_some() && (self.fragment.is_none() || fragment_module.is_some());
        if found {
            self.is_valid()
        } else {
            true
        }
    }

    /// Tests `valid`.
    pub fn is_valid(&self) -> (ok: bool)
        ensures
            ok == self.valid(),
    {
        let vertex_ok = self.vertex.is_valid();
        let primitive_ok = match &self.primitive {
            Some(primitive) => primitive.is_valid(),
            None => true,
        };
        let depth_stencil_ok = match &self.depth_stencil {
            Some(depth_stencil) => depth_stencil.is_valid(),
            None => true,
        };
        let fragment_ok = match &self.fragment {
            Some(fragment) => fragment.is_valid(),
            None => true,
        };
        vertex_ok && primitive_ok && depth_stencil_ok && fragment_ok
    }
}

/// Decides what creating a render pipeline asks of the native library.
///
/// `device`, `layout`, `vertex_module` and `fragment_module` are what the
/// resource table holds under the identifiers in `args`; `layout` and
/// `fragment_module` count only where `args` names a layout or describes a
/// fragment stage. An identifier under which nothing was found ends the
/// operation, whatever else `args` holds. Otherwise the description must be
/// valid: `is_resolvable` tests that. Room for a derived layout is set aside
/// exactly when `args` names none.
pub fn op_webgpu_create_render_pipeline<D, L, M>(
    args: CreateRenderPipelineArgs,
    device: Option<D>,
    layout: Option<L>,
    vertex_module: Option<M>,
    fragment_module: Option<M>,
) -> (result: Result<RenderPipelineRequest<D, L, M>, BadResourceId>)
    requires
        args.resolvable(device, layout, vertex_module, fragment_module),
    ensures
        result is Ok <==> args.handles_found(device, layout, vertex_module, fragment_module),
        result matches Ok(request) ==> {
            &&& Some(request.device) == device
            &&& request.descriptor@ == args.descriptor(
                layout,
                vertex_module.unwrap(),
                fragment_module,
            )
            &&& request.implicit_pipelines == implicit_pipeline_ids(args.layout)
        },
{
    let device = match device {
        Some(device) => device,
        None => {
            return Err(BadResourceId);
        },
    };
    let pipeline_layout = match args.layout {
        Some(_) => match layout {
            Some(layout) => Some(layout),
            None => {
                return Err(BadResourceId);
            },
        },
        None => None,
    };
    let vertex_module = match vertex_module {
        Some(module) => module,
        None => {
            return Err(BadResourceId);
        },
    };
    if args.fragment.is_some() && fragment_module.is_none() {
        return Err(BadResourceId);
    }
    let implicit_pipelines = implicit_pipeline_ids_for(args.layout);
    let descriptor = RenderPipelineDescriptor {
        label: args.label,
        layout: pipeline_layout,
        vertex: serialize_vertex_state(args.vertex, vertex_module),
        primitive: serialize_primitive_state(args.primitive),
        depth_stencil: match args.depth_stencil {
            Some(depth_stencil) => Some(serialize_depth_stencil_state(depth_stencil)),
            None => None,
        },
        multisample: serialize_multisample_state(args.multisample),
        fragment: match args.fragment {
            Some(fragment) => Some(serialize_fragment_state(fragment, fragment_module.unwrap())),
            None => None,
        },
    };
    Ok(RenderPipelineRequest { device, descriptor, implicit_pipelines })
}

} // verus!
