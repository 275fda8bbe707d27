//! The one graphics pipeline of a context: its fixed state, and the order of
//! driver calls that builds it.

use crate::codes::{
    BLEND_FACTOR_ONE_MINUS_SRC_ALPHA, BLEND_FACTOR_SRC_ALPHA, BLEND_OP_ADD, COLOR_COMPONENT_A,
    COLOR_COMPONENT_B, COLOR_COMPONENT_G, COLOR_COMPONENT_R, CULL_MODE_NONE,
    FRONT_FACE_COUNTER_CLOCKWISE, POLYGON_MODE_FILL, SAMPLE_COUNT_1, SHADER_STAGE_FRAGMENT,
    SHADER_STAGE_VERTEX, TOPOLOGY_POINT_LIST,
};
use crate::error::{BootstrapError, Stage};
use crate::resource::{Resource, ResourceKind};
use crate::surface::Extent2D;
use vstd::prelude::*;

verus! {

/// The area that is rendered to, in whole pixels.
#[derive(Clone, Copy, Debug, PartialEq, Eq, Structural)]
pub struct Viewport {
    pub x: u32,
    pub y: u32,
    pub width: u32,
    pub height: u32,
    pub min_depth: u32,
    pub max_depth: u32,
}

/// The area outside of which fragments are dropped.
#[derive(Clone, Copy, Debug, PartialEq, Eq, Structural)]
pub struct Scissor {
    pub x: i32,
    pub y: i32,
    pub extent: Extent2D,
}

/// How a fragment is combined with what the attachment already holds.
#[derive(Clone, Copy, Debug, PartialEq, Eq, Structural)]
pub struct BlendAttachment {
    pub enabled: bool,
    pub src_color_factor: i32,
    pub dst_color_factor: i32,
    pub color_op: i32,
    pub src_alpha_factor: i32,
    pub dst_alpha_factor: i32,
    pub alpha_op: i32,
    pub write_mask: u32,
}

/// Everything about the pipeline that does not depend on the driver.
#[derive(Clone, Copy, Debug)]
pub struct PipelineDescription {
    pub vertex_stage: u32,
    pub fragment_stage: u32,
    pub entry_point: &'static str,
    pub vertex_binding_count: u32,
    pub vertex_attribute_count: u32,
    pub topology: i32,
    pub viewport: Viewport,
    pub scissor: Scissor,
    pub polygon_mode: i32,
    pub front_face: i32,
    pub cull_mode: u32,
    pub line_width: u32,
    pub rasterization_samples: u32,
    pub blend: BlendAttachment,
    pub set_layout_count: u32,
    pub push_constant_range_count: u32,
    pub subpass: u32,
}

/// The channels that blending writes: red, green and alpha. Blue is left out.
pub open spec fn written_channels() -> u32 {
    COLOR_COMPONENT_R | COLOR_COMPONENT_G | COLOR_COMPONENT_A
}

impl BlendAttachment {
    /// Blending by source alpha, written to every channel but blue.
    pub open spec fn is_alpha_blend(self) -> bool {
        &&& self.enabled
        &&& self.src_color_factor == BLEND_FACTOR_SRC_ALPHA
        &&& self.dst_color_factor == BLEND_FACTOR_ONE_MINUS_SRC_ALPHA
        &&& self.color_op == BLEND_OP_ADD
        &&& self.src_alpha_factor == BLEND_FACTOR_SRC_ALPHA
        &&& self.dst_alpha_factor == BLEND_FACTOR_ONE_MINUS_SRC_ALPHA
        &&& self.alpha_op == BLEND_OP_ADD
        &&& self.write_mask == written_channels()
    }
}

impl PipelineDescription {
    /// The description is the one that is used for a chain of size `extent`.
    ///
    /// The pipeline is a placeholder: two stages entered at `main`, no vertex
    /// input, points as primitives, one viewport and one scissor over the
    /// whole extent, filled polygons with counter-clockwise front and no
    /// culling, lines one pixel wide, one sample, alpha blending, an empty
    /// layout, and subpass 0.
    pub open spec fn is_for(self, extent: Extent2D) -> bool {
        &&& self.vertex_stage == SHADER_STAGE_VERTEX
        &&& self.fragment_stage == SHADER_STAGE_FRAGMENT
        &&& self.entry_point@ == "main"@
        &&& self.vertex_binding_count == 0
        &&& self.vertex_attribute_count == 0
        &&& self.topology == TOPOLOGY_POINT_LIST
        &&& self.viewport == (Viewport {
            x: 0,
            y: 0,
            width: extent.width,
            height: extent.height,
            min_depth: 0,
            max_depth: 0,
        })
        &&& self.scissor == (Scissor { x: 0, y: 0, extent })
        &&& self.polygon_mode == POLYGON_MODE_FILL
        &&& self.front_face == FRONT_FACE_COUNTER_CLOCKWISE
        &&& self.cull_mode == CULL_MODE_NONE
        &&& self.line_width == 1
        &&& self.rasterization_samples == SAMPLE_COUNT_1
        &&& self.blend.is_alpha_blend()
        &&& self.set_layout_count == 0
        &&& self.push_constant_range_count == 0
        &&& self.subpass == 0
    }

    /// Describes the pipeline for a chain of size `extent`.
    pub fn for_extent(extent: Extent2D) -> (description: PipelineDescription)
        ensures
            description.is_for(extent),
            description.blend.write_mask == 0xB,
            description.blend.write_mask & COLOR_COMPONENT_B == 0,
    {
        let write_mask: u32 = COLOR_COMPONENT_R | COLOR_COMPONENT_G | COLOR_COMPONENT_A;
        assert(write_mask == 0xB && write_mask & COLOR_COMPONENT_B == 0) by (bit_vector)
            requires
                write_mask == 0x1u32 | 0x2u32 | 0x8u32,
                COLOR_COMPONENT_B == 0x4u32,
        ;
        PipelineDescription {
            vertex_stage: SHADER_STAGE_VERTEX,
            fragment_stage: SHADER_STAGE_FRAGMENT,
            entry_point: "main",
            vertex_binding_count: 0,
            vertex_attribute_count: 0,
            topology: TOPOLOGY_POINT_LIST,
            viewport: Viewport {
                x: 0,
                y: 0,
                width: extent.width,
                height: extent.height,
                min_depth: 0,
                max_depth: 0,
            },
            scissor: Scissor { x: 0, y: 0, extent },
            polygon_mode: POLYGON_MODE_FILL,
            front_face: FRONT_FACE_COUNTER_CLOCKWISE,
            cull_mode: CULL_MODE_NONE,
            line_width: 1,
            rasterization_samples: SAMPLE_COUNT_1,
            blend: BlendAttachment {
                enabled: true,
                src_color_factor: BLEND_FACTOR_SRC_ALPHA,
                dst_color_factor: BLEND_FACTOR_ONE_MINUS_SRC_ALPHA,
                color_op: BLEND_OP_ADD,
                src_alpha_factor: BLEND_FACTOR_SRC_ALPHA,
                dst_alpha_factor: BLEND_FACTOR_ONE_MINUS_SRC_ALPHA,
                alpha_op: BLEND_OP_ADD,
                write_mask,
            },
            set_layout_count: 0,
            push_constant_range_count: 0,
            subpass: 0,
        }
    }
}

/// The pipeline together with the layout it was made with.
#[derive(Clone, Copy, Debug, PartialEq, Eq, Structural)]
pub struct Pipeline {
    pub pipeline: u64,
    pub layout: u64,
}

/// Where one driver object of a build stands.
#[derive(Clone, Copy, Debug, PartialEq, Eq, Structural)]
pub enum Slot {
    /// Not created.
    Absent,
    /// Created and not destroyed; the handle is kept.
    Live(u64),
    /// Created and destroyed again.
    Released,
}

/// The driver call a build asks for next.
#[derive(Clone, Copy, Debug, PartialEq, Eq, Structural)]
pub enum PipelineAction {
    CompileVertex,
    CompileFragment,
    CreateLayout,
    CreatePipeline { vertex_module: u64, fragment_module: u64, layout: u64 },
    DestroyLayout { layout: u64 },
    DestroyFragment { module: u64 },
    DestroyVertex { module: u64 },
    /// Nothing is left to do; the build has its result.
    Finished,
}

/// What the driver answered to the call that was asked for.
#[derive(Clone, Copy, Debug, PartialEq, Eq, Structural)]
pub enum Outcome {
    Created(u64),
    Failed(i32),
    Destroyed,
}

/// The state of a build, as its contracts see it.
#[derive(Clone, Copy, Debug, PartialEq, Eq, Structural)]
pub struct BuildState {
    pub vertex: Slot,
    pub fragment: Slot,
    pub layout: Slot,
    pub pipeline: Slot,
    pub failure: Option<i32>,
}

/// A pipeline under construction.
///
/// The caller asks for the next driver call, makes it, and reports what came
/// back, until the build is finished. The two shader modules are destroyed
/// again on every path; after a failure the layout is too.
#[derive(Clone, Copy, Debug)]
pub struct PipelineBuild {
    state: BuildState,
}

impl Slot {
    pub open spec fn live(self) -> bool {
        self is Live
    }

    pub open spec fn weight(self) -> nat {
        match self {
            Slot::Absent => 2,
            Slot::Live(_) => 1,
            Slot::Released => 0,
        }
    }
}

/// `after` is `before`, or the next step in the life of an object.
pub open spec fn moves_forward(before: Slot, after: Slot) -> bool {
    ||| after == before
    ||| before is Absent && after is Live
    ||| before is Live && after is Released
}

impl BuildState {
    pub open spec fn start() -> BuildState {
        BuildState {
            vertex: Slot::Absent,
            fragment: Slot::Absent,
            layout: Slot::Absent,
            pipeline: Slot::Absent,
            failure: None,
        }
    }

    /// Objects are still being created: nothing failed, nothing was released
    /// and the pipeline does not exist yet.
    pub open spec fn building(self) -> bool {
        &&& self.failure is None
        &&& self.pipeline is Absent
        &&& !(self.vertex is Released)
        &&& !(self.fragment is Released)
        &&& !(self.layout is Released)
    }

    /// The states that a build can be in.
    pub open spec fn wf(self) -> bool {
        &&& !(self.pipeline is Released)
        &&& self.pipeline is Live ==> self.failure is None && self.layout is Live
        &&& self.failure is None && self.pipeline is Absent ==> self.building()
        &&& self.fragment is Absent ==> self.layout is Absent
        &&& self.vertex is Absent ==> self.fragment is Absent
    }

    /// The call to make in this state. While building, objects are created in
    /// the order vertex module, fragment module, layout, pipeline. Afterwards
    /// what has to go is destroyed in the opposite order.
    pub open spec fn next_action(self) -> PipelineAction {
        if self.building() {
            match (self.vertex, self.fragment, self.layout) {
                (Slot::Live(v), Slot::Live(f), Slot::Live(l)) => PipelineAction::CreatePipeline {
                    vertex_module: v,
                    fragment_module: f,
                    layout: l,
                },
                (Slot::Live(_), Slot::Live(_), _) => PipelineAction::CreateLayout,
                (Slot::Live(_), _, _) => PipelineAction::CompileFragment,
                _ => PipelineAction::CompileVertex,
            }
        } else {
            match (self.failure, self.layout, self.fragment, self.vertex) {
                (Some(_), Slot::Live(l), _, _) => PipelineAction::DestroyLayout { layout: l },
                (_, _, Slot::Live(f), _) => PipelineAction::DestroyFragment { module: f },
                (_, _, _, Slot::Live(v)) => PipelineAction::DestroyVertex { module: v },
                _ => PipelineAction::Finished,
            }
        }
    }

    /// `outcome` is an answer that the pending call can have.
    pub open spec fn accepts(self, outcome: Outcome) -> bool {
        match self.next_action() {
            PipelineAction::CompileVertex
            | PipelineAction::CompileFragment
            | PipelineAction::CreateLayout
            | PipelineAction::CreatePipeline { .. } => outcome is Created || outcome is Failed,
            PipelineAction::DestroyLayout { .. }
            | PipelineAction::DestroyFragment { .. }
            | PipelineAction::DestroyVertex { .. } => outcome is Destroyed,
            PipelineAction::Finished => false,
        }
    }

    /// The state after the driver answered `outcome` to the pending call. An
    /// answer that the call cannot have changes nothing.
    pub open spec fn after(self, outcome: Outcome) -> BuildState {
        match (self.next_action(), outcome) {
            (PipelineAction::CompileVertex, Outcome::Created(h)) => BuildState {
                vertex: Slot::Live(h),
                ..self
            },
            (PipelineAction::CompileFragment, Outcome::Created(h)) => BuildState {
                fragment: Slot::Live(h),
                ..self
            },
            (PipelineAction::CreateLayout, Outcome::Created(h)) => BuildState {
                layout: Slot::Live(h),
                ..self
            },
            (PipelineAction::CreatePipeline { .. }, Outcome::Created(h)) => BuildState {
                pipeline: Slot::Live(h),
                ..self
            },
            (PipelineAction::DestroyLayout { .. }, Outcome::Destroyed) => BuildState {
                layout: Slot::Released,
                ..self
            },
            (PipelineAction::DestroyFragment { .. }, Outcome::Destroyed) => BuildState {
                fragment: Slot::Released,
                ..self
            },
            (PipelineAction::DestroyVertex { .. }, Outcome::Destroyed) => BuildState {
                vertex: Slot::Released,
                ..self
            },
            (_, Outcome::Failed(code)) => if self.accepts(outcome) {
                BuildState { failure: Some(code), ..self }
            } else {
                self
            },
            _ => self,
        }
    }

    /// The result of the build, once it is finished: the pipeline with its
    /// layout, or the driver's failure at the pipeline stage.
    pub open spec fn result(self) -> Option<Result<Pipeline, BootstrapError>> {
        if self.next_action() != PipelineAction::Finished {
            None
        } else {
            match (self.failure, self.pipeline, self.layout) {
                (Some(code), _, _) => Some(
                    Err(BootstrapError::DriverCall { stage: Stage::Pipeline, code }),
                ),
                (None, Slot::Live(pipeline), Slot::Live(layout)) => Some(
                    Ok(Pipeline { pipeline, layout }),
                ),
                _ => None,
            }
        }
    }

    /// An upper bound on the calls that are still to be made.
    pub open spec fn calls_left(self) -> nat {
        self.vertex.weight() + self.fragment.weight() + self.layout.weight() + if self.building() {
            1nat
        } else {
            0nat
        }
    }
}

impl View for PipelineBuild {
    type V = BuildState;

    closed spec fn view(&self) -> BuildState {
        self.state
    }
}

impl Pipeline {
    /// Begins a build. Nothing exists yet.
    pub fn init() -> (build: PipelineBuild)
        ensures
            build@ == BuildState::start(),
            build@.wf(),
    {
        PipelineBuild {
            state: BuildState {
                vertex: Slot::Absent,
                fragment: Slot::Absent,
                layout: Slot::Absent,
                pipeline: Slot::Absent,
                failure: None,
            },
        }
    }

    /// The objects to destroy, in the order in which to destroy them: the
    /// pipeline, then its layout.
    pub fn cleanup(&self) -> (order: Vec<Resource>)
        ensures
            order@ == seq![
                Resource { kind: ResourceKind::Pipeline, handle: self.pipeline },
                Resource { kind: ResourceKind::PipelineLayout, handle: self.layout },
            ],
    {
        let mut order: Vec<Resource> = Vec::new();
        order.push(Resource { kind: ResourceKind::Pipeline, handle: self.pipeline });
        order.push(Resource { kind: ResourceKind::PipelineLayout, handle: self.layout });
        order
    }
}

impl PipelineBuild {
    #[verifier::type_invariant]
    spec fn well_formed(self) -> bool {
        self.state.wf()
    }

    /// The driver call to make next.
    pub fn next_action(&self) -> (action: PipelineAction)
        ensures
            action == self@.next_action(),
    {
        let s = self.state;
        let released = matches!(s.vertex, Slot::Released) || matches!(s.fragment, Slot::Released)
            || matches!(s.layout, Slot::Released);
        let building = s.failure.is_none() && matches!(s.pipeline, Slot::Absent) && !released;
        if building {
            match (s.vertex, s.fragment, s.layout) {
                (Slot::Live(v), Slot::Live(f), Slot::Live(l)) => PipelineAction::CreatePipeline {
                    vertex_module: v,
                    fragment_module: f,
                    layout: l,
                },
                (Slot::Live(_), Slot::Live(_), _) => PipelineAction::CreateLayout,
                (Slot::Live(_), _, _) => PipelineAction::CompileFragment,
                _ => PipelineAction::CompileVertex,
            }
        } else {
            match (s.failure, s.layout, s.fragment, s.vertex) {
                (Some(_), Slot::Live(l), _, _) => PipelineAction::DestroyLayout { layout: l },
                (_, _, Slot::Live(f), _) => PipelineAction::DestroyFragment { module: f },
                (_, _, _, Slot::Live(v)) => PipelineAction::DestroyVertex { module: v },
                _ => PipelineAction::Finished,
            }
        }
    }

    /// Takes the driver's answer to the call that `next_action` asked for.
    /// An answer that this call cannot have is ignored.
    pub fn advance(&mut self, outcome: Outcome)
        ensures
            old(self)@.wf(),
            final(self)@ == old(self)@.after(outcome),
            final(self)@.wf(),
            old(self)@.accepts(outcome) ==> final(self)@.calls_left() < old(self)@.calls_left(),
            !old(self)@.accepts(outcome) ==> final(self)@ == old(self)@,
    {
        proof {
            use_type_invariant(&*self);
        }
        let action = self.next_action();
        match (action, outcome) {
            (PipelineAction::CompileVertex, Outcome::Created(h)) => {
                self.state.vertex = Slot::Live(h);
            },
            (PipelineAction::CompileFragment, Outcome::Created(h)) => {
                self.state.fragment = Slot::Live(h);
            },
            (PipelineAction::CreateLayout, Outcome::Created(h)) => {
                self.state.layout = Slot::Live(h);
            },
            (PipelineAction::CreatePipeline { .. }, Outcome::Created(h)) => {
                self.state.pipeline = Slot::Live(h);
            },
            (PipelineAction::DestroyLayout { .. }, Outcome::Destroyed) => {
                self.state.layout = Slot::Released;
            },
            (PipelineAction::DestroyFragment { .. }, Outcome::Destroyed) => {
                self.state.fragment = Slot::Released;
            },
            (PipelineAction::DestroyVertex { .. }, Outcome::Destroyed) => {
                self.state.vertex = Slot::Released;
            },
            (PipelineAction::CompileVertex, Outcome::Failed(code))
            | (PipelineAction::CompileFragment, Outcome::Failed(code))
            | (PipelineAction::CreateLayout, Outcome::Failed(code))
            | (PipelineAction::CreatePipeline { .. }, Outcome::Failed(code)) => {
                self.state.failure = Some(code);
            },
            _ => {},
        }
    }

    /// The result, once `next_action` is `Finished`; nothing before that.
    pub fn result(&self) -> (result: Option<Result<Pipeline, BootstrapError>>)
        ensures
            self@.wf(),
            result == self@.result(),
            result is Some <==> self@.next_action() == PipelineAction::Finished,
    {
        proof {
            use_type_invariant(self);
        }
        match self.next_action() {
            PipelineAction::Finished => {},
            _ => {
                return None;
            },
        }
        match (self.state.failure, self.state.pipeline, self.state.layout) {
            (Some(code), _, _) => Some(
                Err(BootstrapError::DriverCall { stage: Stage::Pipeline, code }),
            ),
            (None, Slot::Live(pipeline), Slot::Live(layout)) => Some(
                Ok(Pipeline { pipeline, layout }),
            ),
            _ => None,
        }
    }
}

/// Every answer leads from a state a build can be in to another such state.
pub proof fn lemma_build_stays_well_formed(state: BuildState, outcome: Outcome)
    requires
        state.wf(),
    ensures
        state.after(outcome).wf(),
{
}

/// A build ends: every accepted answer lowers the bound on the calls that
/// are left, and a new build needs at most seven.
pub proof fn lemma_build_ends(state: BuildState, outcome: Outcome)
    requires
        state.accepts(outcome),
    ensures
        state.after(outcome).calls_left() < state.calls_left(),
        BuildState::start().calls_left() == 7,
{
}

/// The shader modules never outlive the build. A finished build holds no live
/// module; if it failed it holds no live layout and no pipeline; if it did
/// not, it holds the pipeline and its layout.
pub proof fn lemma_finished_build_is_clean(state: BuildState)
    requires
        state.wf(),
        state.next_action() == PipelineAction::Finished,
    ensures
        !state.vertex.live(),
        !state.fragment.live(),
        state.result() is Some,
        state.failure is Some ==> !state.layout.live() && state.pipeline is Absent
            && state.result().unwrap() is Err,
        state.failure is None ==> state.layout.live() && state.pipeline.live()
            && state.result().unwrap() is Ok,
{
}

/// Nothing is created twice and nothing is destroyed twice: an object that
/// is absent can only come to live, one that lives keeps its handle until it
/// is released, and one that is released stays so.
pub proof fn lemma_objects_only_move_forward(state: BuildState, outcome: Outcome)
    requires
        state.wf(),
    ensures
        moves_forward(state.vertex, state.after(outcome).vertex),
        moves_forward(state.fragment, state.after(outcome).fragment),
        moves_forward(state.layout, state.after(outcome).layout),
        moves_forward(state.pipeline, state.after(outcome).pipeline),
{
}

/// Once a call has failed the build can only end in that failure: no later
/// answer creates anything or changes the code that is reported.
pub proof fn lemma_failure_is_final(state: BuildState, outcome: Outcome)
    requires
        state.wf(),
        state.failure is Some,
    ensures
        state.after(outcome).failure == state.failure,
        state.after(outcome).pipeline is Absent,
        state.next_action() != PipelineAction::CompileVertex,
        state.next_action() != PipelineAction::CompileFragment,
        state.next_action() != PipelineAction::CreateLayout,
        !(state.next_action() is CreatePipeline),
{
}

} // verus!
