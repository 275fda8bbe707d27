//! The context itself: which stage construction is at, which driver objects
//! exist, and in which order they are destroyed.

use crate::error::{BootstrapError, ConfigIssue, Stage};
use crate::resource::{Resource, ResourceKind};
use vstd::prelude::*;

verus! {

/// How far a context has come.
#[derive(Clone, Copy, Debug, PartialEq, Eq, Structural)]
pub enum Progress {
    /// Construction is at this stage.
    Running(Stage),
    /// Every stage has succeeded.
    Ready,
    /// Construction has failed for good, with this error.
    Aborted(BootstrapError),
    /// The objects of a context that was not aborted have been handed out
    /// for destruction.
    TornDown,
}

/// A context as its contracts see it.
pub struct EngineState {
    pub progress: Progress,
    /// The objects that exist, in the order in which they were created.
    pub resources: Seq<Resource>,
}

/// The owner of every driver object of one rendering context.
///
/// Objects are entered as they are created, stage by stage. They leave all
/// at once, in the opposite order.
#[derive(Debug)]
pub struct GameEngine {
    progress: Progress,
    resources: Vec<Resource>,
}

/// Some object in `resources` is of kind `kind`.
pub open spec fn holds(resources: Seq<Resource>, kind: ResourceKind) -> bool {
    exists|j: int| 0 <= j < resources.len() && (#[trigger] resources[j]).kind == kind
}

/// Place of a kind in the order of creation: the position of its stage, and
/// past every stage for what is made after construction.
pub open spec fn rank(kind: ResourceKind) -> nat {
    match kind.made_in() {
        Some(stage) => stage.position(),
        None => 9,
    }
}

/// Every object comes after one of each kind that it cannot exist without.
pub open spec fn parents_first(resources: Seq<Resource>) -> bool {
    forall|i: int, parent: ResourceKind|
        #![trigger holds(resources.take(i), parent)]
        0 <= i < resources.len() && resources[i].kind.needs(parent) ==> holds(
            resources.take(i),
            parent,
        )
}

/// No object is listed twice, and no kind that a context has one of is.
pub open spec fn no_repeat(resources: Seq<Resource>) -> bool {
    forall|i: int, j: int|
        0 <= i < j < resources.len() ==> {
            ||| (#[trigger] resources[i]).kind != (#[trigger] resources[j]).kind
            ||| !resources[i].kind.single() && resources[i].handle != resources[j].handle
        }
}

/// Objects of an earlier stage come before those of a later one.
pub open spec fn in_stage_order(resources: Seq<Resource>) -> bool {
    forall|i: int, j: int|
        0 <= i < j < resources.len() ==> rank((#[trigger] resources[i]).kind) <= rank(
            (#[trigger] resources[j]).kind,
        )
}

impl EngineState {
    pub open spec fn start() -> EngineState {
        EngineState { progress: Progress::Running(Stage::Instance), resources: Seq::empty() }
    }

    /// What the stage reached says about the objects that exist: none is of
    /// a later stage, and no stage was left without what it has to produce.
    pub open spec fn matches_progress(self) -> bool {
        match self.progress {
            Progress::Running(stage) => {
                &&& forall|i: int|
                    0 <= i < self.resources.len() ==> rank((#[trigger] self.resources[i]).kind)
                        <= stage.position()
                &&& forall|kind: ResourceKind|
                    kind.single() && rank(kind) < stage.position() ==> #[trigger] holds(
                        self.resources,
                        kind,
                    )
            },
            Progress::Ready => forall|kind: ResourceKind|
                kind.single() ==> #[trigger] holds(self.resources, kind),
            _ => true,
        }
    }

    /// The states a context can be in.
    pub open spec fn wf(self) -> bool {
        &&& parents_first(self.resources)
        &&& no_repeat(self.resources)
        &&& in_stage_order(self.resources)
        &&& self.matches_progress()
    }

    /// `resource` may be entered now: it is of the stage that is running (a
    /// framebuffer: construction is over), everything it cannot exist without
    /// is there, and it is not there already.
    pub open spec fn admits(self, resource: Resource) -> bool {
        &&& match self.progress {
            Progress::Running(stage) => resource.kind.made_in() == Some(stage),
            Progress::Ready => resource.kind == ResourceKind::Framebuffer,
            _ => false,
        }
        &&& forall|parent: ResourceKind|
            resource.kind.needs(parent) ==> #[trigger] holds(self.resources, parent)
        &&& forall|j: int|
            0 <= j < self.resources.len() ==> {
                ||| (#[trigger] self.resources[j]).kind != resource.kind
                ||| !resource.kind.single() && self.resources[j].handle != resource.handle
            }
    }

    /// The stage that is running has produced what it has to.
    pub open spec fn stage_done(self) -> bool {
        match self.progress {
            Progress::Running(stage) => forall|kind: ResourceKind|
                kind.single() && kind.made_in() == Some(stage) ==> #[trigger] holds(
                    self.resources,
                    kind,
                ),
            _ => false,
        }
    }

    /// Where the context stands after the running stage was declared
    /// complete: at the next stage, or ready after the last; aborted where
    /// the stage did not produce what it has to. A context that is not
    /// running stays as it is.
    pub open spec fn after_stage(self) -> Progress {
        match self.progress {
            Progress::Running(stage) => if !self.stage_done() {
                Progress::Aborted(
                    BootstrapError::Configuration { stage, issue: ConfigIssue::MissingHandle },
                )
            } else {
                match stage {
                    Stage::Instance => Progress::Running(Stage::Diagnostics),
                    Stage::Diagnostics => Progress::Running(Stage::Surface),
                    Stage::Surface => Progress::Running(Stage::PhysicalDevice),
                    Stage::PhysicalDevice => Progress::Running(Stage::QueueFamilies),
                    Stage::QueueFamilies => Progress::Running(Stage::Device),
                    Stage::Device => Progress::Running(Stage::ImageChain),
                    Stage::ImageChain => Progress::Running(Stage::RenderTarget),
                    Stage::RenderTarget => Progress::Running(Stage::Pipeline),
                    Stage::Pipeline => Progress::Ready,
                }
            },
            other => other,
        }
    }

    /// Where the context stands after `error` was reported: aborted with that
    /// error, put down to the stage that is running. A context that is not
    /// running stays as it is, so the first failure is the one that is kept.
    pub open spec fn after_failure(self, error: BootstrapError) -> Progress {
        match self.progress {
            Progress::Running(stage) => Progress::Aborted(error.at(stage)),
            other => other,
        }
    }

    /// The objects in the order in which they are destroyed.
    pub open spec fn destroy_order(self) -> Seq<Resource> {
        self.resources.reverse()
    }

    pub open spec fn after_teardown(self) -> EngineState {
        EngineState {
            progress: match self.progress {
                Progress::Aborted(error) => Progress::Aborted(error),
                _ => Progress::TornDown,
            },
            resources: Seq::empty(),
        }
    }
}

impl BootstrapError {
    /// The same error, put down to `stage`.
    pub open spec fn at(self, stage: Stage) -> BootstrapError {
        match self {
            BootstrapError::Configuration { issue, .. } => BootstrapError::Configuration {
                stage,
                issue,
            },
            BootstrapError::DriverCall { code, .. } => BootstrapError::DriverCall { stage, code },
        }
    }
}

impl View for GameEngine {
    type V = EngineState;

    closed spec fn view(&self) -> EngineState {
        EngineState { progress: self.progress, resources: self.resources@ }
    }
}

impl GameEngine {
    #[verifier::type_invariant]
    spec fn well_formed(self) -> bool {
        (EngineState { progress: self.progress, resources: self.resources@ }).wf()
    }

    /// A context of which nothing exists yet, about to run its first stage.
    pub fn init() -> (engine: GameEngine)
        ensures
            engine@ == EngineState::start(),
            engine@.wf(),
    {
        GameEngine { progress: Progress::Running(Stage::Instance), resources: Vec::new() }
    }

    pub fn progress(&self) -> (progress: Progress)
        ensures
            progress == self@.progress,
    {
        self.progress
    }

    /// The stage to run next, while there is one.
    pub fn pending_stage(&self) -> (stage: Option<Stage>)
        ensures
            stage == match self@.progress {
                Progress::Running(stage) => Some(stage),
                _ => None,
            },
    {
        match self.progress {
            Progress::Running(stage) => Some(stage),
            _ => None,
        }
    }

    /// The objects that exist, in the order in which they were created.
    pub fn resources(&self) -> (resources: Vec<Resource>)
        ensures
            resources@ == self@.resources,
    {
        self.resources.clone()
    }

    /// Whether an object of kind `kind` exists.
    pub fn has(&self, kind: ResourceKind) -> (found: bool)
        ensures
            found == holds(self@.resources, kind),
    {
        let mut i: usize = 0;
        while i < self.resources.len()
            invariant
                i <= self.resources@.len(),
                forall|j: int| 0 <= j < i ==> (#[trigger] self.resources@[j]).kind != kind,
            decreases self.resources@.len() - i,
        {
            if self.resources[i].kind == kind {
                return true;
            }
            i = i + 1;
        }
        false
    }

    fn has_all(&self, kinds: &Vec<ResourceKind>) -> (found: bool)
        ensures
            found == forall|kind: ResourceKind|
                kinds@.contains(kind) ==> #[trigger] holds(self@.resources, kind),
    {
        let mut i: usize = 0;
        while i < kinds.len()
            invariant
                i <= kinds@.len(),
                forall|j: int| 0 <= j < i ==> holds(self@.resources, #[trigger] kinds@[j]),
            decreases kinds@.len() - i,
        {
            if !self.has(kinds[i]) {
                return false;
            }
            i = i + 1;
        }
        true
    }

    fn is_new(&self, resource: Resource) -> (fresh: bool)
        ensures
            fresh == forall|j: int|
                0 <= j < self@.resources.len() ==> {
                    ||| (#[trigger] self@.resources[j]).kind != resource.kind
                    ||| !resource.kind.single() && self@.resources[j].handle != resource.handle
                },
    {
        let single = resource.kind.is_single();
        let mut i: usize = 0;
        while i < self.resources.len()
            invariant
                i <= self.resources@.len(),
                single == resource.kind.single(),
                forall|j: int|
                    0 <= j < i ==> {
                        ||| (#[trigger] self.resources@[j]).kind != resource.kind
                        ||| !single && self.resources@[j].handle != resource.handle
                    },
            decreases self.resources@.len() - i,
        {
            let other = self.resources[i];
            if other.kind == resource.kind && (single || other.handle == resource.handle) {
                return false;
            }
            i = i + 1;
        }
        true
    }

    /// Enters an object that the driver has just created.
    ///
    /// The object is refused, and nothing changes, unless it belongs to the
    /// stage that is running, everything it depends on exists, and it is
    /// new. So nothing of a later stage can be entered, and nothing at all
    /// once construction was aborted or the context torn down.
    pub fn record(&mut self, kind: ResourceKind, handle: u64) -> (accepted: bool)
        ensures
            old(self)@.wf(),
            accepted == old(self)@.admits(Resource { kind, handle }),
            accepted ==> final(self)@.resources == old(self)@.resources.push(
                Resource { kind, handle },
            ),
            !accepted ==> final(self)@.resources == old(self)@.resources,
            final(self)@.progress == old(self)@.progress,
            final(self)@.wf(),
    {
        proof {
            use_type_invariant(&*self);
        }
        let resource = Resource { kind, handle };
        let in_turn = match self.progress {
            Progress::Running(stage) => match kind.stage() {
                Some(own) => own == stage,
                None => false,
            },
            Progress::Ready => kind == ResourceKind::Framebuffer,
            _ => false,
        };
        if !in_turn {
            return false;
        }
        let parents = kind.parents();
        if !self.has_all(&parents) {
            return false;
        }
        if !self.is_new(resource) {
            return false;
        }
        let mut extended = self.resources.clone();
        extended.push(resource);
        proof {
            lemma_entering_keeps_well_formed(self@, resource);
        }
        self.resources = extended;
        true
    }

    /// Declares the running stage complete and says where the context
    /// stands then.
    pub fn complete_stage(&mut self) -> (progress: Progress)
        ensures
            old(self)@.wf(),
            progress == old(self)@.after_stage(),
            final(self)@.progress == progress,
            final(self)@.resources == old(self)@.resources,
            final(self)@.wf(),
    {
        proof {
            use_type_invariant(&*self);
        }
        match self.progress {
            Progress::Running(stage) => {
                let products = stage.products();
                if self.has_all(&products) {
                    proof {
                        lemma_completing_keeps_well_formed(self@);
                    }
                    self.progress = match stage.next() {
                        Some(following) => Progress::Running(following),
                        None => Progress::Ready,
                    };
                } else {
                    self.progress = Progress::Aborted(
                        BootstrapError::Configuration { stage, issue: ConfigIssue::MissingHandle },
                    );
                }
            },
            _ => {},
        }
        self.progress
    }

    /// Reports that the running stage has failed. Construction is over: the
    /// context keeps `error`, put down to that stage, as its one terminal
    /// error. A context that is not running keeps the state it has.
    pub fn fail(&mut self, error: BootstrapError) -> (progress: Progress)
        ensures
            old(self)@.wf(),
            progress == old(self)@.after_failure(error),
            final(self)@.progress == progress,
            final(self)@.resources == old(self)@.resources,
            final(self)@.wf(),
    {
        proof {
            use_type_invariant(&*self);
        }
        match self.progress {
            Progress::Running(stage) => {
                let stamped = match error {
                    BootstrapError::Configuration { issue, .. } => BootstrapError::Configuration {
                        stage,
                        issue,
                    },
                    BootstrapError::DriverCall { code, .. } => BootstrapError::DriverCall {
                        stage,
                        code,
                    },
                };
                self.progress = Progress::Aborted(stamped);
            },
            _ => {},
        }
        self.progress
    }

    /// Hands out every object for destruction, the last created first, and
    /// forgets them all. A second call hands out nothing.
    pub fn teardown(&mut self) -> (order: Vec<Resource>)
        ensures
            old(self)@.wf(),
            order@ == old(self)@.destroy_order(),
            order@.reverse() == old(self)@.resources,
            final(self)@ == old(self)@.after_teardown(),
            final(self)@.wf(),
    {
        proof {
            use_type_invariant(&*self);
        }
        let ghost created = self.resources@;
        let mut order: Vec<Resource> = Vec::new();
        let mut i: usize = self.resources.len();
        while i > 0
            invariant
                i <= self.resources@.len(),
                self.resources@ == created,
                order@ == created.reverse().take(created.len() - i),
            decreases i,
        {
            i = i - 1;
            order.push(self.resources[i]);
        }
        self.progress = match self.progress {
            Progress::Aborted(error) => Progress::Aborted(error),
            _ => Progress::TornDown,
        };
        self.resources = Vec::new();
        order
    }
}

/// Entering an object that is admitted leads to a state a context can be in.
pub proof fn lemma_entering_keeps_well_formed(state: EngineState, resource: Resource)
    requires
        state.wf(),
        state.admits(resource),
    ensures
        (EngineState { progress: state.progress, resources: state.resources.push(resource) }).wf(),
{
    let before = state.resources;
    let after = before.push(resource);
    assert forall|i: int, parent: ResourceKind|
        0 <= i < after.len() && after[i].kind.needs(parent) implies #[trigger] holds(
        after.take(i),
        parent,
    ) by {
        if i < before.len() {
            assert(after.take(i) =~= before.take(i));
        } else {
            assert(after.take(i) =~= before);
        }
    }
    assert forall|kind: ResourceKind| holds(before, kind) implies holds(after, kind) by {
        let j = choose|j: int| 0 <= j < before.len() && (#[trigger] before[j]).kind == kind;
        assert(after[j].kind == kind);
    }
}

/// Completing a stage that has produced what it has to leads to a state a
/// context can be in.
pub proof fn lemma_completing_keeps_well_formed(state: EngineState)
    requires
        state.wf(),
        state.stage_done(),
    ensures
        (EngineState { progress: state.after_stage(), resources: state.resources }).wf(),
{
}

/// The stages follow one another without a gap: a stage that has produced
/// what it has to is followed by the stage one place further on, and the last
/// stage by a context that is ready.
pub proof fn lemma_stages_follow_in_order(state: EngineState)
    requires
        state.stage_done(),
    ensures
        match state.after_stage() {
            Progress::Running(next) => next.position() == state.progress->Running_0.position() + 1,
            Progress::Ready => state.progress->Running_0 == Stage::Pipeline,
            _ => false,
        },
{
}

/// Reversing the order of destruction gives back the order of creation.
pub proof fn lemma_teardown_mirrors_creation(state: EngineState)
    ensures
        state.destroy_order().reverse() == state.resources,
        state.destroy_order().len() == state.resources.len(),
        forall|i: int|
            0 <= i < state.resources.len() ==> #[trigger] state.destroy_order()[i]
                == state.resources[state.resources.len() - 1 - i],
{
}

/// Every object is destroyed before each object that it cannot exist
/// without: a parent is never destroyed ahead of a child.
pub proof fn lemma_children_are_destroyed_first(state: EngineState, i: int, parent: ResourceKind)
    requires
        state.wf(),
        0 <= i < state.destroy_order().len(),
        state.destroy_order()[i].kind.needs(parent),
    ensures
        exists|j: int|
            i < j < state.destroy_order().len() && (#[trigger] state.destroy_order()[j]).kind
                == parent,
{
    let created = state.resources;
    let order = state.destroy_order();
    let n = created.len() as int;
    let at = n - 1 - i;
    assert(holds(created.take(at), parent));
    let k = choose|k: int|
        0 <= k < created.take(at).len() && (#[trigger] created.take(at)[k]).kind == parent;
    assert(order[n - 1 - k] == created[k]);
}

/// No object is handed out for destruction twice.
pub proof fn lemma_nothing_is_destroyed_twice(state: EngineState, i: int, j: int)
    requires
        state.wf(),
        0 <= i < j < state.destroy_order().len(),
    ensures
        state.destroy_order()[i] != state.destroy_order()[j],
{
}

/// Destruction goes back through the stages: what a later stage made is
/// destroyed before what an earlier stage made.
pub proof fn lemma_teardown_goes_back_through_stages(state: EngineState, i: int, j: int)
    requires
        state.wf(),
        0 <= i < j < state.destroy_order().len(),
    ensures
        rank(state.destroy_order()[i].kind) >= rank(state.destroy_order()[j].kind),
{
}

/// Whatever else exists, the instance was created first and is destroyed
/// last.
pub proof fn lemma_instance_is_destroyed_last(state: EngineState)
    requires
        state.wf(),
        state.resources.len() > 0,
    ensures
        state.resources.first().kind == ResourceKind::Instance,
        state.destroy_order().last().kind == ResourceKind::Instance,
{
    let first = state.resources[0];
    if first.kind != ResourceKind::Instance {
        // anything else needs a parent, and none can come before the first
        let parent = match first.kind {
            ResourceKind::DebugMessenger | ResourceKind::Surface | ResourceKind::Device =>
                ResourceKind::Instance,
            ResourceKind::Swapchain | ResourceKind::RenderPass | ResourceKind::PipelineLayout =>
                ResourceKind::Device,
            ResourceKind::ImageView => ResourceKind::Swapchain,
            _ => ResourceKind::RenderPass,
        };
        assert(first.kind.needs(parent));
        assert(holds(state.resources.take(0), parent));
    }
}

/// While a stage runs, only its own objects are admitted: nothing of a later
/// stage comes to exist. Once construction was aborted, or the context torn
/// down, nothing is admitted at all.
pub proof fn lemma_nothing_is_entered_out_of_turn(state: EngineState, resource: Resource)
    requires
        state.admits(resource),
    ensures
        !(state.progress is Aborted),
        !(state.progress is TornDown),
        state.progress matches Progress::Running(stage) ==> resource.kind.made_in() == Some(stage),
        state.progress is Ready ==> resource.kind == ResourceKind::Framebuffer,
{
}

/// A failure ends construction with one error that names the stage that was
/// running, and no later report replaces it.
pub proof fn lemma_failure_names_the_running_stage(
    state: EngineState,
    error: BootstrapError,
    later: BootstrapError,
)
    requires
        state.progress is Running,
    ensures
        state.after_failure(error) matches Progress::Aborted(kept) && kept.failed_stage()
            == state.progress->Running_0 && kept == error.at(kept.failed_stage()),
        (EngineState { progress: state.after_failure(error), resources: state.resources })
            .after_failure(later) == state.after_failure(error),
        (EngineState { progress: state.after_failure(error), resources: state.resources })
            .after_stage() == state.after_failure(error),
{
}

/// A context that is ready holds an object of every kind that a context has
/// one of.
pub proof fn lemma_ready_context_is_complete(state: EngineState, kind: ResourceKind)
    requires
        state.wf(),
        state.progress is Ready,
        kind.single(),
    ensures
        holds(state.resources, kind),
{
}

/// Of a kind that a context has one of, a context never holds two.
pub proof fn lemma_single_kinds_occur_once(state: EngineState, i: int, j: int)
    requires
        state.wf(),
        0 <= i < state.resources.len(),
        0 <= j < state.resources.len(),
        state.resources[i].kind == state.resources[j].kind,
        state.resources[i].kind.single(),
    ensures
        i == j,
{
}

} // verus!
