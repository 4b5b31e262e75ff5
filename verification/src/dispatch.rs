//! The compute dispatch node: pipeline readiness, the three node states, and
//! the number of workgroups that cover the target image.

use vstd::prelude::*;

verus! {

/// Width and height of the compute target, in pixels.
pub const SIZE: (u32, u32) = (1280, 720);

/// Edge length of one workgroup, in pixels.
pub const WORKGROUP_SIZE: u32 = 8;

/// What the pipeline cache reports of one queued pipeline.
#[derive(Clone, Copy, Debug, PartialEq, Eq, Structural)]
pub enum PipelineStatus {
    Queued,
    Compiling,
    Ready,
    Failed,
}

/// Which of the two compute entry points a dispatch runs.
#[derive(Clone, Copy, Debug, PartialEq, Eq, Structural)]
pub enum ComputeStage {
    Init,
    Update,
}

/// State of the dispatch node. `Init` marks that the init pipeline has just
/// been dispatched; `Update` is the steady state.
#[derive(Clone, Copy, Debug, PartialEq, Eq, Structural)]
pub enum NodeState {
    Loading,
    Init,
    Update,
}

/// The number of workgroups that one dispatch asks for on each axis.
#[derive(Clone, Copy, Debug, PartialEq, Eq, Structural)]
pub struct Workgroups {
    pub x: u32,
    pub y: u32,
}

/// What the node appends to the frame's command stream.
#[derive(Clone, Copy, Debug, PartialEq, Eq, Structural)]
pub enum DispatchCommand {
    Idle,
    Dispatch { stage: ComputeStage, groups: Workgroups },
}

/// Both pipelines are compiled.
pub open spec fn both_ready(init: PipelineStatus, update: PipelineStatus) -> bool {
    init == PipelineStatus::Ready && update == PipelineStatus::Ready
}

/// The smallest count of groups of `group` pixels that covers `extent` pixels.
pub open spec fn ceil_div(extent: int, group: int) -> int
    recommends
        extent >= 0,
        group > 0,
{
    (extent + group - 1) / group
}

/// The state after one execution of the node.
pub open spec fn next_state(state: NodeState, init: PipelineStatus, update: PipelineStatus) -> NodeState {
    match state {
        NodeState::Loading => if both_ready(init, update) {
            NodeState::Init
        } else {
            NodeState::Loading
        },
        NodeState::Init => NodeState::Update,
        NodeState::Update => NodeState::Update,
    }
}

/// The stage that one execution of the node dispatches, if any.
pub open spec fn stage_run(state: NodeState, init: PipelineStatus, update: PipelineStatus) -> Option<ComputeStage> {
    match state {
        NodeState::Loading => if both_ready(init, update) {
            Some(ComputeStage::Init)
        } else {
            None
        },
        NodeState::Init => Some(ComputeStage::Update),
        NodeState::Update => Some(ComputeStage::Update),
    }
}

/// The groups that cover an image of `width` by `height` pixels.
pub open spec fn groups_for(width: u32, height: u32, group: u32) -> Workgroups
    recommends
        group > 0,
{
    Workgroups {
        x: ceil_div(width as int, group as int) as u32,
        y: ceil_div(height as int, group as int) as u32,
    }
}

/// The command that one execution of the node issues.
pub open spec fn command_for(
    state: NodeState,
    init: PipelineStatus,
    update: PipelineStatus,
    groups: Workgroups,
) -> DispatchCommand {
    match stage_run(state, init, update) {
        Some(stage) => DispatchCommand::Dispatch { stage, groups },
        None => DispatchCommand::Idle,
    }
}

/// Number of workgroups along one axis: the extent divided by the group size,
/// rounded up, so that the groups cover the whole extent.
pub fn workgroup_count(extent: u32, group: u32) -> (count: u32)
    requires
        group > 0,
    ensures
        count == ceil_div(extent as int, group as int),
        count * group >= extent,
        extent > 0 ==> (count - 1) * group < extent,
        extent == 0 ==> count == 0,
{
    let whole: u32 = extent / group;
    let rest: u32 = extent % group;
    proof {
        lemma_ceil_div(extent as int, group as int);
    }
    if rest == 0 {
        whole
    } else {
        whole + 1
    }
}

/// Rounding up adds one group exactly when the division leaves a remainder.
pub proof fn lemma_ceil_div(extent: int, group: int)
    requires
        extent >= 0,
        group > 0,
    ensures
        extent % group == 0 ==> ceil_div(extent, group) == extent / group,
        extent % group != 0 ==> ceil_div(extent, group) == extent / group + 1,
        ceil_div(extent, group) * group >= extent,
        extent > 0 ==> (ceil_div(extent, group) - 1) * group < extent,
        extent == 0 ==> ceil_div(extent, group) == 0,
        0 <= ceil_div(extent, group) <= extent,
{
    let q = extent / group;
    let r = extent % group;
    assert(extent == q * group + r && 0 <= r < group) by (nonlinear_arith)
        requires
            extent >= 0,
            group > 0,
            q == extent / group,
            r == extent % group,
    ;
    let c = (extent + group - 1) / group;
    assert(r == 0 ==> c == q) by (nonlinear_arith)
        requires
            extent == q * group + r,
            0 <= r < group,
            group > 0,
            c == (extent + group - 1) / group,
    ;
    assert(r != 0 ==> c == q + 1) by (nonlinear_arith)
        requires
            extent == q * group + r,
            0 <= r < group,
            group > 0,
            c == (extent + group - 1) / group,
    ;
    assert(c * group >= extent && (extent > 0 ==> (c - 1) * group < extent) && 0 <= c <= extent)
        by (nonlinear_arith)
        requires
            extent == q * group + r,
            0 <= r < group,
            group > 0,
            extent >= 0,
            q >= 0,
            (r == 0 ==> c == q),
            (r != 0 ==> c == q + 1),
    ;
}

/// The workgroups of one dispatch over an image of the given size.
pub fn dispatch_counts(width: u32, height: u32, group: u32) -> (groups: Workgroups)
    requires
        group > 0,
    ensures
        groups == groups_for(width, height, group),
        groups.x == ceil_div(width as int, group as int),
        groups.y == ceil_div(height as int, group as int),
{
    Workgroups { x: workgroup_count(width, group), y: workgroup_count(height, group) }
}

impl Default for NodeState {
    fn default() -> (state: NodeState)
        ensures
            state == NodeState::Loading,
    {
        NodeState::Loading
    }
}

/// The statuses that one execution of the node resolves.
#[derive(Clone, Copy, Debug, PartialEq, Eq, Structural)]
pub struct Poll {
    pub init: PipelineStatus,
    pub update: PipelineStatus,
}

/// A pipeline's failure is reported on the execution that first sees it.
pub open spec fn newly_failed(previous: PipelineStatus, current: PipelineStatus) -> bool {
    current == PipelineStatus::Failed && previous != PipelineStatus::Failed
}

/// Whether the failure of a pipeline is to be reported now: once, when the
/// status turns to `Failed`.
pub fn reports_failure(previous: PipelineStatus, current: PipelineStatus) -> (report: bool)
    ensures
        report == newly_failed(previous, current),
{
    current == PipelineStatus::Failed && previous != PipelineStatus::Failed
}

/// One execution of the dispatch node. While a pipeline is not ready the
/// node stays in `Loading` and issues nothing. On the first execution that
/// finds both ready it dispatches the init stage; on every later one the
/// update stage. Each dispatch covers the whole image.
pub fn run_node(state: &mut NodeState, init: PipelineStatus, update: PipelineStatus, width: u32, height: u32) -> (command: DispatchCommand)
    ensures
        *final(state) == next_state(*old(state), init, update),
        command == command_for(*old(state), init, update, groups_for(width, height, WORKGROUP_SIZE)),
{
    let groups: Workgroups = dispatch_counts(width, height, WORKGROUP_SIZE);
    match *state {
        NodeState::Loading => {
            if init == PipelineStatus::Ready && update == PipelineStatus::Ready {
                *state = NodeState::Init;
                DispatchCommand::Dispatch { stage: ComputeStage::Init, groups }
            } else {
                DispatchCommand::Idle
            }
        },
        NodeState::Init => {
            *state = NodeState::Update;
            DispatchCommand::Dispatch { stage: ComputeStage::Update, groups }
        },
        NodeState::Update => DispatchCommand::Dispatch { stage: ComputeStage::Update, groups },
    }
}

/// The state of a node that started in `start` and has executed once for
/// each entry of `polls`.
pub open spec fn state_after(start: NodeState, polls: Seq<Poll>) -> NodeState
    decreases polls.len(),
{
    if polls.len() == 0 {
        start
    } else {
        next_state(state_after(start, polls.drop_last()), polls.last().init, polls.last().update)
    }
}

/// The stage that a fresh node dispatches on execution `i` of a run.
pub open spec fn stage_at(polls: Seq<Poll>, i: int) -> Option<ComputeStage>
    recommends
        0 <= i < polls.len(),
{
    stage_run(state_after(NodeState::Loading, polls.take(i)), polls[i].init, polls[i].update)
}

/// No execution up to `upto` finds both pipelines ready.
pub open spec fn none_ready(polls: Seq<Poll>, upto: int) -> bool {
    forall|j: int| 0 <= j < upto ==> !both_ready((#[trigger] polls[j]).init, polls[j].update)
}

/// Before both pipelines are ready, a fresh node is still loading.
pub proof fn lemma_loading_until_ready(polls: Seq<Poll>, upto: int)
    requires
        0 <= upto <= polls.len(),
        none_ready(polls, upto),
    ensures
        state_after(NodeState::Loading, polls.take(upto)) == NodeState::Loading,
    decreases upto,
{
    if upto > 0 {
        lemma_loading_until_ready(polls, upto - 1);
        assert(polls.take(upto).drop_last() =~= polls.take(upto - 1));
    }
}

/// On every execution before both pipelines are ready, the node issues no
/// dispatch.
pub proof fn lemma_idle_before_ready(polls: Seq<Poll>, i: int)
    requires
        0 <= i < polls.len(),
        none_ready(polls, i + 1),
    ensures
        stage_at(polls, i) is None,
{
    lemma_loading_until_ready(polls, i);
}

/// While a pipeline reports failure, the node stays in `Loading` and issues
/// no dispatch.
pub proof fn lemma_failed_disables(state: NodeState, init: PipelineStatus, update: PipelineStatus)
    requires
        state == NodeState::Loading,
        init == PipelineStatus::Failed || update == PipelineStatus::Failed,
    ensures
        next_state(state, init, update) == NodeState::Loading,
        stage_run(state, init, update) is None,
{
}

/// A failure that lasts disables the effect for the rest of the run: if no
/// execution before `since` found both pipelines ready, and every execution
/// from `since` on finds one of them failed, then nothing is dispatched up
/// to and including execution `i`.
pub proof fn lemma_lasting_failure_disables(polls: Seq<Poll>, since: int, i: int)
    requires
        0 <= since <= i < polls.len(),
        none_ready(polls, since),
        forall|j: int|
            since <= j <= i ==> (#[trigger] polls[j]).init == PipelineStatus::Failed || polls[j].update
                == PipelineStatus::Failed,
    ensures
        forall|j: int| 0 <= j <= i ==> stage_at(polls, j) is None,
        state_after(NodeState::Loading, polls.take(i + 1)) == NodeState::Loading,
{
    assert(none_ready(polls, i + 1));
    lemma_loading_until_ready(polls, i + 1);
    assert forall|j: int| 0 <= j <= i implies stage_at(polls, j) is None by {
        lemma_idle_before_ready(polls, j);
    }
}

/// Once the init stage has been dispatched the node is past `Loading` for
/// good: after execution `first`, the first that finds both pipelines ready,
/// the state is `Init`, and after every later one `Update`.
pub proof fn lemma_state_after_ready(polls: Seq<Poll>, first: int, upto: int)
    requires
        0 <= first < upto <= polls.len(),
        none_ready(polls, first),
        both_ready(polls[first].init, polls[first].update),
    ensures
        state_after(NodeState::Loading, polls.take(upto)) == (if upto == first + 1 {
            NodeState::Init
        } else {
            NodeState::Update
        }),
    decreases upto,
{
    assert(polls.take(upto).drop_last() =~= polls.take(upto - 1));
    if upto == first + 1 {
        lemma_loading_until_ready(polls, first);
    } else {
        lemma_state_after_ready(polls, first, upto - 1);
    }
}

/// The init stage is dispatched exactly once in a run: on the first
/// execution that finds both pipelines ready. Every execution before it
/// issues nothing, and every execution after it dispatches the update stage.
pub proof fn lemma_init_exactly_once(polls: Seq<Poll>, first: int, i: int)
    requires
        0 <= first < polls.len(),
        0 <= i < polls.len(),
        none_ready(polls, first),
        both_ready(polls[first].init, polls[first].update),
    ensures
        i < first ==> stage_at(polls, i) is None,
        i == first ==> stage_at(polls, i) == Some(ComputeStage::Init),
        i > first ==> stage_at(polls, i) == Some(ComputeStage::Update),
        stage_at(polls, i) == Some(ComputeStage::Init) <==> i == first,
{
    if i <= first {
        lemma_loading_until_ready(polls, i);
    } else {
        lemma_state_after_ready(polls, first, i);
    }
}

} // verus!
