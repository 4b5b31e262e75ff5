use shader_effects::dispatch::{
    dispatch_counts, reports_failure, run_node, workgroup_count, ComputeStage, DispatchCommand,
    NodeState, PipelineStatus, Workgroups, SIZE, WORKGROUP_SIZE,
};

#[test]
fn counts_for_the_compute_target() {
    assert_eq!(dispatch_counts(1280, 720, 8), Workgroups { x: 160, y: 90 });
    assert_eq!(dispatch_counts(SIZE.0, SIZE.1, WORKGROUP_SIZE), Workgroups { x: 160, y: 90 });
}

#[test]
fn counts_round_up() {
    assert_eq!(dispatch_counts(10, 10, 8), Workgroups { x: 2, y: 2 });
    assert_eq!(workgroup_count(9, 8), 2);
    assert_eq!(workgroup_count(8, 8), 1);
    assert_eq!(workgroup_count(7, 8), 1);
    assert_eq!(workgroup_count(1, 8), 1);
}

#[test]
fn counts_at_the_edges() {
    assert_eq!(workgroup_count(0, 8), 0);
    assert_eq!(workgroup_count(u32::MAX, 1), u32::MAX);
    assert_eq!(workgroup_count(u32::MAX, 8), 536_870_912);
    assert_eq!(workgroup_count(u32::MAX, u32::MAX), 1);
    assert_eq!(workgroup_count(5, u32::MAX), 1);
}

#[test]
fn node_starts_loading() {
    assert_eq!(NodeState::default(), NodeState::Loading);
}

#[test]
fn nothing_is_dispatched_before_both_are_ready() {
    let not_ready = [
        (PipelineStatus::Queued, PipelineStatus::Queued),
        (PipelineStatus::Compiling, PipelineStatus::Queued),
        (PipelineStatus::Ready, PipelineStatus::Compiling),
        (PipelineStatus::Compiling, PipelineStatus::Ready),
        (PipelineStatus::Ready, PipelineStatus::Queued),
    ];
    let mut state = NodeState::default();
    for (init, update) in not_ready {
        let command = run_node(&mut state, init, update, 1280, 720);
        assert_eq!(command, DispatchCommand::Idle);
        assert_eq!(state, NodeState::Loading);
    }
}

#[test]
fn init_runs_once_then_update_forever() {
    let groups = Workgroups { x: 160, y: 90 };
    let mut state = NodeState::default();
    let mut issued = Vec::new();
    let polls = [
        (PipelineStatus::Queued, PipelineStatus::Queued),
        (PipelineStatus::Ready, PipelineStatus::Compiling),
        (PipelineStatus::Ready, PipelineStatus::Ready),
        (PipelineStatus::Ready, PipelineStatus::Ready),
        (PipelineStatus::Ready, PipelineStatus::Ready),
        (PipelineStatus::Ready, PipelineStatus::Ready),
    ];
    for (init, update) in polls {
        issued.push(run_node(&mut state, init, update, 1280, 720));
    }
    assert_eq!(
        issued,
        vec![
            DispatchCommand::Idle,
            DispatchCommand::Idle,
            DispatchCommand::Dispatch { stage: ComputeStage::Init, groups },
            DispatchCommand::Dispatch { stage: ComputeStage::Update, groups },
            DispatchCommand::Dispatch { stage: ComputeStage::Update, groups },
            DispatchCommand::Dispatch { stage: ComputeStage::Update, groups },
        ]
    );
    assert_eq!(state, NodeState::Update);
}

#[test]
fn state_moves_loading_init_update() {
    let mut state = NodeState::Loading;
    run_node(&mut state, PipelineStatus::Ready, PipelineStatus::Ready, 8, 8);
    assert_eq!(state, NodeState::Init);
    run_node(&mut state, PipelineStatus::Ready, PipelineStatus::Ready, 8, 8);
    assert_eq!(state, NodeState::Update);
    run_node(&mut state, PipelineStatus::Ready, PipelineStatus::Ready, 8, 8);
    assert_eq!(state, NodeState::Update);
}

#[test]
fn a_failed_pipeline_disables_the_effect() {
    let mut state = NodeState::default();
    for _ in 0..5 {
        let command = run_node(&mut state, PipelineStatus::Ready, PipelineStatus::Failed, 1280, 720);
        assert_eq!(command, DispatchCommand::Idle);
        assert_eq!(state, NodeState::Loading);
    }
    let command = run_node(&mut state, PipelineStatus::Failed, PipelineStatus::Ready, 1280, 720);
    assert_eq!(command, DispatchCommand::Idle);
    assert_eq!(state, NodeState::Loading);
}

#[test]
fn failure_is_reported_once() {
    assert!(reports_failure(PipelineStatus::Compiling, PipelineStatus::Failed));
    assert!(reports_failure(PipelineStatus::Queued, PipelineStatus::Failed));
    assert!(!reports_failure(PipelineStatus::Failed, PipelineStatus::Failed));
    assert!(!reports_failure(PipelineStatus::Compiling, PipelineStatus::Ready));
    assert!(!reports_failure(PipelineStatus::Queued, PipelineStatus::Compiling));
}
