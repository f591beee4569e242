use wasm_fib::child_run::{
    fail_child_step, guest_start_export, link_function_names, link_reply, linked_child_step, task_reply,
    ChildStage, ChildStep, StartExport, TaskSlot,
};
use wasm_fib::status::{ChildStatus, RunFailure, STATUS_BAD_EXPORT, STATUS_RUNTIME_ERROR};

fn walk_linked(has_init: bool) -> Vec<ChildStage> {
    let mut stages = vec![ChildStage::Instantiate];
    loop {
        match linked_child_step(*stages.last().unwrap(), has_init, true) {
            ChildStep::Enter(next) => stages.push(next),
            ChildStep::Ready => return stages,
            ChildStep::Fail(_) => panic!("no stage failed"),
        }
    }
}

#[test]
fn linked_child_goes_through_init_only_when_configured() {
    assert_eq!(
        walk_linked(true),
        vec![
            ChildStage::Instantiate,
            ChildStage::InitLookup,
            ChildStage::InitSignature,
            ChildStage::InitCall,
            ChildStage::ExportLookup,
            ChildStage::ExportSignature,
        ]
    );
    assert_eq!(walk_linked(false), vec![ChildStage::Instantiate, ChildStage::ExportLookup, ChildStage::ExportSignature]);
}

#[test]
fn failed_stages_report_statuses() {
    assert_eq!(linked_child_step(ChildStage::Instantiate, true, false), ChildStep::Fail(STATUS_RUNTIME_ERROR));
    assert_eq!(linked_child_step(ChildStage::InitLookup, true, false), ChildStep::Fail(STATUS_BAD_EXPORT));
    assert_eq!(linked_child_step(ChildStage::InitCall, true, false), ChildStep::Fail(STATUS_RUNTIME_ERROR));
    assert_eq!(linked_child_step(ChildStage::ExportSignature, false, false), ChildStep::Fail(STATUS_BAD_EXPORT));
    assert_eq!(fail_child_step(ChildStage::Startup, false), ChildStep::Fail(STATUS_RUNTIME_ERROR));
    assert_eq!(fail_child_step(ChildStage::InitLookup, false), ChildStep::Enter(ChildStage::ExportLookup));
    assert_eq!(fail_child_step(ChildStage::InitSignature, false), ChildStep::Fail(STATUS_BAD_EXPORT));
    assert_eq!(fail_child_step(ChildStage::ExportLookup, false), ChildStep::Fail(STATUS_BAD_EXPORT));
    assert_eq!(fail_child_step(ChildStage::ExportLookup, true), ChildStep::Ready);
    assert_eq!(fail_child_step(ChildStage::Instantiate, true), ChildStep::Enter(ChildStage::Startup));
}

#[test]
fn start_export_prefers_initialize() {
    assert_eq!(guest_start_export(true, true), Some(StartExport::Initialize));
    assert_eq!(guest_start_export(false, true), Some(StartExport::Start));
    assert_eq!(guest_start_export(false, false), None);
}

#[test]
fn spawn_link_is_also_run_child() {
    assert_eq!(link_function_names("spawn-link"), vec!["spawn-link".to_string(), "run-child".to_string()]);
    assert_eq!(link_function_names("run"), vec!["run".to_string()]);
}

#[test]
fn link_reply_pairs_status_and_result() {
    assert_eq!(link_reply(Ok(55)), (0, 55));
    assert_eq!(link_reply(Err(1)), (1, 0));
}

#[test]
fn task_slot_delivers_the_outcome() {
    let mut slot = TaskSlot::new();
    assert!(slot.poll().is_none());
    slot.complete(Ok(vec![1, 2, 3]));
    assert_eq!(slot.poll(), Some(Ok(vec![1, 2, 3])));
    assert_eq!(slot.poll(), Some(Ok(vec![1, 2, 3])));
    slot.complete(Err(RunFailure::Trap));
    assert_eq!(slot.poll(), Some(Err(RunFailure::Trap)));
}

#[test]
fn task_reply_converts_failures() {
    assert_eq!(task_reply(Ok(vec![9])), Ok(vec![9]));
    assert_eq!(task_reply(Err(RunFailure::BadExport)), Err(ChildStatus::BadExport));
}
