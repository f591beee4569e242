use wasm_fib::supervisor::{supervise_outcomes, Supervisor, SupervisorAction, SupervisorRecord, SupervisorReport};

#[test]
fn succeeds_on_first_ok_child() {
    let outcomes = vec![(1, 0), (2, 0), (0, 55), (0, 99)];
    assert_eq!(
        supervise_outcomes(10, 4, &outcomes),
        SupervisorReport { status: 0, attempts: 3, child_status: 0, result: 55 }
    );
}

#[test]
fn fails_after_all_retries() {
    let outcomes = vec![(1, 0), (1, 0), (2, 7)];
    assert_eq!(
        supervise_outcomes(52, 3, &outcomes),
        SupervisorReport { status: 10, attempts: 3, child_status: 2, result: 0 }
    );
}

#[test]
fn no_attempt_allowed() {
    assert_eq!(
        supervise_outcomes(52, 0, &Vec::new()),
        SupervisorReport { status: 10, attempts: 0, child_status: 0, result: 0 }
    );
}

#[test]
fn machine_spawns_each_attempt() {
    let (mut sup, action) = Supervisor::start(20, 2);
    assert_eq!(action, SupervisorAction::SpawnLink { n: 20 });
    assert_eq!(sup.step(1, 0), SupervisorAction::SpawnLink { n: 20 });
    assert_eq!(
        sup.step(0, 6765),
        SupervisorAction::Finish { report: SupervisorReport { status: 0, attempts: 2, child_status: 0, result: 6765 } }
    );
}

#[test]
fn records_each_child() {
    assert_eq!(SupervisorRecord::empty(), SupervisorRecord { attempts: 0, child_status: 0, result: 0 });
    let (mut sup, _) = Supervisor::start(10, 3);
    assert_eq!(sup.record(1, 7), SupervisorRecord { attempts: 1, child_status: 1, result: 0 });
    let _ = sup.step(1, 7);
    assert_eq!(sup.record(0, 55), SupervisorRecord { attempts: 2, child_status: 0, result: 55 });
}
