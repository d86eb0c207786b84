use wasm_runner::abi::coredump_path;
use wasm_runner::lifecycle::{
    advance, conclude_boot, handle_result, snapshot_persisted, Event, Outcome, Phase, Step,
};

fn fault(error: &str, snapshot: bool) -> Outcome {
    Outcome::Fault { error: error.to_string(), snapshot }
}

#[test]
fn a_context_runs_to_its_end() {
    let phase = advance(Phase::Created, Event::Instantiate).unwrap();
    assert_eq!(phase, Phase::Instantiating);
    let phase = advance(phase, Event::Instantiated).unwrap();
    assert_eq!(phase, Phase::Running);
    assert_eq!(advance(phase, Event::Returned), Some(Phase::TerminatedNormally));
    assert_eq!(advance(phase, Event::Failed), Some(Phase::TerminatedFatally));
    assert_eq!(advance(Phase::Instantiating, Event::Failed), Some(Phase::TerminatedFatally));
}

#[test]
fn events_out_of_place_are_refused() {
    let phases = [
        Phase::Created,
        Phase::Instantiating,
        Phase::Running,
        Phase::TerminatedNormally,
        Phase::TerminatedFatally,
    ];
    let events = [Event::Instantiate, Event::Instantiated, Event::Returned, Event::Failed];
    let mut allowed = 0;
    for phase in phases {
        for event in events {
            let next = advance(phase, event);
            if next.is_some() {
                allowed += 1;
            }
            if phase == Phase::TerminatedNormally || phase == Phase::TerminatedFatally {
                assert_eq!(next, None);
            }
            assert_ne!(next, Some(Phase::Created));
        }
    }
    assert_eq!(allowed, 5);
    assert_eq!(advance(Phase::Created, Event::Failed), None);
    assert_eq!(advance(Phase::Created, Event::Returned), None);
    assert_eq!(advance(Phase::Instantiating, Event::Returned), None);
    assert_eq!(advance(Phase::Running, Event::Instantiate), None);
}

#[test]
fn a_return_needs_no_step() {
    assert_eq!(handle_result("boot", &Outcome::Returned), vec![]);
    assert_eq!(handle_result("entry1", &Outcome::Returned), vec![]);
}

#[test]
fn a_fault_is_reported_and_ends_the_process() {
    assert_eq!(
        handle_result("kworker", &fault("wasm trap: unreachable", false)),
        vec![
            Step::Report { line: "in kworker: wasm trap: unreachable".to_string() },
            Step::Exit { status: 1 },
        ]
    );
    assert_eq!(
        handle_result("", &fault("", false)),
        vec![Step::Report { line: "in : ".to_string() }, Step::Exit { status: 1 }]
    );
}

#[test]
fn fatal_fault_with_snapshot() {
    let steps = handle_result("boot", &fault("out of bounds memory access", true));
    assert_eq!(
        steps,
        vec![
            Step::PersistSnapshot,
            Step::Report { line: "in boot: out of bounds memory access".to_string() },
            Step::Exit { status: 1 },
        ]
    );
    assert_eq!(conclude_boot(&fault("out of bounds memory access", true)), steps);
    assert_eq!(coredump_path(), "kernel.coredump");
    match &steps[1] {
        Step::Report { line } => assert!(line.contains("boot")),
        other => panic!("{other:?}"),
    }
}

#[test]
fn boot_returns_while_a_secondary_runs() {
    assert_eq!(conclude_boot(&Outcome::Returned), vec![Step::Exit { status: 0 }]);
    assert_eq!(handle_result("entry1", &Outcome::Returned), vec![]);
    assert_eq!(
        handle_result("entry1", &fault("trap", false)).last(),
        Some(&Step::Exit { status: 1 })
    );
    assert_eq!(
        conclude_boot(&fault("trap", false)),
        vec![Step::Report { line: "in boot: trap".to_string() }, Step::Exit { status: 1 }]
    );
}

#[test]
fn a_snapshot_that_cannot_be_written_is_only_logged() {
    assert_eq!(snapshot_persisted(None), None);
    assert_eq!(
        snapshot_persisted(Some("permission denied")),
        Some("while writing coredump: permission denied".to_string())
    );
}
