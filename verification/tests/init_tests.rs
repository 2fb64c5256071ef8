use txnpool::init::ArriveOutcome;
use txnpool::init::InitState;
use txnpool::init::SharedSlot;

#[test]
fn first_caller_constructs() {
    let mut slot = SharedSlot::new();
    assert_eq!(slot.snapshot(), InitState::Empty);
    assert_eq!(slot.arrive(), ArriveOutcome::MustConstruct);
    assert_eq!(slot.snapshot(), InitState::Initializing);
}

#[test]
fn callers_during_construction_wait() {
    let mut slot = SharedSlot::new();
    assert_eq!(slot.arrive(), ArriveOutcome::MustConstruct);
    assert_eq!(slot.arrive(), ArriveOutcome::Wait);
    assert_eq!(slot.arrive(), ArriveOutcome::Wait);
}

#[test]
fn exactly_one_construction_among_many_callers() {
    // Simulated concurrent first calls: ten callers race, their arrivals
    // serialized; the constructor call counter must end at one, and every
    // caller after completion receives the same handle.
    let mut slot = SharedSlot::new();
    let mut constructions = 0;
    let mut handles = Vec::new();
    for round in 0..10 {
        match slot.arrive() {
            ArriveOutcome::MustConstruct => {
                constructions += 1;
                slot.finish_ok(42);
            }
            ArriveOutcome::Wait => panic!("no construction was in flight at round {round}"),
            ArriveOutcome::UseReady(p) => handles.push(p),
            ArriveOutcome::UseFailed => panic!("construction succeeded at round {round}"),
        }
    }
    assert_eq!(constructions, 1);
    assert_eq!(handles, vec![42; 9]);
}

#[test]
fn later_callers_share_the_handle() {
    let mut slot = SharedSlot::new();
    assert_eq!(slot.arrive(), ArriveOutcome::MustConstruct);
    slot.finish_ok(7);
    assert_eq!(slot.snapshot(), InitState::Ready(7));
    assert_eq!(slot.arrive(), ArriveOutcome::UseReady(7));
    assert_eq!(slot.arrive(), ArriveOutcome::UseReady(7));
    assert_eq!(slot.snapshot(), InitState::Ready(7));
}

#[test]
fn first_failure_is_cached_permanently() {
    let mut slot = SharedSlot::new();
    assert_eq!(slot.arrive(), ArriveOutcome::MustConstruct);
    slot.finish_err();
    assert_eq!(slot.snapshot(), InitState::Failed);
    assert_eq!(slot.arrive(), ArriveOutcome::UseFailed);
    assert_eq!(slot.arrive(), ArriveOutcome::UseFailed);
    assert_eq!(slot.snapshot(), InitState::Failed);
}
