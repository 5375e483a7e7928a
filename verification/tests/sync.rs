use psp2::sync::{
    claim_exchange, initial_uid, on_created, on_exchange, publish_value, step_for, LockStep,
    RawMutex,
};

fn claim_until_settled(m: &RawMutex) -> Option<LockStep> {
    loop {
        match m.claim().1 {
            Some(LockStep::Retry) => continue,
            other => return other,
        }
    }
}

#[test]
fn exchange_results_lead_to_steps() {
    assert!(matches!(on_exchange(Err(5)), LockStep::Acquire(5)));
    assert!(matches!(on_exchange(Err(i32::MAX)), LockStep::Acquire(i32::MAX)));
    assert!(matches!(on_exchange(Err(0)), LockStep::Retry));
    assert!(matches!(on_exchange(Err(-1)), LockStep::Retry));
    assert!(matches!(on_exchange(Ok(0)), LockStep::Create));
    match on_exchange(Err(-3)) {
        LockStep::Fail(e) => assert_eq!(e.code(), -3),
        _ => panic!("a published error fails the lock"),
    }
}

#[test]
fn creation_results_lead_to_outcomes() {
    assert_eq!(on_created(7).unwrap(), 7);
    assert_eq!(on_created(-2147352567).unwrap_err().code(), -2147352567);
    assert_eq!(on_created(-3).unwrap_err().code(), -3);
}

#[test]
fn first_locker_creates_and_later_ones_acquire() {
    let m = RawMutex::new();
    assert_eq!(m.uid(), 0);
    assert!(matches!(claim_until_settled(&m), Some(LockStep::Create)));
    assert_eq!(m.uid(), -1);
    // While creation is under way, other lockers wait.
    let (observed, step) = m.claim();
    assert_eq!(observed, Err(-1));
    assert!(matches!(step, Some(LockStep::Retry)));
    assert_eq!(m.finish_create(12).unwrap().unwrap(), 12);
    assert_eq!(m.uid(), 12);
    assert!(matches!(claim_until_settled(&m), Some(LockStep::Acquire(12))));
    assert_eq!(m.uid(), 12);
}

#[test]
fn failed_creation_is_seen_by_every_locker() {
    let m = RawMutex::new();
    assert!(matches!(claim_until_settled(&m), Some(LockStep::Create)));
    assert_eq!(m.finish_create(-7).unwrap().unwrap_err().code(), -7);
    match claim_until_settled(&m) {
        Some(LockStep::Fail(e)) => assert_eq!(e.code(), -7),
        _ => panic!("the published error must reach later lockers"),
    }
}

#[test]
fn broken_creation_is_refused_and_poisons_the_mutex() {
    for mtx in [0, -1, -2] {
        let m = RawMutex::new();
        assert!(matches!(claim_until_settled(&m), Some(LockStep::Create)));
        assert!(m.finish_create(mtx).is_none());
        assert_eq!(m.uid(), -2);
        assert!(claim_until_settled(&m).is_none());
    }
}

#[test]
fn poison_and_impossible_exchanges_have_no_step() {
    assert!(step_for(Err(-2)).is_none());
    assert!(step_for(Ok(3)).is_none());
    assert!(step_for(Ok(-2)).is_none());
    assert!(matches!(step_for(Ok(0)), Some(LockStep::Create)));
    assert!(matches!(step_for(Err(9)), Some(LockStep::Acquire(9))));
    assert!(matches!(step_for(Err(-1)), Some(LockStep::Retry)));
    match step_for(Err(-4)) {
        Some(LockStep::Fail(e)) => assert_eq!(e.code(), -4),
        _ => panic!("a published error fails the lock"),
    }
}

#[test]
fn claim_reports_what_the_exchange_saw() {
    let m = RawMutex::new();
    assert!(matches!(claim_until_settled(&m), Some(LockStep::Create)));
    assert!(m.finish_create(-2).is_none());
    let (observed, step) = m.claim();
    assert_eq!(observed, Err(-2));
    assert!(step.is_none());
}

#[test]
fn error_debug_shows_the_code() {
    assert_eq!(format!("{:?}", psp2::io::Error::from_raw_os_error(-5)), "Error(-5)");
}

#[test]
fn protocol_values_are_fixed() {
    assert_eq!(initial_uid(), 0);
    assert_eq!(claim_exchange(), (0, -1));
    assert_eq!(publish_value(12), 12);
    assert_eq!(publish_value(-7), -7);
    assert_eq!(publish_value(0), -2);
    assert_eq!(publish_value(-1), -2);
    assert_eq!(publish_value(-2), -2);
    assert_eq!(publish_value(-3), -3);
}
