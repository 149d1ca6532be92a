use pbjson_no_std::{idle_step, panic_policy, Fault};

#[test]
fn idle_step_never_signals_exit() {
    assert!(!idle_step());
}

#[test]
fn idle_step_signals_no_exit_on_repeated_turns() {
    let mut i: usize = 0;
    while i < 1000 {
        assert!(!idle_step());
        i += 1;
    }
}

#[test]
fn panic_policy_never_signals_exit() {
    let fault = Fault::new(12, 7);
    assert!(!panic_policy(&fault));
}

#[test]
fn panic_policy_discards_arbitrary_descriptors() {
    assert!(!panic_policy(&Fault::new(0, 0)));
    assert!(!panic_policy(&Fault::new(u32::MAX, u32::MAX)));
    assert!(!panic_policy(&Fault::new(1, u32::MAX)));
}

#[test]
fn fault_records_the_reported_location() {
    let fault = Fault::new(42, 3);
    assert_eq!(fault.line, 42);
    assert_eq!(fault.column, 3);
}
