use script_sandbox::governor::GovernorVerdict;
use script_sandbox::governor::VerdictSlot;
use script_sandbox::governor::decode_verdict;
use script_sandbox::governor::encode_verdict;
use script_sandbox::governor::heap_pressure_step;
use script_sandbox::governor::raised_heap_ceiling;
use script_sandbox::governor::resolve_verdict;
use script_sandbox::governor::should_cancel_pending_abort;
use script_sandbox::governor::watchdog_should_abort;
use script_sandbox::limits::ResourceLimits;

#[test]
fn fresh_slot_holds_no_breach() {
    let slot = VerdictSlot::new();
    assert_eq!(slot.read(), GovernorVerdict::NoBreach);
}

#[test]
fn first_write_lands() {
    let mut slot = VerdictSlot::new();
    slot.record(GovernorVerdict::CpuTimeout);
    assert_eq!(slot.read(), GovernorVerdict::CpuTimeout);
}

#[test]
fn heap_breach_wins_whatever_order_the_watchers_fired_in() {
    let mut slot = VerdictSlot::new();
    slot.record(GovernorVerdict::CpuTimeout);
    slot.record(GovernorVerdict::HeapExceeded);
    assert_eq!(slot.read(), GovernorVerdict::HeapExceeded);

    let mut slot2 = VerdictSlot::new();
    slot2.record(GovernorVerdict::HeapExceeded);
    slot2.record(GovernorVerdict::CpuTimeout);
    assert_eq!(slot2.read(), GovernorVerdict::HeapExceeded);
}

#[test]
fn recorded_breach_is_never_cleared() {
    let mut slot = VerdictSlot::new();
    slot.record(GovernorVerdict::CpuTimeout);
    slot.record(GovernorVerdict::NoBreach);
    assert_eq!(slot.read(), GovernorVerdict::CpuTimeout);

    let mut slot2 = VerdictSlot::new();
    slot2.record(GovernorVerdict::HeapExceeded);
    slot2.record(GovernorVerdict::NoBreach);
    assert_eq!(slot2.read(), GovernorVerdict::HeapExceeded);
}

#[test]
fn watchdog_aborts_only_unfinished_runs() {
    assert!(watchdog_should_abort(false));
    assert!(!watchdog_should_abort(true));
}

#[test]
fn heap_pressure_records_verdict_and_doubles_ceiling() {
    let mut slot = VerdictSlot::new();
    let new_limit = heap_pressure_step(&mut slot, 1024 * 1024);
    assert_eq!(new_limit, 2 * 1024 * 1024);
    assert_eq!(slot.read(), GovernorVerdict::HeapExceeded);
}

#[test]
fn heap_pressure_ceiling_saturates() {
    let mut slot = VerdictSlot::new();
    let new_limit = heap_pressure_step(&mut slot, usize::MAX - 1);
    assert_eq!(new_limit, usize::MAX);
}

#[test]
fn heap_pressure_overrides_an_earlier_cpu_verdict() {
    let mut slot = VerdictSlot::new();
    slot.record(GovernorVerdict::CpuTimeout);
    let _ = heap_pressure_step(&mut slot, 4096);
    assert_eq!(slot.read(), GovernorVerdict::HeapExceeded);
}

#[test]
fn raised_ceiling_doubles_and_saturates() {
    assert_eq!(raised_heap_ceiling(1024), 2048);
    assert_eq!(raised_heap_ceiling(usize::MAX / 2 + 1), usize::MAX);
    assert_eq!(raised_heap_ceiling(usize::MAX), usize::MAX);
}

#[test]
fn verdict_codes_round_trip_in_precedence_order() {
    let verdicts = [
        GovernorVerdict::NoBreach,
        GovernorVerdict::CpuTimeout,
        GovernorVerdict::HeapExceeded,
    ];
    for verdict in verdicts {
        assert_eq!(decode_verdict(encode_verdict(verdict)), verdict);
    }
    assert!(encode_verdict(GovernorVerdict::NoBreach) < encode_verdict(GovernorVerdict::CpuTimeout));
    assert!(encode_verdict(GovernorVerdict::CpuTimeout) < encode_verdict(GovernorVerdict::HeapExceeded));
    assert_eq!(decode_verdict(255), GovernorVerdict::NoBreach);
}

#[test]
fn fetch_max_on_codes_matches_the_slot() {
    let verdicts = [
        GovernorVerdict::NoBreach,
        GovernorVerdict::CpuTimeout,
        GovernorVerdict::HeapExceeded,
    ];
    for current in verdicts {
        for write in verdicts {
            let mut slot = VerdictSlot::new();
            slot.record(current);
            slot.record(write);
            let max_code = encode_verdict(current).max(encode_verdict(write));
            assert_eq!(decode_verdict(max_code), slot.read());
        }
    }
}

#[test]
fn pending_abort_is_cleared_exactly_after_a_breach_or_raw_signal() {
    assert!(should_cancel_pending_abort(GovernorVerdict::HeapExceeded, false));
    assert!(should_cancel_pending_abort(GovernorVerdict::CpuTimeout, false));
    assert!(should_cancel_pending_abort(GovernorVerdict::NoBreach, true));
    assert!(!should_cancel_pending_abort(GovernorVerdict::NoBreach, false));
}

#[test]
fn recorded_verdict_takes_precedence_over_raw_signal() {
    assert_eq!(
        resolve_verdict(GovernorVerdict::HeapExceeded, true),
        GovernorVerdict::HeapExceeded
    );
    assert_eq!(
        resolve_verdict(GovernorVerdict::HeapExceeded, false),
        GovernorVerdict::HeapExceeded
    );
    assert_eq!(
        resolve_verdict(GovernorVerdict::CpuTimeout, true),
        GovernorVerdict::CpuTimeout
    );
    assert_eq!(
        resolve_verdict(GovernorVerdict::CpuTimeout, false),
        GovernorVerdict::CpuTimeout
    );
}

#[test]
fn bare_terminating_signal_counts_as_timeout() {
    assert_eq!(
        resolve_verdict(GovernorVerdict::NoBreach, true),
        GovernorVerdict::CpuTimeout
    );
    assert_eq!(
        resolve_verdict(GovernorVerdict::NoBreach, false),
        GovernorVerdict::NoBreach
    );
}

#[test]
fn limits_carry_what_the_caller_supplied() {
    let limits = ResourceLimits::new(100, 1024 * 1024);
    assert_eq!(limits.max_execution_time_ms, 100);
    assert_eq!(limits.max_heap_bytes, 1024 * 1024);
}

#[test]
fn default_limits_are_the_documented_budgets() {
    let limits = ResourceLimits::default();
    assert_eq!(limits.max_execution_time_ms, 300);
    assert_eq!(limits.max_heap_bytes, 16 * 1024 * 1024);
}
