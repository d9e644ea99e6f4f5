use form_filler::worker::{rate_per_minute, run_worker, should_halt, status_is_success, SubmitOutcome};

#[test]
fn success_statuses_are_the_2xx_class() {
    assert!(status_is_success(200));
    assert!(status_is_success(204));
    assert!(status_is_success(299));
    assert!(!status_is_success(199));
    assert!(!status_is_success(300));
    assert!(!status_is_success(404));
    assert!(!status_is_success(500));
}

#[test]
fn only_transport_errors_halt() {
    assert!(should_halt(&SubmitOutcome::TransportError));
    assert!(!should_halt(&SubmitOutcome::Status(200)));
    assert!(!should_halt(&SubmitOutcome::Status(404)));
    assert!(!should_halt(&SubmitOutcome::Status(500)));
}

#[test]
fn worker_with_no_outcomes_runs_nothing() {
    assert_eq!(run_worker(&vec![]), 0);
}

#[test]
fn non_2xx_status_does_not_stop_the_loop() {
    // A rejected submission is followed by another iteration.
    let outcomes = vec![SubmitOutcome::Status(500), SubmitOutcome::Status(200)];
    assert_eq!(run_worker(&outcomes), 2);
}

#[test]
fn worker_stops_at_the_first_transport_failure() {
    let outcomes = vec![
        SubmitOutcome::Status(200),
        SubmitOutcome::TransportError,
        SubmitOutcome::Status(200),
    ];
    assert_eq!(run_worker(&outcomes), 2);
}

#[test]
fn transport_failure_halts_only_the_worker_that_saw_it() {
    let failing_worker = vec![
        SubmitOutcome::Status(200),
        SubmitOutcome::Status(404),
        SubmitOutcome::TransportError,
        SubmitOutcome::Status(200),
        SubmitOutcome::Status(200),
    ];
    let healthy_worker = vec![
        SubmitOutcome::Status(200),
        SubmitOutcome::Status(500),
        SubmitOutcome::Status(200),
        SubmitOutcome::Status(301),
        SubmitOutcome::Status(200),
    ];
    // The failing worker stops right after its failure; the other worker's
    // count depends only on its own outcomes and stays complete.
    assert_eq!(run_worker(&failing_worker), 3);
    assert_eq!(run_worker(&healthy_worker), 5);
}

#[test]
fn rate_extrapolates_from_one_iteration() {
    assert_eq!(rate_per_minute(500), 120);
    assert_eq!(rate_per_minute(60000), 1);
    assert_eq!(rate_per_minute(1), 60000);
    assert_eq!(rate_per_minute(70000), 0);
}
