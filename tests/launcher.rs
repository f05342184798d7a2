use neovim_instance_registry::launcher::{
    healthy_step, keep_watching, ready_step, restarts_after, server_args, Lookup, WaitStep,
    EXIT_NOT_HEALTHY, EXIT_NOT_READY, EXIT_VANISHED,
};
use neovim_instance_registry::model::HealthStatus;

#[test]
fn readiness_wait_gives_up_after_thirty_checks() {
    assert_eq!(ready_step(1, true), WaitStep::Proceed);
    assert_eq!(ready_step(29, false), WaitStep::Wait);
    assert_eq!(ready_step(30, false), WaitStep::Fail(EXIT_NOT_READY));
    assert_eq!(EXIT_NOT_READY, 3);
}

#[test]
fn health_wait_outcomes() {
    assert_eq!(healthy_step(1, Some(HealthStatus::Healthy)), WaitStep::Proceed);
    assert_eq!(healthy_step(1, Some(HealthStatus::Unknown)), WaitStep::Wait);
    assert_eq!(healthy_step(60, Some(HealthStatus::Unknown)), WaitStep::Fail(EXIT_NOT_HEALTHY));
    assert_eq!(healthy_step(3, None), WaitStep::Fail(EXIT_VANISHED));
    assert_eq!((EXIT_VANISHED, EXIT_NOT_HEALTHY), (5, 6));
}

#[test]
fn watching_and_restarting() {
    assert!(keep_watching(Lookup::Found));
    assert!(keep_watching(Lookup::Failed));
    assert!(!keep_watching(Lookup::Absent));
    assert!(restarts_after(2));
    assert!(!restarts_after(0));
    assert!(!restarts_after(-1));
}

#[test]
fn headless_server_arguments() {
    let a = server_args("127.0.0.1:5000".to_string(), Some("/p".to_string()), Some("/p/f.rs".to_string()));
    assert_eq!(a, vec!["--listen", "127.0.0.1:5000", "--headless", "/p/f.rs"]);
    let a = server_args("h:1".to_string(), Some("/p".to_string()), None);
    assert_eq!(a[3], "/p");
    let a = server_args("h:1".to_string(), None, None);
    assert_eq!(a[3], ".");
}
