use axinstall::eval::{
    cleanup_mounts, exec_eval, files_eval, soft_exec_eval, FailCause, ProcessOutcome, Verdict,
};
use axinstall::install::{install, run_retry, RetryState, RetryStep};

#[test]
fn install_builds_the_pacstrap_command() {
    let p = install(vec!["base".to_string(), "linux".to_string()], true);
    assert_eq!(p.cmd.program, "pacstrap");
    assert_eq!(p.cmd.args, vec!["/mnt", "base", "linux"]);
    assert!(!p.cmd.in_target);
    assert!(p.retry);
    let p = install(vec!["flatpak".to_string()], false);
    assert!(!p.retry);
}

#[test]
fn retry_two_failures_then_success_takes_three_attempts() {
    let r = run_retry(&vec![false, false, true], 3, 1);
    assert_eq!(r.attempts, 3);
    assert_eq!(r.delays, vec![1, 2]);
    assert!(r.succeeded);
}

#[test]
fn retry_always_failing_exhausts_three_attempts_and_fails() {
    let r = run_retry(&vec![false, false, false], 3, 1);
    assert_eq!(r.attempts, 3);
    assert_eq!(r.delays, vec![1, 2]);
    assert!(!r.succeeded);
}

#[test]
fn retry_exhaustion_escalates_to_the_fatal_path() {
    let r = run_retry(&vec![false, false, false], 3, 1);
    assert!(!r.succeeded);
    // the final failure is handed to the fatal policy: cleanup, code, abort
    let v = exec_eval(ProcessOutcome::Failure(Some(1)), "Install packages base");
    match v {
        Verdict::Fatal { label, code, .. } => {
            assert_eq!(label, "Install packages base");
            assert_eq!(code, 1);
        }
        _ => panic!("a failure under the fatal policy must be fatal"),
    }
    let cleanup = cleanup_mounts();
    assert_eq!(cleanup.len(), 2);
    assert_eq!(cleanup[0].program, "umount");
    assert_eq!(cleanup[0].args, vec!["/mnt/boot/efi"]);
    assert_eq!(cleanup[1].program, "umount");
    assert_eq!(cleanup[1].args, vec!["/mnt/"]);
}

#[test]
fn retry_first_attempt_success_never_sleeps() {
    let r = run_retry(&vec![true], 3, 1);
    assert_eq!(r.attempts, 1);
    assert!(r.delays.is_empty());
    assert!(r.succeeded);
}

#[test]
fn retry_state_doubles_the_delay() {
    let mut st = RetryState::new();
    assert_eq!(st.attempts_left, 3);
    assert_eq!(st.delay_secs, 1);
    assert_eq!(st.on_outcome(false), RetryStep::Sleep(1));
    assert_eq!(st.delay_secs, 2);
    assert_eq!(st.on_outcome(false), RetryStep::Sleep(2));
    assert_eq!(st.delay_secs, 4);
    assert_eq!(st.on_outcome(false), RetryStep::GiveUp);
    let mut st = RetryState::new();
    assert_eq!(st.on_outcome(true), RetryStep::Done);
}

#[test]
fn exec_eval_success_proceeds() {
    match exec_eval(ProcessOutcome::Success, "Formatting /dev/sda1 as fat32") {
        Verdict::Proceed { label } => assert_eq!(label, "Formatting /dev/sda1 as fat32"),
        _ => panic!("success must proceed"),
    }
}

#[test]
fn exec_eval_failure_keeps_the_exit_code() {
    match exec_eval(ProcessOutcome::Failure(Some(3)), "x") {
        Verdict::Fatal { cause, code, .. } => {
            assert!(matches!(cause, FailCause::Exit(Some(3))));
            assert_eq!(code, 3);
        }
        _ => panic!("a failure under the fatal policy must be fatal"),
    }
}

#[test]
fn exec_eval_launch_error_falls_back_to_one() {
    match exec_eval(ProcessOutcome::LaunchError(None), "x") {
        Verdict::Fatal { cause, code, .. } => {
            assert!(matches!(cause, FailCause::Launch(None)));
            assert_eq!(code, 1);
        }
        _ => panic!("a launch error under the fatal policy must be fatal"),
    }
}

#[test]
fn soft_eval_failure_is_not_fatal() {
    match soft_exec_eval(ProcessOutcome::Failure(Some(7)), "optional set") {
        Verdict::SoftFail { label, cause } => {
            assert_eq!(label, "optional set");
            assert!(matches!(cause, FailCause::Exit(Some(7))));
        }
        _ => panic!("a soft failure must not be fatal"),
    }
    match soft_exec_eval(ProcessOutcome::Success, "optional set") {
        Verdict::Proceed { .. } => {}
        _ => panic!("success must proceed"),
    }
}

#[test]
fn files_eval_failure_is_always_fatal() {
    match files_eval(Err(Some(13)), "write locale.conf") {
        Verdict::Fatal { cause, code, .. } => {
            assert!(matches!(cause, FailCause::File(Some(13))));
            assert_eq!(code, 13);
        }
        _ => panic!("a file failure must be fatal"),
    }
    match files_eval(Ok(()), "write locale.conf") {
        Verdict::Proceed { .. } => {}
        _ => panic!("success must proceed"),
    }
}
