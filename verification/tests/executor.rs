use vshell::command::Command;
use vshell::executor::{last_code, Dispatch, ExecSession, PollAction, PollStatus};

#[test]
fn interrupt_while_running_kills_reaps_and_reports_one() {
    // A fake child: try_wait keeps answering "still running" while the
    // interrupt flag has been cleared by the signal handler.
    let mut session = ExecSession::start();
    assert!(!session.done);
    let action = session.on_poll(PollStatus::Running, true);
    assert_eq!(action, PollAction::KillAndReap);
    assert!(session.done);
    assert_eq!(session.code, 1);
}

#[test]
fn quiet_child_sleeps_until_it_exits() {
    let mut session = ExecSession::start();
    assert_eq!(session.on_poll(PollStatus::Running, false), PollAction::Sleep);
    assert!(!session.done);
    assert_eq!(session.on_poll(PollStatus::Running, false), PollAction::Sleep);
    assert_eq!(session.on_poll(PollStatus::Exited(42), false), PollAction::Done);
    assert!(session.done);
    assert_eq!(session.code, 42);
}

#[test]
fn wait_error_is_reported_and_polling_goes_on() {
    let mut session = ExecSession::start();
    assert_eq!(
        session.on_poll(PollStatus::WaitFailed, false),
        PollAction::ReportAndSleep
    );
    assert!(!session.done);
    assert_eq!(session.code, 1);
    assert_eq!(session.on_poll(PollStatus::Exited(0), false), PollAction::Done);
    assert_eq!(session.code, 0);
}

#[test]
fn missing_program_reports_zero() {
    let mut session = ExecSession::start();
    session.on_spawn_failure();
    assert!(session.done);
    assert_eq!(session.code, 0);
}

#[test]
fn plan_routes_cd_to_the_builtin_and_the_rest_to_spawn() {
    let plan = Command::handle_commands("cd /tmp && ls -l");
    assert_eq!(plan.len(), 2);
    match &plan[0] {
        Dispatch::RunCd(args) => assert_eq!(args.as_slice(), &["/tmp".to_string()]),
        Dispatch::Spawn(p, _) => panic!("expected the builtin, got spawn of {p}"),
    }
    match &plan[1] {
        Dispatch::Spawn(prog, args) => {
            assert_eq!(prog, "ls");
            assert_eq!(args.as_slice(), &["-l".to_string()]);
        },
        Dispatch::RunCd(_) => panic!("expected a spawn"),
    }
}

#[test]
fn every_segment_runs_whatever_the_codes_before() {
    // The separator does not short-circuit: both segments are planned.
    let plan = Command::handle_commands("false && echo hi");
    assert_eq!(plan.len(), 2);
}

#[test]
fn empty_plan_reports_one_and_last_code_wins() {
    assert_eq!(last_code(&Vec::new()), 1);
    assert_eq!(last_code(&vec![0, 2, 7]), 7);
}
