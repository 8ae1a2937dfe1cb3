use build_runner::classify::{Origin, Severity};
use build_runner::cmd::{env_overrides, exit_outcome, CommandError};
use build_runner::pipe::{step, RunAction, RunEvent, RunState};

#[test]
fn exit_zero_is_success() {
    assert!(exit_outcome(Some(0)).is_ok());
}

#[test]
fn unreported_exit_is_success() {
    assert!(exit_outcome(None).is_ok());
}

#[test]
fn exit_seven_carries_code() {
    assert!(matches!(exit_outcome(Some(7)), Err(CommandError::NoZeroExitCode(7))));
    assert!(matches!(exit_outcome(Some(-1)), Err(CommandError::NoZeroExitCode(-1))));
}

#[test]
fn env_defaults_added_when_unset() {
    let env = env_overrides(&[]);
    assert_eq!(
        env,
        vec![
            (
                "_JAVA_OPTIONS".to_string(),
                "-Djdk.net.URLClassPath.disableClassPathURLCheck=true".to_string()
            ),
            ("MAVEN_OPTS".to_string(), "-Xmx1024M".to_string()),
        ]
    );
}

#[test]
fn env_defaults_skip_present_variables() {
    let env = env_overrides(&["PATH", "MAVEN_OPTS"]);
    assert_eq!(env.len(), 1);
    assert_eq!(env[0].0, "_JAVA_OPTIONS");
    assert!(env_overrides(&["MAVEN_OPTS", "_JAVA_OPTIONS"]).is_empty());
}

fn feed(state: &mut RunState, event: RunEvent) -> RunAction {
    let (next, action) = step(*state, event);
    *state = next;
    action
}

#[test]
fn all_lines_logged_before_outcome() {
    let mut state = RunState::new(true, true);
    let mut logged = 0;
    let mut exited = false;
    for i in 0..1000 {
        for (o, text) in [(Origin::Stdout, format!("out {i}")), (Origin::Stderr, format!("err {i}"))] {
            match feed(&mut state, RunEvent::Line(o, text)) {
                RunAction::Log(p, line) => {
                    assert_eq!(p, o);
                    assert_eq!(line.severity, Severity::Info);
                    logged += 1;
                }
                _ => panic!("a line must be logged"),
            }
        }
        if i == 500 && !exited {
            exited = true;
            assert!(matches!(feed(&mut state, RunEvent::Exited(Some(0))), RunAction::Wait));
        }
    }
    assert!(matches!(feed(&mut state, RunEvent::Closed(Origin::Stdout)), RunAction::Wait));
    match feed(&mut state, RunEvent::Closed(Origin::Stderr)) {
        RunAction::Finish(r) => assert!(r.is_ok()),
        _ => panic!("the run must finish once drained"),
    }
    assert_eq!(logged, 2000);
}

#[test]
fn streams_closing_early_wait_for_exit() {
    let mut state = RunState::new(true, true);
    assert!(matches!(feed(&mut state, RunEvent::Closed(Origin::Stderr)), RunAction::Wait));
    assert!(matches!(feed(&mut state, RunEvent::Closed(Origin::Stdout)), RunAction::Wait));
    match feed(&mut state, RunEvent::Exited(Some(5))) {
        RunAction::Finish(r) => assert!(matches!(r, Err(CommandError::NoZeroExitCode(5)))),
        _ => panic!("the run must finish at exit"),
    }
}

#[test]
fn absent_streams_finish_at_exit() {
    let mut state = RunState::new(false, false);
    match feed(&mut state, RunEvent::Exited(None)) {
        RunAction::Finish(r) => assert!(r.is_ok()),
        _ => panic!("nothing left to drain"),
    }
}

#[test]
fn read_failure_finishes_with_io() {
    let mut state = RunState::new(true, false);
    let e = std::io::Error::new(std::io::ErrorKind::Other, "broken pipe");
    match feed(&mut state, RunEvent::Failed(e)) {
        RunAction::Finish(Err(CommandError::IO(e))) => assert_eq!(e.to_string(), "broken pipe"),
        _ => panic!("a failure ends the run"),
    }
}

#[test]
fn exception_line_sets_errored_but_not_outcome() {
    let mut state = RunState::new(true, false);
    match feed(&mut state, RunEvent::Line(Origin::Stderr, "Exception in thread \"main\"".to_string())) {
        RunAction::Log(_, line) => assert_eq!(line.severity, Severity::Error),
        _ => panic!("a line must be logged"),
    }
    assert!(state.errored);
    assert!(matches!(feed(&mut state, RunEvent::Closed(Origin::Stdout)), RunAction::Wait));
    match feed(&mut state, RunEvent::Exited(Some(0))) {
        RunAction::Finish(r) => assert!(r.is_ok()),
        _ => panic!("the run must finish"),
    }
}
