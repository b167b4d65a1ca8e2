use report_runner::{Action, Event, Phase, RunError, StreamRun};

/// Feeds a script's stdout lines and exit status through a run, answering
/// every delivery as accepted, and returns the delivered lines and outcome.
fn drive(lines: &[&str], exit_ok: bool) -> (Vec<String>, Result<(), RunError>) {
    let mut run = StreamRun::new();
    let mut pending: Vec<String> = lines.iter().map(|s| s.to_string()).collect();
    pending.reverse();
    let mut delivered = Vec::new();
    loop {
        let event = match run.action() {
            Action::Launch => Event::Launched,
            Action::ReadLine => match pending.pop() {
                Some(l) => Event::LineRead(l),
                None => Event::OutputEnded,
            },
            Action::Deliver(l) => {
                delivered.push(l);
                Event::Delivered
            }
            Action::WaitForExit => Event::Exited(exit_ok),
            Action::Reap => Event::Reaped,
            Action::Finish => break,
        };
        run = run.step(event);
    }
    (delivered, run.outcome().unwrap())
}

#[test]
fn streaming_skips_blank_lines_in_order() {
    let (delivered, outcome) = drive(&["a", "", "b"], true);
    assert_eq!(delivered, vec!["a".to_string(), "b".to_string()]);
    assert_eq!(outcome, Ok(()));
}

#[test]
fn streaming_skips_whitespace_only_lines() {
    let (delivered, _) = drive(&["  ", "\t", "x y"], true);
    assert_eq!(delivered, vec!["x y".to_string()]);
}

#[test]
fn streaming_delivers_before_script_failure() {
    let (delivered, outcome) = drive(&["partial"], false);
    assert_eq!(delivered, vec!["partial".to_string()]);
    assert_eq!(outcome, Err(RunError::ScriptFailure(None)));
}

#[test]
fn streaming_launch_failure_delivers_nothing() {
    let run = StreamRun::new();
    assert_eq!(run.action(), Action::Launch);
    let run = run.step(Event::LaunchFailed("not found".to_string()));
    assert_eq!(run.action(), Action::Finish);
    assert_eq!(
        run.outcome(),
        Some(Err(RunError::LaunchFailure("not found".to_string())))
    );
}

#[test]
fn streaming_read_failure_reaps_then_fails() {
    let run = StreamRun::new().step(Event::Launched);
    let run = run.step(Event::ReadFailed("invalid data".to_string()));
    assert_eq!(run.action(), Action::Reap);
    let run = run.step(Event::Reaped);
    assert_eq!(
        run.outcome(),
        Some(Err(RunError::StreamReadFailure("invalid data".to_string())))
    );
}

#[test]
fn streaming_delivery_failure_reaps_then_fails() {
    let run = StreamRun::new().step(Event::Launched);
    let run = run.step(Event::LineRead("one".to_string()));
    assert_eq!(run.action(), Action::Deliver("one".to_string()));
    let run = run.step(Event::DeliveryFailed("window closed".to_string()));
    assert_eq!(run.action(), Action::Reap);
    let run = run.step(Event::Reaped);
    assert_eq!(
        run.outcome(),
        Some(Err(RunError::DeliveryFailure("window closed".to_string())))
    );
}

#[test]
fn streaming_wait_failure() {
    let run = StreamRun::new().step(Event::Launched).step(Event::OutputEnded);
    assert_eq!(run.action(), Action::WaitForExit);
    let run = run.step(Event::WaitFailed("interrupted".to_string()));
    assert_eq!(
        run.outcome(),
        Some(Err(RunError::StreamReadFailure("interrupted".to_string())))
    );
}

#[test]
fn streaming_ignores_events_out_of_place() {
    let run = StreamRun::new().step(Event::Delivered);
    assert_eq!(run.phase(), &Phase::Launching);
    let run = run.step(Event::Launched).step(Event::Exited(true));
    assert_eq!(run.phase(), &Phase::Reading);
    let run = run.step(Event::OutputEnded).step(Event::Exited(true));
    assert_eq!(run.phase(), &Phase::Finished(Ok(())));
    let run = run.step(Event::LaunchFailed("late".to_string()));
    assert_eq!(run.outcome(), Some(Ok(())));
}

#[test]
fn unfinished_run_has_no_outcome() {
    assert_eq!(StreamRun::new().step(Event::Launched).outcome(), None);
}
