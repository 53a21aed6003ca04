use apcs_tester::orchestrator::TestOrchestrator;
use apcs_tester::runner::{PerSubmissionRunner, RunnerAction, RunnerEvent};
use apcs_tester::test::{TestCase, TestResult};

/// Drives the runner against a simulated process that echoes every stdin
/// line back to stdout, one line of output per line of input.
fn drive_echo(cases: Vec<TestCase>, timeout_ms: u64) -> Result<Vec<TestResult>, String> {
    let mut m = PerSubmissionRunner::new(cases, timeout_ms);
    let mut fed: Vec<String> = Vec::new();
    while !m.finished() {
        match m.next_action() {
            RunnerAction::Start => m.on_event(RunnerEvent::Started),
            RunnerAction::DiscardOutput => {
                fed.clear();
                m.on_event(RunnerEvent::Discarded);
            }
            RunnerAction::WriteLine(l) => {
                fed.push(l);
                m.on_event(RunnerEvent::Wrote(true));
            }
            RunnerAction::Poll => m.on_event(RunnerEvent::Polled { running: false, elapsed_ms: 1 }),
            RunnerAction::Kill => m.on_event(RunnerEvent::KillSent(true)),
            RunnerAction::ReadOutput => {
                let mut out = String::new();
                for l in &fed {
                    out.push_str(l);
                    out.push('\n');
                }
                m.on_event(RunnerEvent::Output(out));
            }
        }
    }
    m.into_outcome()
}

#[test]
fn echo_submission_passes_matching_cases() {
    let cases = vec![
        TestCase::new("hello\nworld\n".to_string(), "hello\nworld\n".to_string(), 3),
        TestCase::new("a\nb\nc".to_string(), "a\nb\nc".to_string(), 2),
        TestCase::new("ping".to_string(), "pong".to_string(), 1),
    ];
    let results = drive_echo(cases, 1000).expect("echo run should succeed");
    assert_eq!(results.len(), 3);
    assert!(results[0].is_correct());
    assert!(results[1].is_correct());
    assert!(!results[2].is_correct());
}

#[test]
fn echo_submission_with_no_cases_finishes_empty() {
    let results = drive_echo(Vec::new(), 1000).expect("empty run should succeed");
    assert_eq!(results.len(), 0);
}

#[test]
fn sleepy_submission_times_out_after_confirmed_death() {
    let cases = vec![TestCase::new("x\n".to_string(), "x\n".to_string(), 1)];
    let mut m = PerSubmissionRunner::new(cases, 500);
    assert!(matches!(m.next_action(), RunnerAction::Start));
    m.on_event(RunnerEvent::Started);
    assert!(matches!(m.next_action(), RunnerAction::DiscardOutput));
    m.on_event(RunnerEvent::Discarded);
    assert!(matches!(m.next_action(), RunnerAction::WriteLine(_)));
    m.on_event(RunnerEvent::Wrote(true));
    // The process sleeps past the deadline.
    assert!(matches!(m.next_action(), RunnerAction::Poll));
    m.on_event(RunnerEvent::Polled { running: true, elapsed_ms: 200 });
    assert!(matches!(m.next_action(), RunnerAction::Poll));
    m.on_event(RunnerEvent::Polled { running: true, elapsed_ms: 700 });
    // Deadline exceeded: the machine demands a kill, then polls until the
    // process is confirmed dead; it must not conclude before that.
    assert!(matches!(m.next_action(), RunnerAction::Kill));
    m.on_event(RunnerEvent::KillSent(true));
    assert!(!m.finished());
    assert!(matches!(m.next_action(), RunnerAction::Poll));
    m.on_event(RunnerEvent::Polled { running: true, elapsed_ms: 800 });
    assert!(!m.finished());
    assert!(matches!(m.next_action(), RunnerAction::Poll));
    m.on_event(RunnerEvent::Polled { running: false, elapsed_ms: 900 });
    assert!(m.finished());
    assert_eq!(m.into_outcome(), Err("Timed out.".to_string()));
}

#[test]
fn failed_kill_still_waits_for_death() {
    let cases = vec![TestCase::new(String::new(), "y\n".to_string(), 1)];
    let mut m = PerSubmissionRunner::new(cases, 10);
    m.on_event(RunnerEvent::Started);
    m.on_event(RunnerEvent::Discarded);
    m.on_event(RunnerEvent::Polled { running: true, elapsed_ms: 50 });
    assert!(matches!(m.next_action(), RunnerAction::Kill));
    m.on_event(RunnerEvent::KillSent(false));
    assert!(!m.finished());
    m.on_event(RunnerEvent::Polled { running: false, elapsed_ms: 60 });
    assert_eq!(m.into_outcome(), Err("Timed out.".to_string()));
}

#[test]
fn start_failure_fails_only_that_submission() {
    let cases = vec![TestCase::new("i".to_string(), "o".to_string(), 1)];
    let mut m = PerSubmissionRunner::new(cases, 100);
    assert!(matches!(m.next_action(), RunnerAction::Start));
    m.on_event(RunnerEvent::StartFailed("no such file".to_string()));
    assert!(m.finished());
    assert_eq!(m.into_outcome(), Err("no such file".to_string()));
}

#[test]
fn write_failure_is_not_fatal() {
    let cases = vec![TestCase::new("a\nb".to_string(), "".to_string(), 1)];
    let mut m = PerSubmissionRunner::new(cases, 100);
    m.on_event(RunnerEvent::Started);
    m.on_event(RunnerEvent::Discarded);
    assert!(matches!(m.next_action(), RunnerAction::WriteLine(_)));
    m.on_event(RunnerEvent::Wrote(false));
    assert!(matches!(m.next_action(), RunnerAction::WriteLine(_)));
    m.on_event(RunnerEvent::Wrote(true));
    m.on_event(RunnerEvent::Polled { running: false, elapsed_ms: 5 });
    m.on_event(RunnerEvent::Output("".to_string()));
    let results = m.into_outcome().expect("run should succeed");
    assert_eq!(results.len(), 1);
    assert!(results[0].is_correct());
}

#[test]
fn orchestrator_caps_live_submissions() {
    let mut o = TestOrchestrator::new(5, 2);
    let a = o.try_start().expect("a permit is free");
    let b = o.try_start().expect("a permit is free");
    assert_eq!((a, b), (0, 1));
    assert_eq!(o.live, 2);
    // The cap is reached: nothing more may start.
    assert_eq!(o.try_start(), None);
    o.finish(a, Ok(Vec::new()));
    assert_eq!(o.live, 1);
    let c = o.try_start().expect("a permit was released");
    assert_eq!(c, 2);
    assert!(o.live <= 2);
}

#[test]
fn orchestrator_returns_outcomes_in_input_order() {
    let total: usize = 4;
    let mut o = TestOrchestrator::new(total, 2);
    let mut started: Vec<usize> = Vec::new();
    let mut outcomes_done: usize = 0;
    // Finish submissions out of order; slots must still line up by index.
    while outcomes_done < total {
        while let Some(i) = o.try_start() {
            assert!(o.live <= 2);
            started.push(i);
        }
        let i = started.pop().expect("something is live");
        o.finish(i, Err(format!("submission {}", i)));
        outcomes_done += 1;
    }
    assert!(o.all_done());
    let outcomes = o.into_outcomes();
    assert_eq!(outcomes.len(), total);
    for (i, out) in outcomes.iter().enumerate() {
        assert_eq!(out.as_ref().unwrap_err(), &format!("submission {}", i));
    }
}

#[test]
fn orchestrator_isolates_failures() {
    let mut o = TestOrchestrator::new(2, 1);
    let a = o.try_start().unwrap();
    o.finish(a, Err("boom".to_string()));
    let b = o.try_start().unwrap();
    o.finish(b, Ok(Vec::new()));
    let outcomes = o.into_outcomes();
    assert_eq!(outcomes[0], Err("boom".to_string()));
    assert!(outcomes[1].is_ok());
}
