//! The per-submission runner, as a state machine.
//!
//! One submission is driven through all its test cases sequentially: start
//! the process, discard any output buffered before input is supplied, feed
//! the input line by line, poll liveness against the deadline, kill the
//! process when the deadline passes, and grade the captured output.  The
//! machine decides; the caller performs the process work (spawn, write,
//! poll, signal, read) and reports each outcome back as an event.
//!
//! A timeout aborts the remainder of the submission's test cases, and the
//! machine concludes it only once a poll has confirmed that the killed
//! process is no longer running.  A failed stdin write is logged by the
//! caller and the run continues.

use vstd::prelude::*;
use vstd::pervasive::unreached;
use crate::grade::{grade, grade_post};
use crate::lines::{strs_view, spec_lines, split_lines};
use crate::test::{TestCase, TestResult};

verus! {

/// Where the runner stands for the current test case.
#[derive(Debug, Clone, Copy, PartialEq, Eq, Structural)]
pub enum RunnerPhase {
    /// The process for the current case must be started.
    StartCase,
    /// Output buffered before any input was supplied must be discarded.
    Discard,
    /// Input lines are being fed to the process.
    Feed,
    /// The process is running against the deadline.
    Wait,
    /// The deadline passed; the process must be killed.
    Killing,
    /// The kill was sent; the process must be polled until it stops running.
    AwaitDeath,
    /// The process finished in time; its output must be read.
    Collect,
    /// Every test case was graded.
    Done,
    /// A case overran the deadline and the process was confirmed dead.
    TimedOut,
    /// The process could not be started.
    Failed,
}

/// What the caller must do next.
#[derive(Debug)]
pub enum RunnerAction {
    /// Start the submission's process in interactive mode.
    Start,
    /// Read and drop whatever output is already buffered.
    DiscardOutput,
    /// Write this line to the process's standard input.
    WriteLine(String),
    /// Report whether the process still runs and its elapsed time.
    Poll,
    /// Send the forced-termination signal.
    Kill,
    /// Read the process's full output.
    ReadOutput,
}

/// What the caller observed.
#[derive(Debug)]
pub enum RunnerEvent {
    /// The process started.
    Started,
    /// The process could not be started; the text describes why.
    StartFailed(String),
    /// The buffered output was discarded.
    Discarded,
    /// The line was written (`true`) or the write failed (`false`).
    Wrote(bool),
    /// The process still runs (or not) after `elapsed_ms` milliseconds.
    Polled { running: bool, elapsed_ms: u64 },
    /// The kill signal was delivered (`true`) or could not be (`false`).
    KillSent(bool),
    /// The process's full output.
    Output(String),
}

/// Drives one submission through its test cases and accumulates one graded
/// `TestResult` per completed case.
pub struct PerSubmissionRunner {
    pub cases: Vec<TestCase>,
    pub timeout_ms: u64,
    pub idx: usize,
    pub line: usize,
    pub feed_lines: Vec<String>,
    pub phase: RunnerPhase,
    pub fail_msg: String,
    pub results: Vec<TestResult>,
    /// The output text captured for each completed case.
    pub outputs: Ghost<Seq<Seq<char>>>,
}

impl PerSubmissionRunner {
    pub open spec fn spec_finished(self) -> bool {
        self.phase is Done || self.phase is TimedOut || self.phase is Failed
    }

    pub open spec fn wf(self) -> bool {
        &&& self.idx <= self.cases@.len()
        &&& self.results@.len() == self.idx
        &&& self.outputs@.len() == self.idx
        &&& (forall|k: int|
            0 <= k < self.idx ==> grade_post(
                self.cases@[k].expected@,
                self.outputs@[k],
                #[trigger] self.results@[k],
            ) && self.results@[k].wf())
        &&& (forall|k: int|
            0 <= k < self.cases@.len() ==> (#[trigger] self.cases@[k]).expected@.len()
                < 0x7fff_ffff)
        &&& (!self.spec_finished() ==> self.idx < self.cases@.len())
        &&& (self.phase is Feed ==> self.line < self.feed_lines@.len() && strs_view(
            self.feed_lines@,
        ) == spec_lines(self.cases@[self.idx as int].input@))
        &&& (self.phase is Done ==> self.idx == self.cases@.len())
    }

    /// The action that belongs to the machine's current phase.
    pub open spec fn action_ok(self, a: RunnerAction) -> bool {
        match self.phase {
            RunnerPhase::StartCase => a is Start,
            RunnerPhase::Discard => a is DiscardOutput,
            RunnerPhase::Feed => a matches RunnerAction::WriteLine(l) && l@
                == self.feed_lines@[self.line as int]@,
            RunnerPhase::Wait => a is Poll,
            RunnerPhase::Killing => a is Kill,
            RunnerPhase::AwaitDeath => a is Poll,
            RunnerPhase::Collect => a is ReadOutput,
            _ => false,
        }
    }

    /// The event kind that the machine can accept in its current phase.
    pub open spec fn event_ok(self, ev: RunnerEvent) -> bool {
        match self.phase {
            RunnerPhase::StartCase => ev is Started || ev is StartFailed,
            RunnerPhase::Discard => ev is Discarded,
            RunnerPhase::Feed => ev is Wrote,
            RunnerPhase::Wait => ev is Polled,
            RunnerPhase::Killing => ev is KillSent,
            RunnerPhase::AwaitDeath => ev is Polled,
            RunnerPhase::Collect => ev matches RunnerEvent::Output(t) && t@.len() < 0x7fff_ffff,
            _ => false,
        }
    }

    pub open spec fn unchanged_base(pre: Self, post: Self) -> bool {
        &&& post.cases == pre.cases
        &&& post.timeout_ms == pre.timeout_ms
    }

    pub open spec fn same_progress(pre: Self, post: Self) -> bool {
        &&& post.idx == pre.idx
        &&& post.results@ == pre.results@
        &&& post.outputs@ == pre.outputs@
    }

    /// The full transition relation of the machine: what one event does to
    /// the state, phase by phase.
    pub open spec fn step_post(pre: Self, ev: RunnerEvent, post: Self) -> bool {
        &&& Self::unchanged_base(pre, post)
        &&& match pre.phase {
            RunnerPhase::StartCase => match ev {
                RunnerEvent::Started => Self::same_progress(pre, post) && post.phase
                    is Discard,
                RunnerEvent::StartFailed(m) => Self::same_progress(pre, post) && post.phase
                    is Failed && post.fail_msg@ == m@,
                _ => false,
            },
            RunnerPhase::Discard => match ev {
                RunnerEvent::Discarded => {
                    &&& Self::same_progress(pre, post)
                    &&& post.line == 0
                    &&& strs_view(post.feed_lines@) == spec_lines(
                        pre.cases@[pre.idx as int].input@,
                    )
                    &&& (if post.feed_lines@.len() == 0 {
                        post.phase is Wait
                    } else {
                        post.phase is Feed
                    })
                },
                _ => false,
            },
            RunnerPhase::Feed => match ev {
                RunnerEvent::Wrote(_) => {
                    &&& Self::same_progress(pre, post)
                    &&& post.feed_lines@ == pre.feed_lines@
                    &&& post.line == pre.line + 1
                    &&& (if pre.line + 1 == pre.feed_lines@.len() {
                        post.phase is Wait
                    } else {
                        post.phase is Feed
                    })
                },
                _ => false,
            },
            RunnerPhase::Wait => match ev {
                RunnerEvent::Polled { running, elapsed_ms } => {
                    &&& Self::same_progress(pre, post)
                    &&& (if !running {
                        post.phase is Collect
                    } else if elapsed_ms > pre.timeout_ms {
                        post.phase is Killing
                    } else {
                        post.phase is Wait
                    })
                },
                _ => false,
            },
            RunnerPhase::Killing => match ev {
                RunnerEvent::KillSent(_) => Self::same_progress(pre, post) && post.phase
                    is AwaitDeath,
                _ => false,
            },
            RunnerPhase::AwaitDeath => match ev {
                RunnerEvent::Polled { running, elapsed_ms: _ } => {
                    &&& Self::same_progress(pre, post)
                    &&& (if running {
                        post.phase is AwaitDeath
                    } else {
                        post.phase is TimedOut
                    })
                },
                _ => false,
            },
            RunnerPhase::Collect => match ev {
                RunnerEvent::Output(t) => {
                    &&& post.idx == pre.idx + 1
                    &&& post.results@.len() == pre.results@.len() + 1
                    &&& post.results@.take(pre.results@.len() as int) == pre.results@
                    &&& post.results@.last().wf()
                    &&& grade_post(
                        pre.cases@[pre.idx as int].expected@,
                        t@,
                        post.results@.last(),
                    )
                    &&& post.outputs@ == pre.outputs@.push(t@)
                    &&& (if post.idx == pre.cases@.len() {
                        post.phase is Done
                    } else {
                        post.phase is StartCase
                    })
                },
                _ => false,
            },
            _ => false,
        }
    }

    pub fn new(cases: Vec<TestCase>, timeout_ms: u64) -> (r: Self)
        requires
            forall|k: int|
                0 <= k < cases@.len() ==> (#[trigger] cases@[k]).expected@.len() < 0x7fff_ffff,
        ensures
            r.wf(),
            r.cases == cases,
            r.timeout_ms == timeout_ms,
            r.results@.len() == 0,
            cases@.len() == 0 ==> r.phase is Done,
            cases@.len() > 0 ==> r.phase is StartCase,
    {
        let phase = if cases.len() == 0 {
            RunnerPhase::Done
        } else {
            RunnerPhase::StartCase
        };
        PerSubmissionRunner {
            cases,
            timeout_ms,
            idx: 0,
            line: 0,
            feed_lines: Vec::new(),
            phase,
            fail_msg: String::new(),
            results: Vec::new(),
            outputs: Ghost(Seq::empty()),
        }
    }

    pub fn finished(&self) -> (b: bool)
        ensures
            b == self.spec_finished(),
    {
        match self.phase {
            RunnerPhase::Done => true,
            RunnerPhase::TimedOut => true,
            RunnerPhase::Failed => true,
            _ => false,
        }
    }

    /// What the caller must do next; the machine itself does not change.
    pub fn next_action(&self) -> (a: RunnerAction)
        requires
            self.wf(),
            !self.spec_finished(),
        ensures
            self.action_ok(a),
    {
        match self.phase {
            RunnerPhase::StartCase => RunnerAction::Start,
            RunnerPhase::Discard => RunnerAction::DiscardOutput,
            RunnerPhase::Feed => RunnerAction::WriteLine(self.feed_lines[self.line].clone()),
            RunnerPhase::Wait => RunnerAction::Poll,
            RunnerPhase::Killing => RunnerAction::Kill,
            RunnerPhase::AwaitDeath => RunnerAction::Poll,
            RunnerPhase::Collect => RunnerAction::ReadOutput,
            _ => unreached(),
        }
    }

    /// Feeds one observation back into the machine.
    pub fn on_event(&mut self, ev: RunnerEvent)
        requires
            old(self).wf(),
            !old(self).spec_finished(),
            old(self).event_ok(ev),
        ensures
            final(self).wf(),
            Self::step_post(*old(self), ev, *final(self)),
            // A timeout is concluded only when a poll, after the kill, has
            // confirmed that the process is no longer running.
            final(self).phase is TimedOut ==> (old(self).phase is AwaitDeath && ev matches (
            RunnerEvent::Polled { running: false, elapsed_ms: _ })),
            final(self).phase is AwaitDeath ==> (old(self).phase is Killing
                || old(self).phase is AwaitDeath),
            // A case whose output matches the expected lines is graded correct.
            match ev {
                RunnerEvent::Output(t) => (old(self).phase is Collect && spec_lines(t@)
                    == spec_lines(old(self).cases@[old(self).idx as int].expected@))
                    ==> final(self).results@.last().correct,
                _ => true,
            },
    {
        match (self.phase, ev) {
            (RunnerPhase::StartCase, RunnerEvent::Started) => {
                self.phase = RunnerPhase::Discard;
            },
            (RunnerPhase::StartCase, RunnerEvent::StartFailed(m)) => {
                self.fail_msg = m;
                self.phase = RunnerPhase::Failed;
            },
            (RunnerPhase::Discard, RunnerEvent::Discarded) => {
                self.feed_lines = split_lines(self.cases[self.idx].input.as_str());
                self.line = 0;
                self.phase = if self.feed_lines.len() == 0 {
                    RunnerPhase::Wait
                } else {
                    RunnerPhase::Feed
                };
            },
            (RunnerPhase::Feed, RunnerEvent::Wrote(_)) => {
                let n: usize = self.feed_lines.len();
                self.line = self.line + 1;
                if self.line == n {
                    self.phase = RunnerPhase::Wait;
                }
            },
            (RunnerPhase::Wait, RunnerEvent::Polled { running, elapsed_ms }) => {
                if !running {
                    self.phase = RunnerPhase::Collect;
                } else if elapsed_ms > self.timeout_ms {
                    self.phase = RunnerPhase::Killing;
                }
            },
            (RunnerPhase::Killing, RunnerEvent::KillSent(_)) => {
                self.phase = RunnerPhase::AwaitDeath;
            },
            (RunnerPhase::AwaitDeath, RunnerEvent::Polled { running, elapsed_ms: _ }) => {
                if !running {
                    self.phase = RunnerPhase::TimedOut;
                }
            },
            (RunnerPhase::Collect, RunnerEvent::Output(t)) => {
                let n: usize = self.cases.len();
                let res = grade(self.cases[self.idx].expected.as_str(), t.as_str());
                self.results.push(res);
                proof {
                    self.outputs@ = self.outputs@.push(t@);
                }
                self.idx = self.idx + 1;
                self.phase = if self.idx == n {
                    RunnerPhase::Done
                } else {
                    RunnerPhase::StartCase
                };
                proof {
                    assert(self.results@.take(self.results@.len() - 1) =~= old(self).results@);
                }
            },
            _ => {
                proof {
                    assert(false);
                }
            },
        }
    }

    /// The submission's outcome once the machine has finished: the graded
    /// results of every case, or the error that ended the run.
    pub fn into_outcome(self) -> (r: Result<Vec<TestResult>, String>)
        requires
            self.wf(),
            self.spec_finished(),
        ensures
            self.phase is Done ==> (r matches Ok(v) && v@ == self.results@ && v@.len()
                == self.cases@.len() && (forall|k: int|
                0 <= k < v@.len() ==> grade_post(
                    self.cases@[k].expected@,
                    self.outputs@[k],
                    #[trigger] v@[k],
                ) && v@[k].wf())),
            self.phase is TimedOut ==> (r matches Err(m) && m@ == "Timed out."@),
            self.phase is Failed ==> (r matches Err(m) && m@ == self.fail_msg@),
    {
        match self.phase {
            RunnerPhase::Done => Ok(self.results),
            RunnerPhase::TimedOut => Err("Timed out.".to_owned()),
            RunnerPhase::Failed => Err(self.fail_msg),
            _ => unreached(),
        }
    }
}

} // verus!
