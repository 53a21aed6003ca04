//! Verified core of an automated grading engine.
//!
//! Submissions (candidate programs) are run against a battery of test cases;
//! their output is captured under a wall-clock deadline and compared against
//! the expected output with a line-based diff.  The crate holds the verified
//! logic: the data model, the diff grader, the per-submission runner expressed
//! as a state machine, and the bounded-concurrency orchestrator.  Process
//! spawning, file I/O and the async executor live outside this crate and
//! drive the state machines through plain events.

pub mod config;
pub mod grade;
pub mod language;
pub mod lines;
pub mod orchestrator;
pub mod runner;
pub mod test;
