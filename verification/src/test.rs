//! Data model for one grading unit: the test case fed to a submission, the
//! result of grading it, and the location of each mismatch.

use vstd::prelude::*;

verus! {

/// A half-open range of line indices, `start <= i < end`.
#[derive(Debug, Clone, Copy, PartialEq, Eq, Structural)]
pub struct LineRange {
    pub start: usize,
    pub end: usize,
}

impl LineRange {
    pub open spec fn wf(self) -> bool {
        self.start <= self.end
    }

    pub open spec fn spec_is_empty(self) -> bool {
        self.start == self.end
    }

    pub fn is_empty(&self) -> (b: bool)
        ensures
            b == self.spec_is_empty(),
    {
        self.start == self.end
    }
}

/// How one hunk of the diff is classified.
#[derive(Debug, Clone, Copy, PartialEq, Eq, Structural)]
pub enum HunkKind {
    /// Lines present only in the expected output.
    Removal,
    /// Lines present only in the actual output.
    Insertion,
    /// A group of expected lines replaced by a different group of actual lines.
    Replacement,
}

/// One contiguous mismatch between expected and actual output.
///
/// `before` is the line range into the expected text; it is absent for a pure
/// insertion (extra lines in the actual output with no counterpart in the
/// expected output).  `after` is the line range into the actual output; it is
/// empty for a pure removal.
#[derive(Debug, Clone, PartialEq)]
pub struct WrongLine {
    pub before: Option<LineRange>,
    pub after: LineRange,
}

impl WrongLine {
    pub open spec fn spec_kind(self) -> HunkKind {
        if self.after.spec_is_empty() {
            HunkKind::Removal
        } else if self.before is None {
            HunkKind::Insertion
        } else {
            HunkKind::Replacement
        }
    }

    pub open spec fn wf(self) -> bool {
        &&& self.after.wf()
        &&& (self.before matches Some(b) ==> b.wf())
        &&& (self.before is None ==> self.after.start < self.after.end)
        &&& (self.after.spec_is_empty() ==> (self.before matches Some(b) && b.start < b.end))
    }

    pub fn kind(&self) -> (k: HunkKind)
        ensures
            k == self.spec_kind(),
    {
        if self.after.is_empty() {
            HunkKind::Removal
        } else if self.before.is_none() {
            HunkKind::Insertion
        } else {
            HunkKind::Replacement
        }
    }
}

/// The outcome of grading one (submission, test case) pair.
///
/// Invariant: `correct` holds exactly when no wrong lines were recorded.
#[derive(Debug, PartialEq)]
pub struct TestResult {
    pub correct: bool,
    pub loc: Option<Vec<WrongLine>>,
}

impl TestResult {
    pub open spec fn wf(self) -> bool {
        &&& (self.correct <==> self.loc is None)
        &&& (self.loc matches Some(v) ==> v@.len() > 0 && (forall|i: int|
            0 <= i < v@.len() ==> #[trigger] v@[i].wf()))
    }

    pub fn is_correct(&self) -> (b: bool)
        ensures
            b == self.correct,
    {
        self.correct
    }

    pub fn get_loc(&self) -> (r: Option<&Vec<WrongLine>>)
        ensures
            r is Some <==> self.loc is Some,
            (r matches Some(v) ==> (self.loc matches Some(l) && v@ == l@)),
    {
        match &self.loc {
            Some(s) => Some(s),
            None => None,
        }
    }

    pub fn correct() -> (r: Self)
        ensures
            r.correct,
            r.loc is None,
            r.wf(),
    {
        TestResult { correct: true, loc: None }
    }

    pub fn wrong(s: Vec<WrongLine>) -> (r: Self)
        requires
            s@.len() > 0,
            forall|i: int| 0 <= i < s@.len() ==> #[trigger] s@[i].wf(),
        ensures
            !r.correct,
            (r.loc matches Some(v) && v == s),
            r.wf(),
    {
        TestResult { correct: false, loc: Some(s) }
    }
}

/// One grading unit: the text fed to the submission's standard input, the
/// output it is expected to produce, and the points awarded when it does.
#[derive(Debug, Clone)]
pub struct TestCase {
    pub input: String,
    pub expected: String,
    pub points: u64,
}

impl TestCase {
    pub fn new(input: String, expected: String, points: u64) -> (r: Self)
        ensures
            r.input@ == input@,
            r.expected@ == expected@,
            r.points == points,
    {
        TestCase { input, expected, points }
    }
}

} // verus!
