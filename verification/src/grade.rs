//! The diff grader: compares expected against actual output line by line,
//! classifies every mismatched hunk, and builds a `TestResult`.

use vstd::prelude::*;
use crate::lines::{
    join_lines, lemma_lines_no_newline, lemma_lines_roundtrip, spec_lines, split_lines, strs_view,
};
use crate::test::{LineRange, TestResult, WrongLine};

verus! {

/// One changed region of the line diff: lines `before_start..before_end` of
/// the expected text were replaced by lines `after_start..after_end` of the
/// actual text.  Either side may be empty, not both.
#[derive(Debug, Clone, Copy, PartialEq, Eq, Structural)]
pub struct Hunk {
    pub before_start: usize,
    pub before_end: usize,
    pub after_start: usize,
    pub after_end: usize,
}

impl View for Hunk {
    type V = (int, int, int, int);

    open spec fn view(&self) -> (int, int, int, int) {
        (
            self.before_start as int,
            self.before_end as int,
            self.after_start as int,
            self.after_end as int,
        )
    }
}

pub open spec fn hunk_views(hs: Seq<Hunk>) -> Seq<(int, int, int, int)> {
    hs.map_values(|h: Hunk| h@)
}

/// The hunk list that the line diff reports for a pair of line sequences.
/// The diff backend computes it from the two sequences alone, so the list is
/// the same on every run and every machine.
pub uninterp spec fn hunks_of(before: Seq<Seq<char>>, after: Seq<Seq<char>>) -> Seq<
    (int, int, int, int),
>;

/// The hunks explain the whole difference between `b` and `a` starting at
/// positions `bpos` and `apos`: they come in increasing order, each changes at
/// least one side, and between them the two sequences carry equal lines.
pub open spec fn aligned(
    b: Seq<Seq<char>>,
    a: Seq<Seq<char>>,
    hs: Seq<(int, int, int, int)>,
    bpos: int,
    apos: int,
) -> bool
    decreases hs.len(),
{
    if hs.len() == 0 {
        &&& 0 <= bpos <= b.len()
        &&& 0 <= apos <= a.len()
        &&& b.skip(bpos) == a.skip(apos)
    } else {
        let h = hs[0];
        &&& 0 <= bpos <= h.0 <= h.1 <= b.len()
        &&& 0 <= apos <= h.2 <= h.3 <= a.len()
        &&& b.subrange(bpos, h.0) == a.subrange(apos, h.2)
        &&& (h.0 < h.1 || h.2 < h.3)
        &&& aligned(b, a, hs.drop_first(), h.1, h.3)
    }
}

/// A well-formed hunk list for the full pair of line sequences.
pub open spec fn hunks_wf(b: Seq<Seq<char>>, a: Seq<Seq<char>>, hs: Seq<(int, int, int, int)>) -> bool {
    aligned(b, a, hs, 0, 0)
}

/// A well-formed empty hunk list means the line sequences are equal.
pub proof fn lemma_no_hunks_equal(b: Seq<Seq<char>>, a: Seq<Seq<char>>, hs: Seq<(int, int, int, int)>)
    requires
        hunks_wf(b, a, hs),
        hs.len() == 0,
    ensures
        b == a,
{
    assert(b.skip(0) =~= b);
    assert(a.skip(0) =~= a);
}

/// Every hunk of a well-formed list lies within the two sequences and changes
/// at least one side.
pub proof fn lemma_aligned_bounds(
    b: Seq<Seq<char>>,
    a: Seq<Seq<char>>,
    hs: Seq<(int, int, int, int)>,
    bpos: int,
    apos: int,
)
    requires
        aligned(b, a, hs, bpos, apos),
    ensures
        forall|k: int|
            0 <= k < hs.len() ==> {
                &&& bpos <= #[trigger] hs[k].0 <= hs[k].1 <= b.len()
                &&& apos <= hs[k].2 <= hs[k].3 <= a.len()
                &&& (hs[k].0 < hs[k].1 || hs[k].2 < hs[k].3)
            },
    decreases hs.len(),
{
    if hs.len() > 0 {
        let h = hs[0];
        lemma_aligned_bounds(b, a, hs.drop_first(), h.1, h.3);
        assert forall|k: int|
            0 <= k < hs.len() implies {
            &&& bpos <= #[trigger] hs[k].0 <= hs[k].1 <= b.len()
            &&& apos <= hs[k].2 <= hs[k].3 <= a.len()
            &&& (hs[k].0 < hs[k].1 || hs[k].2 < hs[k].3)
        } by {
            if k > 0 {
                assert(hs.drop_first()[k - 1] == hs[k]);
            }
        }
    }
}

/// Relies on imara_diff: `Diff::compute` with `Algorithm::Histogram` computes
/// an edit script between the interned line sequences, and `Diff::hunks`
/// yields its changed regions in monotonically increasing order.  Lines
/// outside the hunks are matched, equal on both sides; each hunk changes at
/// least one side; identical inputs leave nothing to report.  The result is a
/// function of the two line sequences alone.  `Diff::compute` refuses
/// `i32::MAX` or more lines on a side, which the precondition rules out.
#[verifier::external_body]
fn diff_hunks(before: &Vec<String>, after: &Vec<String>) -> (r: Vec<Hunk>)
    requires
        before@.len() < 0x7fff_ffff,
        after@.len() < 0x7fff_ffff,
    ensures
        hunk_views(r@) == hunks_of(strs_view(before@), strs_view(after@)),
        hunks_wf(strs_view(before@), strs_view(after@), hunk_views(r@)),
        strs_view(before@) == strs_view(after@) ==> r@.len() == 0,
{
    let mut input = imara_diff::InternedInput::default();
    input.update_before(before.iter().map(|s| s.as_str()));
    input.update_after(after.iter().map(|s| s.as_str()));
    let diff = imara_diff::Diff::compute(imara_diff::Algorithm::Histogram, &input);
    let mut out: Vec<Hunk> = Vec::new();
    for h in diff.hunks() {
        out.push(Hunk {
            before_start: h.before.start as usize,
            before_end: h.before.end as usize,
            after_start: h.after.start as usize,
            after_end: h.after.end as usize,
        });
    }
    out
}

/// How one hunk appears as a `WrongLine`: the expected-side range is absent
/// exactly for a pure insertion.
pub open spec fn classify_spec(h: (int, int, int, int)) -> (Option<(int, int)>, (int, int)) {
    if h.2 == h.3 {
        (Some((h.0, h.1)), (h.2, h.3))
    } else if h.0 == h.1 {
        (None, (h.2, h.3))
    } else {
        (Some((h.0, h.1)), (h.2, h.3))
    }
}

pub open spec fn wl_view(w: WrongLine) -> (Option<(int, int)>, (int, int)) {
    (
        match w.before {
            Some(r) => Some((r.start as int, r.end as int)),
            None => None,
        },
        (w.after.start as int, w.after.end as int),
    )
}

pub open spec fn wl_views(ws: Seq<WrongLine>) -> Seq<(Option<(int, int)>, (int, int))> {
    ws.map_values(|w: WrongLine| wl_view(w))
}

/// Everything `grade` promises about its result: correctness holds exactly
/// when the line sequences are equal, which is exactly when the diff reports
/// no hunks; otherwise every hunk, in order, becomes one classified
/// `WrongLine` whose ranges lie within the two line sequences.
pub open spec fn grade_post(e: Seq<char>, a: Seq<char>, r: TestResult) -> bool {
    let hs = hunks_of(spec_lines(e), spec_lines(a));
    &&& (r.correct <==> hs.len() == 0)
    &&& (r.correct <==> spec_lines(e) == spec_lines(a))
    &&& (r.correct ==> r.loc is None)
    &&& (!r.correct ==> (r.loc matches Some(v) && wl_views(v@) == hs.map_values(
        |h: (int, int, int, int)| classify_spec(h),
    )))
    &&& (r.loc matches Some(v) ==> forall|i: int|
        0 <= i < v@.len() ==> (#[trigger] v@[i]).after.end <= spec_lines(a).len() && (v@[i].before
            matches Some(br) ==> br.end <= spec_lines(e).len()))
}

/// Compares expected against actual output and classifies every mismatch.
pub fn grade(expected: &str, actual: &str) -> (r: TestResult)
    requires
        expected@.len() < 0x7fff_ffff,
        actual@.len() < 0x7fff_ffff,
    ensures
        r.wf(),
        grade_post(expected@, actual@, r),
        expected@ == actual@ ==> r.correct && r.loc is None,
{
    let e_lines = split_lines(expected);
    let a_lines = split_lines(actual);
    let hunks = diff_hunks(&e_lines, &a_lines);
    let ghost le = spec_lines(expected@);
    let ghost la = spec_lines(actual@);
    let ghost hv = hunk_views(hunks@);
    proof {
        lemma_aligned_bounds(le, la, hv, 0, 0);
    }
    if hunks.len() == 0 {
        proof {
            lemma_no_hunks_equal(le, la, hv);
        }
        TestResult::correct()
    } else {
        let ghost cls = hv.map_values(|h: (int, int, int, int)| classify_spec(h));
        let mut ws: Vec<WrongLine> = Vec::new();
        let mut i: usize = 0;
        while i < hunks.len()
            invariant
                i <= hunks.len(),
                hv == hunk_views(hunks@),
                cls == hv.map_values(|h: (int, int, int, int)| classify_spec(h)),
                aligned(le, la, hv, 0, 0),
                ws@.len() == i,
                forall|k: int| 0 <= k < i ==> (#[trigger] ws@[k]).wf(),
                forall|k: int| 0 <= k < i ==> #[trigger] wl_view(ws@[k]) == cls[k],
                forall|k: int|
                    0 <= k < i ==> (#[trigger] ws@[k]).after.end <= la.len() && (ws@[k].before
                        matches Some(br) ==> br.end <= le.len()),
            decreases hunks.len() - i,
        {
            let h = hunks[i];
            proof {
                assert(hv[i as int] == h@);
                lemma_aligned_bounds(le, la, hv, 0, 0);
                assert(0 <= hv[i as int].0 <= hv[i as int].1 <= le.len());
                assert(hv[i as int].0 < hv[i as int].1 || hv[i as int].2 < hv[i as int].3);
            }
            let before = LineRange { start: h.before_start, end: h.before_end };
            let after = LineRange { start: h.after_start, end: h.after_end };
            let wl = if h.after_start == h.after_end {
                WrongLine { before: Some(before), after }
            } else if h.before_start == h.before_end {
                WrongLine { before: None, after }
            } else {
                WrongLine { before: Some(before), after }
            };
            proof {
                assert(wl.wf());
                assert(wl.after.end <= la.len());
            }
            ws.push(wl);
            i += 1;
        }
        proof {
            assert(wl_views(ws@) =~= cls);
            assert(spec_lines(expected@) != spec_lines(actual@)) by {
                if le == la {
                    assert(strs_view(e_lines@) == strs_view(a_lines@));
                }
            }
        }
        TestResult::wrong(ws)
    }
}

/// A submission that echoes every fed input line back, newline-terminated,
/// is graded correct on each test case whose expected output equals its
/// input: the echoed output splits into exactly the input's lines.
pub proof fn lemma_echo_graded_correct(text: Seq<char>, r: TestResult)
    requires
        grade_post(text, join_lines(spec_lines(text)), r),
    ensures
        r.correct,
{
    lemma_lines_no_newline(text);
    lemma_lines_roundtrip(spec_lines(text));
}

/// Grading is deterministic: two results graded from identical expected and
/// actual texts agree on correctness and carry the same classified locations.
pub proof fn lemma_grade_deterministic(e: Seq<char>, a: Seq<char>, r1: TestResult, r2: TestResult)
    requires
        grade_post(e, a, r1),
        grade_post(e, a, r2),
    ensures
        r1.correct == r2.correct,
        r1.loc is Some <==> r2.loc is Some,
        r1.loc matches Some(v1) ==> (r2.loc matches Some(v2) && wl_views(v1@) == wl_views(v2@)),
{
}

} // verus!
