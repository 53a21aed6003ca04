//! Tokenizing text into lines.
//!
//! A text is split at `'\n'`, which acts as a terminator: the final line needs
//! no terminator, and a text ending in `'\n'` has no empty final line.

use vstd::prelude::*;
use vstd::string::*;

verus! {

/// Index of the first `'\n'` in `s`, or `s.len()` if there is none.
pub open spec fn first_nl(s: Seq<char>) -> nat
    decreases s.len(),
{
    if s.len() == 0 {
        0
    } else if s[0] == '\n' {
        0
    } else {
        1 + first_nl(s.drop_first())
    }
}

/// The line sequence of a text.
pub open spec fn spec_lines(s: Seq<char>) -> Seq<Seq<char>>
    decreases s.len(),
{
    if s.len() == 0 {
        Seq::empty()
    } else {
        let i = first_nl(s) as int;
        if i >= s.len() {
            seq![s]
        } else {
            seq![s.take(i)] + spec_lines(s.skip(i + 1))
        }
    }
}

/// The views of a vector of owned strings.
pub open spec fn strs_view(v: Seq<String>) -> Seq<Seq<char>> {
    v.map_values(|l: String| l@)
}

/// Joins lines back into a text, terminating every line with `'\n'`.
pub open spec fn join_lines(ls: Seq<Seq<char>>) -> Seq<char>
    decreases ls.len(),
{
    if ls.len() == 0 {
        Seq::empty()
    } else {
        ls[0] + seq!['\n'] + join_lines(ls.drop_first())
    }
}

pub proof fn lemma_first_nl(s: Seq<char>)
    ensures
        first_nl(s) <= s.len(),
        forall|j: int| 0 <= j < first_nl(s) ==> s[j] != '\n',
        first_nl(s) < s.len() ==> s[first_nl(s) as int] == '\n',
    decreases s.len(),
{
    if s.len() == 0 {
    } else if s[0] == '\n' {
    } else {
        lemma_first_nl(s.drop_first());
        assert forall|j: int| 0 <= j < first_nl(s) implies s[j] != '\n' by {
            if j > 0 {
                assert(s.drop_first()[j - 1] == s[j]);
            }
        }
    }
}

/// If the first `k` characters are not newlines and the character at `k` is a
/// newline (or `k` is the length), then `k` is the first newline position.
pub proof fn lemma_first_nl_is(s: Seq<char>, k: int)
    requires
        0 <= k <= s.len(),
        forall|j: int| 0 <= j < k ==> s[j] != '\n',
        k < s.len() ==> s[k] == '\n',
    ensures
        first_nl(s) == k,
    decreases s.len(),
{
    if s.len() == 0 {
    } else if s[0] == '\n' {
        assert(k == 0);
    } else {
        assert(s[0] != '\n');
        assert(k >= 1);
        let t = s.drop_first();
        assert forall|j: int| 0 <= j < k - 1 implies t[j] != '\n' by {
            assert(t[j] == s[j + 1]);
        }
        if k - 1 < t.len() {
            assert(t[k - 1] == s[k]);
        }
        lemma_first_nl_is(t, k - 1);
    }
}

/// A text never has more lines than characters.
pub proof fn lemma_lines_len(s: Seq<char>)
    ensures
        spec_lines(s).len() <= s.len(),
    decreases s.len(),
{
    if s.len() == 0 {
    } else {
        let i = first_nl(s) as int;
        if i < s.len() {
            lemma_lines_len(s.skip(i + 1));
        }
    }
}

/// No line of a text contains a newline.
pub proof fn lemma_lines_no_newline(s: Seq<char>)
    ensures
        forall|i: int, j: int|
            0 <= i < spec_lines(s).len() && 0 <= j < spec_lines(s)[i].len() ==> spec_lines(
                s,
            )[i][j] != '\n',
    decreases s.len(),
{
    if s.len() == 0 {
    } else {
        let k = first_nl(s) as int;
        lemma_first_nl(s);
        if k >= s.len() {
        } else {
            lemma_lines_no_newline(s.skip(k + 1));
            assert forall|i: int, j: int|
                0 <= i < spec_lines(s).len() && 0 <= j < spec_lines(s)[i].len() implies spec_lines(
                s,
            )[i][j] != '\n' by {
                if i == 0 {
                    assert(spec_lines(s)[0] == s.take(k));
                    assert(s.take(k)[j] == s[j]);
                } else {
                    assert(spec_lines(s)[i] == spec_lines(s.skip(k + 1))[i - 1]);
                }
            }
        }
    }
}

/// Splitting undoes joining: a sequence of newline-free lines, joined with
/// terminators, splits back into exactly that sequence.
pub proof fn lemma_lines_roundtrip(ls: Seq<Seq<char>>)
    requires
        forall|i: int, j: int| 0 <= i < ls.len() && 0 <= j < ls[i].len() ==> ls[i][j] != '\n',
    ensures
        spec_lines(join_lines(ls)) == ls,
    decreases ls.len(),
{
    if ls.len() == 0 {
    } else {
        let s = join_lines(ls);
        let head = ls[0];
        let rest = ls.drop_first();
        assert(s == head + seq!['\n'] + join_lines(rest));
        assert forall|j: int| 0 <= j < head.len() implies s[j] != '\n' by {
            assert(s[j] == head[j]);
        }
        assert(s[head.len() as int] == '\n');
        lemma_first_nl_is(s, head.len() as int);
        assert(s.take(head.len() as int) =~= head);
        assert(s.skip(head.len() as int + 1) =~= join_lines(rest));
        lemma_lines_roundtrip(rest);
        assert(spec_lines(s) == seq![head] + ls.drop_first());
        assert(seq![head] + ls.drop_first() =~= ls);
    }
}

/// Splits a text into its lines.
pub fn split_lines(s: &str) -> (r: Vec<String>)
    ensures
        strs_view(r@) == spec_lines(s@),
        r@.len() <= s@.len(),
{
    let n: usize = s.unicode_len();
    let mut r: Vec<String> = Vec::new();
    let mut start: usize = 0;
    let mut i: usize = 0;
    proof {
        assert(s@.skip(0) =~= s@);
        assert(strs_view(r@) + spec_lines(s@) =~= spec_lines(s@));
    }
    while i < n
        invariant
            n == s@.len(),
            start <= i <= n,
            forall|j: int| start <= j < i ==> s@[j] != '\n',
            spec_lines(s@) == strs_view(r@) + spec_lines(s@.skip(start as int)),
        decreases n - i,
    {
        let c = s.get_char(i);
        if c == '\n' {
            let piece = s.substring_char(start, i).to_owned();
            proof {
                let tail = s@.skip(start as int);
                assert forall|j: int| 0 <= j < i - start implies tail[j] != '\n' by {
                    assert(tail[j] == s@[start + j]);
                }
                assert(tail[i - start] == s@[i as int]);
                lemma_first_nl_is(tail, i - start);
                assert(tail.take(i - start) =~= piece@);
                assert(tail.skip(i - start + 1) =~= s@.skip(i + 1));
                assert(spec_lines(tail) == seq![piece@] + spec_lines(s@.skip(i + 1)));
                assert(strs_view(r@.push(piece)) =~= strs_view(r@) + seq![piece@]);
                assert(strs_view(r@) + (seq![piece@] + spec_lines(s@.skip(i + 1))) =~= (
                strs_view(r@) + seq![piece@]) + spec_lines(s@.skip(i + 1)));
            }
            r.push(piece);
            start = i + 1;
        }
        i += 1;
    }
    let ghost tail = s@.skip(start as int);
    proof {
        assert forall|j: int| 0 <= j < tail.len() implies tail[j] != '\n' by {
            assert(tail[j] == s@[start + j]);
        }
    }
    if start < n {
        let piece = s.substring_char(start, n).to_owned();
        proof {
            lemma_first_nl_is(tail, tail.len() as int);
            assert(tail.take(tail.len() as int) =~= tail);
            assert(piece@ =~= tail);
            assert(spec_lines(tail) == seq![tail]);
            assert(strs_view(r@.push(piece)) =~= strs_view(r@) + seq![tail]);
        }
        r.push(piece);
    } else {
        proof {
            assert(tail.len() == 0);
            assert(spec_lines(tail) == Seq::<Seq<char>>::empty());
            assert(strs_view(r@) + spec_lines(tail) =~= strs_view(r@));
        }
    }
    proof {
        lemma_lines_len(s@);
        assert(r@.len() == strs_view(r@).len());
    }
    r
}

} // verus!
