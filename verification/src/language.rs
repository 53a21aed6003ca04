//! Classifying a submission by language.
//!
//! The caller extracts a file extension, or lists the entries of an archive;
//! the decisions over those plain strings stand here.

use vstd::prelude::*;
use vstd::string::*;
use crate::lines::strs_view;

verus! {

/// The language a submission is written in.
#[derive(Debug, Clone, PartialEq, Eq, Hash)]
pub enum Language {
    Java,
    Cpp,
    C,
    Rust,
    Python,
    /// Not recognized; carries the path it was guessed from.
    Unknown(String),
    /// To be guessed from the submission itself.
    Guess,
}

/// Character-for-character string equality.
pub fn str_eq(a: &str, b: &str) -> (r: bool)
    ensures
        r == (a@ == b@),
{
    let na: usize = a.unicode_len();
    let nb: usize = b.unicode_len();
    if na != nb {
        return false;
    }
    let mut i: usize = 0;
    while i < na
        invariant
            na == a@.len(),
            na == b@.len(),
            i <= na,
            forall|j: int| 0 <= j < i ==> a@[j] == b@[j],
        decreases na - i,
    {
        if a.get_char(i) != b.get_char(i) {
            return false;
        }
        i = i + 1;
    }
    proof {
        assert(a@ =~= b@);
    }
    true
}

/// `s` ends with `suffix`.
pub open spec fn spec_ends_with(s: Seq<char>, suffix: Seq<char>) -> bool {
    suffix.len() <= s.len() && s.skip(s.len() - suffix.len()) == suffix
}

pub fn str_ends_with(s: &str, suffix: &str) -> (r: bool)
    ensures
        r == spec_ends_with(s@, suffix@),
{
    let n: usize = s.unicode_len();
    let m: usize = suffix.unicode_len();
    if m > n {
        return false;
    }
    let mut i: usize = 0;
    while i < m
        invariant
            n == s@.len(),
            m == suffix@.len(),
            m <= n,
            i <= m,
            forall|j: int| 0 <= j < i ==> s@[n - m + j] == suffix@[j],
        decreases m - i,
    {
        if s.get_char(n - m + i) != suffix.get_char(i) {
            proof {
                assert(s@.skip(n as int - m as int)[i as int] == s@[n - m + i]);
            }
            return false;
        }
        i = i + 1;
    }
    proof {
        assert(s@.skip(n as int - m as int) =~= suffix@);
    }
    true
}

/// Some entry of the list ends with the suffix.
pub open spec fn any_ends_with(entries: Seq<Seq<char>>, suffix: Seq<char>) -> bool {
    exists|i: int| 0 <= i < entries.len() && spec_ends_with(#[trigger] entries[i], suffix)
}

pub fn any_entry_ends_with(entries: &Vec<String>, suffix: &str) -> (r: bool)
    ensures
        r == any_ends_with(strs_view(entries@), suffix@),
{
    let n: usize = entries.len();
    let mut i: usize = 0;
    while i < n
        invariant
            n == entries@.len(),
            i <= n,
            forall|j: int|
                0 <= j < i ==> !spec_ends_with(#[trigger] strs_view(entries@)[j], suffix@),
        decreases n - i,
    {
        if str_ends_with(entries[i].as_str(), suffix) {
            proof {
                assert(strs_view(entries@)[i as int] == entries@[i as int]@);
            }
            return true;
        }
        proof {
            assert(strs_view(entries@)[i as int] == entries@[i as int]@);
        }
        i = i + 1;
    }
    false
}

/// The language a file extension stands for.
pub fn match_ext(s: &str) -> (r: Language)
    ensures
        (s@ == "java"@ || s@ == "jar"@) ==> r is Java,
        s@ == "cpp"@ ==> r is Cpp,
        s@ == "c"@ ==> r is C,
        s@ == "rs"@ ==> r is Rust,
        s@ == "py"@ ==> r is Python,
        !(s@ == "java"@ || s@ == "jar"@ || s@ == "cpp"@ || s@ == "c"@ || s@ == "rs"@ || s@
            == "py"@) ==> (r matches Language::Unknown(u) && u@ == Seq::<char>::empty()),
{
    proof {
        reveal_strlit("java");
        reveal_strlit("jar");
        reveal_strlit("cpp");
        reveal_strlit("c");
        reveal_strlit("rs");
        reveal_strlit("py");
        assert("java"@.len() == 4);
        assert("jar"@.len() == 3);
        assert("cpp"@.len() == 3);
        assert("c"@.len() == 1);
        assert("rs"@.len() == 2);
        assert("py"@.len() == 2);
        assert("jar"@[0] == 'j' && "cpp"@[0] == 'c');
        assert("rs"@[0] == 'r' && "py"@[0] == 'p');
    }
    if str_eq(s, "java") || str_eq(s, "jar") {
        Language::Java
    } else if str_eq(s, "cpp") {
        Language::Cpp
    } else if str_eq(s, "c") {
        Language::C
    } else if str_eq(s, "rs") {
        Language::Rust
    } else if str_eq(s, "py") {
        Language::Python
    } else {
        Language::Unknown(String::new())
    }
}

/// What `classify_archive` promises: the first recognized entry point, in
/// this fixed probe order, decides the language.
pub open spec fn classify_ok(es: Seq<Seq<char>>, path: Seq<char>, r: Language) -> bool {
    if any_ends_with(es, "Cargo.toml"@) {
        r is Rust
    } else if any_ends_with(es, "main.cpp"@) {
        r is Cpp
    } else if any_ends_with(es, "main.c"@) {
        r is C
    } else if any_ends_with(es, "main.py"@) {
        r is Python
    } else if any_ends_with(es, "Main.java"@) {
        r is Java
    } else {
        r matches Language::Unknown(u) && u@ == path
    }
}

/// The language of an archived submission, decided from its entry names.
pub fn classify_archive(path: &str, entries: &Vec<String>) -> (r: Language)
    ensures
        classify_ok(strs_view(entries@), path@, r),
{
    if any_entry_ends_with(entries, "Cargo.toml") {
        Language::Rust
    } else if any_entry_ends_with(entries, "main.cpp") {
        Language::Cpp
    } else if any_entry_ends_with(entries, "main.c") {
        Language::C
    } else if any_entry_ends_with(entries, "main.py") {
        Language::Python
    } else if any_entry_ends_with(entries, "Main.java") {
        Language::Java
    } else {
        Language::Unknown(path.to_owned())
    }
}

} // verus!
