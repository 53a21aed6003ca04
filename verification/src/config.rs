//! The configuration the grading core consumes: the test cases, the per-case
//! timeout, the concurrency cap, and the checker-kind selector.
//!
//! Reading and parsing a configuration file is the caller's business; the
//! merging of raw optional parameters into a complete configuration, with its
//! defaults and the pairing of inputs, outputs and points into test cases,
//! stands here.

use vstd::prelude::*;
use vstd::string::*;
use crate::language::Language;
use crate::lines::strs_view;
use crate::test::TestCase;

verus! {

/// Which correctness checker grades the output.
#[derive(Debug, Clone, Copy, PartialEq, Eq, Structural)]
pub enum CheckerKind {
    /// The text-diff checker implemented by this crate.
    Static,
    /// A sibling semantic checker, selected by configuration only.
    Ast,
}

/// How submissions are ordered for presentation.
#[derive(Debug, Clone, Copy, PartialEq, Eq, Structural)]
pub enum Orderby {
    Name,
    Id,
}

/// The raw, all-optional parameters as a configuration file provides them.
#[derive(Debug, Clone)]
pub struct ConfigParams {
    pub entry: Option<String>,
    pub lang: Option<String>,
    pub args: Option<Vec<String>>,
    pub target: Option<String>,
    pub input: Option<Vec<String>>,
    pub output: Option<Vec<String>>,
    pub points: Option<Vec<u64>>,
    pub timeout: Option<u64>,
    pub memory: Option<u64>,
    pub threads: Option<u64>,
    pub checker: Option<CheckerKind>,
    pub allow: Option<Vec<String>>,
    pub format: Option<String>,
    pub orderby: Option<Orderby>,
    pub dependencies: Option<Vec<String>>,
}

/// The complete, read-only configuration.
#[derive(Debug, Clone)]
pub struct Config {
    pub entry: String,
    pub lang: Language,
    pub args: Vec<String>,
    pub target: String,
    pub testcases: Vec<TestCase>,
    pub timeout: u64,
    pub memory: u64,
    pub threads: u64,
    pub checker: CheckerKind,
    pub allow: Vec<String>,
    pub format: String,
    pub orderby: Orderby,
    pub dependencies: Vec<String>,
}

/// How inputs, outputs and points merge into test cases: inputs and outputs
/// pair up as far as both reach; a pair beyond the points list gets zero
/// points; points beyond the pairs get empty texts.
pub open spec fn merged_cases(
    ins: Seq<Seq<char>>,
    outs: Seq<Seq<char>>,
    pts: Seq<u64>,
    r: Seq<TestCase>,
) -> bool {
    let p: int = if ins.len() <= outs.len() {
        ins.len() as int
    } else {
        outs.len() as int
    };
    &&& r.len() == (if p >= pts.len() {
        p
    } else {
        pts.len() as int
    })
    &&& (forall|i: int|
        0 <= i < p ==> (#[trigger] r[i]).input@ == ins[i] && r[i].expected@ == outs[i]
            && r[i].points == (if i < pts.len() {
            pts[i]
        } else {
            0u64
        }))
    &&& (forall|i: int|
        p <= i < r.len() ==> (#[trigger] r[i]).input@ == Seq::<char>::empty() && r[i].expected@
            == Seq::<char>::empty() && r[i].points == pts[i])
}

/// Pairs configured inputs, outputs and points into test cases.
pub fn build_testcases(inputs: &Vec<String>, outputs: &Vec<String>, points: &Vec<u64>) -> (r: Vec<
    TestCase,
>)
    ensures
        merged_cases(strs_view(inputs@), strs_view(outputs@), points@, r@),
{
    let p: usize = if inputs.len() <= outputs.len() {
        inputs.len()
    } else {
        outputs.len()
    };
    let m: usize = if p >= points.len() {
        p
    } else {
        points.len()
    };
    let mut r: Vec<TestCase> = Vec::new();
    let mut i: usize = 0;
    while i < m
        invariant
            i <= m,
            p == (if inputs@.len() <= outputs@.len() {
                inputs@.len() as int
            } else {
                outputs@.len() as int
            }),
            m == (if p >= points@.len() {
                p as int
            } else {
                points@.len() as int
            }),
            r@.len() == i,
            forall|k: int|
                0 <= k < i && k < p ==> (#[trigger] r@[k]).input@ == strs_view(inputs@)[k]
                    && r@[k].expected@ == strs_view(outputs@)[k] && r@[k].points == (if k
                    < points@.len() {
                    points@[k]
                } else {
                    0u64
                }),
            forall|k: int|
                p <= k < i ==> (#[trigger] r@[k]).input@ == Seq::<char>::empty()
                    && r@[k].expected@ == Seq::<char>::empty() && r@[k].points == points@[k],
        decreases m - i,
    {
        if i < p {
            let pts: u64 = if i < points.len() {
                points[i]
            } else {
                0
            };
            proof {
                assert(strs_view(inputs@)[i as int] == inputs@[i as int]@);
                assert(strs_view(outputs@)[i as int] == outputs@[i as int]@);
            }
            r.push(TestCase::new(inputs[i].clone(), outputs[i].clone(), pts));
        } else {
            r.push(TestCase::new(String::new(), String::new(), points[i]));
        }
        i = i + 1;
    }
    r
}

impl Config {
    /// Completes raw parameters into a configuration.  A missing target is
    /// the one rejected input; everything else falls back to its default.
    pub fn from_params(cp: ConfigParams) -> (r: Result<Config, String>)
        ensures
            r is Ok <==> cp.target is Some,
            r matches Ok(c) ==> {
                &&& c.entry@ == (match cp.entry {
                    Some(e) => e@,
                    None => "Main"@,
                })
                &&& c.lang is Guess
                &&& c.args@ == (match cp.args {
                    Some(a) => a@,
                    None => Seq::<String>::empty(),
                })
                &&& (cp.target matches Some(t) && c.target@ == t@)
                &&& merged_cases(
                    (match cp.input {
                        Some(v) => strs_view(v@),
                        None => Seq::<Seq<char>>::empty(),
                    }),
                    (match cp.output {
                        Some(v) => strs_view(v@),
                        None => Seq::<Seq<char>>::empty(),
                    }),
                    (match cp.points {
                        Some(v) => v@,
                        None => Seq::<u64>::empty(),
                    }),
                    c.testcases@,
                )
                &&& c.timeout == (match cp.timeout {
                    Some(t) => t,
                    None => 5u64,
                })
                &&& c.memory == (match cp.memory {
                    Some(v) => v,
                    None => 1024u64,
                })
                &&& c.threads == (match cp.threads {
                    Some(v) => v,
                    None => 4u64,
                })
                &&& c.checker == (match cp.checker {
                    Some(k) => k,
                    None => CheckerKind::Static,
                })
                &&& c.allow@ == (match cp.allow {
                    Some(v) => v@,
                    None => Seq::<String>::empty(),
                })
                &&& c.format@ == (match cp.format {
                    Some(f) => f@,
                    None => "{name}_{num}_{id}_{filename}.{extension}"@,
                })
                &&& c.orderby == (match cp.orderby {
                    Some(o) => o,
                    None => Orderby::Id,
                })
                &&& c.dependencies@ == (match cp.dependencies {
                    Some(v) => v@,
                    None => Seq::<String>::empty(),
                })
            },
            r matches Err(m) ==> m@ == "Could not find target!"@,
    {
        let target = match cp.target {
            Some(t) => t,
            None => {
                return Err("Could not find target!".to_owned());
            },
        };
        let inputs = match cp.input {
            Some(v) => v,
            None => Vec::new(),
        };
        let outputs = match cp.output {
            Some(v) => v,
            None => Vec::new(),
        };
        let points = match cp.points {
            Some(v) => v,
            None => Vec::new(),
        };
        let testcases = build_testcases(&inputs, &outputs, &points);
        proof {
            assert(strs_view(Seq::<String>::empty()) =~= Seq::<Seq<char>>::empty());
        }
        Ok(
            Config {
                entry: match cp.entry {
                    Some(e) => e,
                    None => "Main".to_owned(),
                },
                lang: Language::Guess,
                args: match cp.args {
                    Some(a) => a,
                    None => Vec::new(),
                },
                target,
                testcases,
                timeout: match cp.timeout {
                    Some(t) => t,
                    None => 5,
                },
                memory: match cp.memory {
                    Some(v) => v,
                    None => 1024,
                },
                threads: match cp.threads {
                    Some(v) => v,
                    None => 4,
                },
                checker: match cp.checker {
                    Some(k) => k,
                    None => CheckerKind::Static,
                },
                allow: match cp.allow {
                    Some(v) => v,
                    None => Vec::new(),
                },
                format: match cp.format {
                    Some(f) => f,
                    None => "{name}_{num}_{id}_{filename}.{extension}".to_owned(),
                },
                orderby: match cp.orderby {
                    Some(o) => o,
                    None => Orderby::Id,
                },
                dependencies: match cp.dependencies {
                    Some(v) => v,
                    None => Vec::new(),
                },
            },
        )
    }
}

} // verus!
