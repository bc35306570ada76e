use vstd::prelude::*;
use crate::error::{ErrorView, StateTestError};

verus! {

/// The kind of outcome recorded for one test.
#[derive(Clone, Copy, Debug, PartialEq, Eq, Structural)]
pub enum ResultLevel {
    Success,
    Ignored,
    Fail,
    Panic,
}

/// The free-text part of an outcome, kept structured.
#[derive(Clone, Debug)]
pub enum Detail {
    /// Nothing to report (a success).
    Empty,
    /// The suite's selection excluded the test.
    IgnoredByConfig,
    /// A typed error from building, tracing or checking.
    Error(StateTestError),
    /// The text of a runtime fault caught at the test boundary.
    Fault(String),
}

/// How one execution attempt ended.
#[derive(Debug)]
pub enum Attempt {
    /// The pipeline returned, with success or a typed error.
    Finished(Result<(), StateTestError>),
    /// A runtime fault was caught; its message.
    Faulted(String),
}

/// `needle` occurs in `hay` at some position.
pub open spec fn contains_text(hay: Seq<char>, needle: Seq<char>) -> bool {
    exists|i: int|
        0 <= i && i + needle.len() <= hay.len() && #[trigger] hay.subrange(i, i + needle.len())
            == needle
}

/// The outcome kind of a caught fault, by the text of its message.
pub open spec fn fault_level(msg: Seq<char>) -> ResultLevel {
    if contains_text(msg, "circuit was not satisfied"@) {
        ResultLevel::Fail
    } else if contains_text(msg, "evm_unimplemented"@) {
        ResultLevel::Ignored
    } else {
        ResultLevel::Panic
    }
}

/// The outcome kind of a pipeline that returned.
pub open spec fn result_level(r: Result<(), ErrorView>) -> ResultLevel {
    match r {
        Ok(()) => ResultLevel::Success,
        Err(e) => if e.is_skip() {
            ResultLevel::Ignored
        } else {
            ResultLevel::Fail
        },
    }
}

pub open spec fn result_view(r: Result<(), StateTestError>) -> Result<(), ErrorView> {
    match r {
        Ok(()) => Ok(()),
        Err(e) => Err(e@),
    }
}

impl Attempt {
    pub open spec fn level(&self) -> ResultLevel {
        match self {
            Attempt::Finished(r) => result_level(result_view(*r)),
            Attempt::Faulted(msg) => fault_level(msg@),
        }
    }
}

fn chars_of(s: &str) -> (r: Vec<char>)
    ensures
        r@ == s@,
{
    let n = s.unicode_len();
    let mut out: Vec<char> = Vec::new();
    let mut i: usize = 0;
    while i < n
        invariant
            n == s@.len(),
            i <= n,
            out@ == s@.subrange(0, i as int),
        decreases n - i,
    {
        out.push(s.get_char(i));
        i = i + 1;
        assert(out@ =~= s@.subrange(0, i as int));
    }
    assert(out@ =~= s@);
    out
}

fn occurs_at(hay: &Vec<char>, needle: &Vec<char>, at: usize) -> (r: bool)
    requires
        at + needle@.len() <= hay@.len(),
    ensures
        r == (hay@.subrange(at as int, at + needle@.len()) == needle@),
{
    let hay_len = hay.len();
    let mut k: usize = 0;
    while k < needle.len()
        invariant
            hay@.len() == hay_len,
            at + needle@.len() <= hay@.len(),
            k <= needle@.len(),
            forall|j: int| 0 <= j < k ==> hay@[at + j] == needle@[j],
        decreases needle@.len() - k,
    {
        if hay[at + k] != needle[k] {
            assert(hay@.subrange(at as int, at + needle@.len())[k as int] != needle@[k as int]);
            return false;
        }
        k = k + 1;
    }
    assert(hay@.subrange(at as int, at + needle@.len()) =~= needle@);
    true
}

/// Whether `needle` occurs in `hay`.
pub fn find_text(hay: &str, needle: &str) -> (r: bool)
    ensures
        r == contains_text(hay@, needle@),
{
    let h = chars_of(hay);
    let n = chars_of(needle);
    if n.len() > h.len() {
        return false;
    }
    let last = h.len() - n.len();
    let mut i: usize = 0;
    loop
        invariant
            h@ == hay@,
            n@ == needle@,
            last == h@.len() - n@.len(),
            i <= last,
            forall|j: int| 0 <= j < i ==> #[trigger] h@.subrange(j, j + n@.len()) != n@,
        decreases last - i,
    {
        if occurs_at(&h, &n, i) {
            return true;
        }
        if i == last {
            return false;
        }
        i = i + 1;
    }
}

/// Classifies a caught runtime fault by its message: an unsatisfied proof is a
/// failure, an intentionally unimplemented opcode path is ignored, anything
/// else is a panic.
pub fn classify_fault(msg: &str) -> (r: ResultLevel)
    ensures
        r == fault_level(msg@),
{
    if find_text(msg, "circuit was not satisfied") {
        ResultLevel::Fail
    } else if find_text(msg, "evm_unimplemented") {
        ResultLevel::Ignored
    } else {
        ResultLevel::Panic
    }
}

/// Classifies the result of a pipeline that returned: success, a skip
/// (ignored) or a failure.
pub fn classify_result(r: &Result<(), StateTestError>) -> (l: ResultLevel)
    ensures
        l == result_level(result_view(*r)),
{
    match r {
        Ok(()) => ResultLevel::Success,
        Err(e) => if e.is_skip() {
            ResultLevel::Ignored
        } else {
            ResultLevel::Fail
        },
    }
}

impl Attempt {
    /// The outcome kind and detail of this attempt.
    pub fn outcome(self) -> (r: (ResultLevel, Detail))
        ensures
            r.0 == self.level(),
            match self {
                Attempt::Finished(Ok(())) => r.1 is Empty,
                Attempt::Finished(Err(e)) => match r.1 {
                    Detail::Error(d) => d@ == e@,
                    _ => false,
                },
                Attempt::Faulted(msg) => match r.1 {
                    Detail::Fault(m) => m@ == msg@,
                    _ => false,
                },
            },
    {
        match self {
            Attempt::Finished(res) => {
                let level = classify_result(&res);
                match res {
                    Ok(()) => (level, Detail::Empty),
                    Err(e) => (level, Detail::Error(e)),
                }
            },
            Attempt::Faulted(msg) => {
                let level = classify_fault(msg.as_str());
                (level, Detail::Fault(msg))
            },
        }
    }
}

} // verus!
