use vstd::prelude::*;
use crate::error::{ErrorView, StateTestError};
use crate::fixture::{PreAccount, TestSuite};

verus! {

/// What the guards read of one transaction's step trace.
#[derive(Clone, Copy, Debug)]
pub struct TraceSummary {
    /// Number of opcode steps in the trace.
    pub steps: usize,
    /// Gas used by the transaction.
    pub gas: u64,
    /// Whether a self-destruct opcode appears anywhere in the trace.
    pub self_destruct: bool,
}

/// Some trace holds a self-destruct opcode.
pub open spec fn any_self_destruct(traces: Seq<TraceSummary>) -> bool {
    exists|i: int| 0 <= i < traces.len() && #[trigger] traces[i].self_destruct
}

/// The skip, if any, that the guards give for a successful trace: self-destruct
/// (in the build mode that skips it), then the step limit, then the gas limit.
pub open spec fn trace_skip(
    traces: Seq<TraceSummary>,
    suite: TestSuite,
    skip_self_destruct: bool,
) -> Option<ErrorView> {
    if skip_self_destruct && any_self_destruct(traces) {
        Some(ErrorView::SkipTestSelfDestruct)
    } else if traces[0].steps as nat > suite.max_steps as nat {
        Some(ErrorView::SkipTestMaxSteps(traces[0].steps))
    } else if suite.max_gas > 0 && traces[0].gas > suite.max_gas {
        Some(ErrorView::SkipTestMaxGasLimit(traces[0].gas))
    } else {
        None
    }
}

/// Applies the pre-witness guards to an accepted trace.
pub fn check_geth_traces(
    geth_traces: &Vec<TraceSummary>,
    suite: &TestSuite,
    skip_self_destruct: bool,
) -> (r: Result<(), StateTestError>)
    requires
        geth_traces@.len() > 0,
    ensures
        match r {
            Ok(()) => trace_skip(geth_traces@, *suite, skip_self_destruct).is_none(),
            Err(e) => trace_skip(geth_traces@, *suite, skip_self_destruct) == Some(e@),
        },
{
    if skip_self_destruct {
        let mut i: usize = 0;
        while i < geth_traces.len()
            invariant
                i <= geth_traces@.len(),
                skip_self_destruct,
                forall|j: int| 0 <= j < i ==> !(#[trigger] geth_traces@[j]).self_destruct,
            decreases geth_traces@.len() - i,
        {
            if geth_traces[i].self_destruct {
                assert(geth_traces@[i as int].self_destruct);
                return Err(StateTestError::SkipTestSelfDestruct);
            }
            i = i + 1;
        }
    }
    let first = geth_traces[0];
    if first.steps as u64 > suite.max_steps {
        return Err(StateTestError::SkipTestMaxSteps(first.steps));
    }
    if suite.max_gas > 0 && first.gas > suite.max_gas {
        return Err(StateTestError::SkipTestMaxGasLimit(first.gas));
    }
    Ok(())
}

/// Some account of the pre-state starts with a balance whose top byte is
/// not zero.
pub open spec fn balance_overflows(pre: Seq<PreAccount>) -> bool {
    exists|i: int| 0 <= i < pre.len() && (#[trigger] pre[i]).balance.spec_top_byte() != 0
}

/// Rejects a pre-state whose balances do not fit the target width.
pub fn check_balances(pre: &Vec<PreAccount>) -> (r: Result<(), StateTestError>)
    ensures
        r.is_ok() == !balance_overflows(pre@),
        r.is_err() ==> r == Err::<(), StateTestError>(StateTestError::SkipTestBalanceOverflow),
{
    let mut i: usize = 0;
    while i < pre.len()
        invariant
            i <= pre@.len(),
            forall|j: int| 0 <= j < i ==> (#[trigger] pre@[j]).balance.spec_top_byte() == 0,
        decreases pre@.len() - i,
    {
        if pre[i].balance.top_byte() != 0 {
            return Err(StateTestError::SkipTestBalanceOverflow);
        }
        i = i + 1;
    }
    Ok(())
}

/// The decision for a backend result against the fixture's expected-exception
/// flag: `Ok(Some(t))` to go on with the trace, `Ok(None)` when the expected
/// fault occurred (the test passes and nothing more is checked), or the
/// exception-expectation violation.
pub open spec fn trace_decision<T>(res: Result<T, String>, exception: bool) -> Result<
    Option<T>,
    ErrorView,
> {
    match res {
        Ok(t) => if exception {
            Err(ErrorView::Exception { expected: true, found: "no error"@ })
        } else {
            Ok(Some(t))
        },
        Err(msg) => if exception {
            Ok(None)
        } else {
            Err(ErrorView::Exception { expected: false, found: msg@ })
        },
    }
}

/// Classifies a backend result against the fixture's expected-exception flag.
pub fn accept_trace<T>(res: Result<T, String>, exception: bool) -> (r: Result<
    Option<T>,
    StateTestError,
>)
    ensures
        match (r, trace_decision(res, exception)) {
            (Ok(a), Ok(b)) => a == b,
            (Err(e), Err(v)) => e@ == v,
            _ => false,
        },
{
    match res {
        Ok(t) => {
            if exception {
                let found = "no error".to_string();
                Err(StateTestError::Exception { expected: true, found })
            } else {
                Ok(Some(t))
            }
        },
        Err(msg) => {
            if exception {
                Ok(None)
            } else {
                Err(StateTestError::Exception { expected: false, found: msg })
            }
        },
    }
}

} // verus!
