use vstd::prelude::*;
use ethers_signers::WalletError;
use crate::acquire::{
    accept_trace, balance_overflows, check_balances, check_geth_traces, trace_decision, trace_skip,
    TraceSummary,
};
use crate::error::{ErrorView, StateTestError};
use crate::fixture::{AccountMatch, StateTest, TestSuite};
use crate::post::{check_post, StateDb};
use crate::request::{into_traceconfig, request_from, signs, TraceRequest};
use crate::word::Address;

verus! {

/// What the later stages of a test need of its fixture.
#[derive(Clone, Debug)]
pub struct Expectation {
    pub exception: bool,
    pub post: Vec<(Address, AccountMatch)>,
}

/// The first stage of a test.
#[derive(Debug)]
pub enum Start {
    /// Ask the backend to trace this request, then call `on_trace`.
    Trace(TraceRequest, Expectation),
    /// The test is over before any trace is acquired.
    Done(Result<(), StateTestError>),
    /// The signing key was rejected (a fatal fault of the fixture).
    Rejected(WalletError),
}

/// The stage after the trace.
#[derive(Debug)]
pub enum Next {
    /// Build and prove the witness, then call `on_witness` with its state.
    Witness,
    /// The test is over.
    Done(Result<(), StateTestError>),
}

pub ghost enum NextView {
    Witness,
    Done(Result<(), ErrorView>),
}

impl View for Next {
    type V = NextView;

    open spec fn view(&self) -> NextView {
        match self {
            Next::Witness => NextView::Witness,
            Next::Done(Ok(())) => NextView::Done(Ok(())),
            Next::Done(Err(e)) => NextView::Done(Err(e@)),
        }
    }
}

/// The stage that follows a backend result: the exception matrix first, then
/// the guards on an accepted trace.
pub open spec fn trace_next(
    exception: bool,
    traces: Result<Vec<TraceSummary>, String>,
    suite: TestSuite,
    skip_self_destruct: bool,
) -> NextView {
    match trace_decision(traces, exception) {
        Err(e) => NextView::Done(Err(e)),
        Ok(None) => NextView::Done(Ok(())),
        Ok(Some(t)) => match trace_skip(t@, suite, skip_self_destruct) {
            Some(e) => NextView::Done(Err(e)),
            None => NextView::Witness,
        },
    }
}

/// Starts a test: builds its trace request, and skips it when a pre-state
/// balance does not fit the target width. The key is rejected exactly when the
/// wallet made from it does not sign the transaction.
pub fn start_test(st: StateTest) -> (r: Start)
    ensures
        !signs(st) ==> r is Rejected,
        signs(st) && balance_overflows(st.pre@) ==> r matches Start::Done(
            Err(StateTestError::SkipTestBalanceOverflow),
        ),
        signs(st) && !balance_overflows(st.pre@) ==> r is Trace,
        r matches Start::Trace(req, exp) ==> request_from(req, st) && exp.exception
            == st.exception && exp.post@ == st.result@,
{
    let exception = st.exception;
    match into_traceconfig(st) {
        Err(e) => Start::Rejected(e),
        Ok((_, req, post)) => {
            match check_balances(&req.accounts) {
                Err(e) => Start::Done(Err(e)),
                Ok(()) => Start::Trace(req, Expectation { exception, post }),
            }
        },
    }
}

/// Decides what follows a backend result.
pub fn on_trace(
    exp: &Expectation,
    traces: Result<Vec<TraceSummary>, String>,
    suite: &TestSuite,
    skip_self_destruct: bool,
) -> (r: Next)
    requires
        !exp.exception ==> (traces matches Ok(t) ==> t@.len() > 0),
    ensures
        r@ == trace_next(exp.exception, traces, *suite, skip_self_destruct),
{
    match accept_trace(traces, exp.exception) {
        Err(e) => Next::Done(Err(e)),
        Ok(None) => Next::Done(Ok(())),
        Ok(Some(t)) => match check_geth_traces(&t, suite, skip_self_destruct) {
            Err(e) => Next::Done(Err(e)),
            Ok(()) => Next::Witness,
        },
    }
}

/// Checks the state after the witness was built and proved.
pub fn on_witness(exp: &Expectation, db: &StateDb) -> (r: Result<(), StateTestError>)
    requires
        db.wf(),
    ensures
        match r {
            Ok(()) => db.post_error(exp.post@).is_none(),
            Err(e) => db.post_error(exp.post@) == Some(e@),
        },
{
    check_post(db, &exp.post)
}

} // verus!
