use vstd::prelude::*;
use crate::acquire::TraceSummary;
use crate::error::ErrorView;
use crate::fixture::{AccountMatch, StateTest, TestSuite};
use crate::outcome::{result_level, ResultLevel};
use crate::post::StateDb;
use crate::results::{ResultInfo, Results};
use crate::runner::{trace_next, NextView};
use crate::schedule::{pending_of, test_key};
use crate::word::Address;

verus! {

/// A fixture that expects an exception fails, with "no error" as the finding,
/// whenever the backend traces it without a fault.
pub proof fn lemma_expected_exception_missing(
    traces: Vec<TraceSummary>,
    suite: TestSuite,
    skip_self_destruct: bool,
)
    ensures
        trace_next(true, Ok(traces), suite, skip_self_destruct) == NextView::Done(
            Err(ErrorView::Exception { expected: true, found: "no error"@ }),
        ),
        result_level(Err(ErrorView::Exception { expected: true, found: "no error"@ }))
            == ResultLevel::Fail,
{
}

/// A fixture that expects no exception fails, with the fault's text as the
/// finding, whenever the backend faults.
pub proof fn lemma_unexpected_fault(msg: String, suite: TestSuite, skip_self_destruct: bool)
    ensures
        trace_next(false, Err(msg), suite, skip_self_destruct) == NextView::Done(
            Err(ErrorView::Exception { expected: false, found: msg@ }),
        ),
        result_level(Err(ErrorView::Exception { expected: false, found: msg@ }))
            == ResultLevel::Fail,
{
}

/// A fixture that expects an exception succeeds when the backend faults, and
/// the test ends there: no witness is built and no post-state is checked.
pub proof fn lemma_expected_fault_succeeds(msg: String, suite: TestSuite, skip_self_destruct: bool)
    ensures
        trace_next(true, Err(msg), suite, skip_self_destruct) == NextView::Done(Ok(())),
        result_level(Ok(())) == ResultLevel::Success,
{
}

/// When an account's balance and nonce both differ from what is expected, the
/// balance mismatch is the one reported.
pub proof fn lemma_balance_checked_first(db: StateDb, a: Address, e: AccountMatch)
    requires
        e.balance is Some,
        e.nonce is Some,
        e.balance.unwrap() != db.account_fields(a).0,
        e.nonce.unwrap() != db.account_fields(a).1,
    ensures
        db.account_error(a, e) == Some(
            ErrorView::BalanceMismatch { expected: e.balance.unwrap(), found: db.account_fields(a).0 },
        ),
{
}

/// A test whose key the store already holds is not run again, and its stored
/// outcome stays as it is: no test of the pending batch has that key, an insert
/// under that key leaves the store unchanged, and no insert alters an entry
/// already stored.
pub proof fn lemma_cached_not_rerun(tcs: Seq<StateTest>, results: Results, key: (Seq<char>, Seq<char>))
    requires
        results.has_key(key),
    ensures
        forall|i: int| 0 <= i < pending_of(tcs, results).len() ==> test_key(#[trigger] pending_of(tcs, results)[i]) != key,
        forall|info: ResultInfo| info.key() == key ==> #[trigger] results.inserted(info) == results.tests@,
        forall|info: ResultInfo, i: int| 0 <= i < results.tests@.len() ==> #[trigger] results.inserted(info)[i] == results.tests@[i],
{
    broadcast use vstd::seq_lib::group_filter_ensures;

    let pred = |t: StateTest| !results.has_key(test_key(t));
    assert forall|i: int| 0 <= i < pending_of(tcs, results).len() implies test_key(#[trigger] pending_of(tcs, results)[i]) != key by {
        assert(pred(tcs.filter(pred)[i]));
    }
}

} // verus!
