use vstd::prelude::*;
use crate::word::Word;

verus! {

/// Why a single fixture did not succeed.
#[derive(Clone, Debug)]
#[allow(inconsistent_fields)]
pub enum StateTestError {
    BalanceMismatch { expected: Word, found: Word },
    NonceMismatch { expected: Word, found: Word },
    CodeMismatch { expected: Vec<u8>, found: Vec<u8> },
    StorageMismatch { slot: Word, expected: Word, found: Word },
    SkipTestMaxGasLimit(u64),
    SkipTestMaxSteps(usize),
    SkipTestSelfDestruct,
    SkipTestBalanceOverflow,
    Exception { expected: bool, found: String },
}

/// The mathematical content of a `StateTestError`.
#[allow(inconsistent_fields)]
pub ghost enum ErrorView {
    BalanceMismatch { expected: Word, found: Word },
    NonceMismatch { expected: Word, found: Word },
    CodeMismatch { expected: Seq<u8>, found: Seq<u8> },
    StorageMismatch { slot: Word, expected: Word, found: Word },
    SkipTestMaxGasLimit(u64),
    SkipTestMaxSteps(usize),
    SkipTestSelfDestruct,
    SkipTestBalanceOverflow,
    Exception { expected: bool, found: Seq<char> },
}

impl View for StateTestError {
    type V = ErrorView;

    open spec fn view(&self) -> ErrorView {
        match self {
            StateTestError::BalanceMismatch { expected, found } => ErrorView::BalanceMismatch {
                expected: *expected,
                found: *found,
            },
            StateTestError::NonceMismatch { expected, found } => ErrorView::NonceMismatch {
                expected: *expected,
                found: *found,
            },
            StateTestError::CodeMismatch { expected, found } => ErrorView::CodeMismatch {
                expected: expected@,
                found: found@,
            },
            StateTestError::StorageMismatch { slot, expected, found } =>
                ErrorView::StorageMismatch { slot: *slot, expected: *expected, found: *found },
            StateTestError::SkipTestMaxGasLimit(g) => ErrorView::SkipTestMaxGasLimit(*g),
            StateTestError::SkipTestMaxSteps(n) => ErrorView::SkipTestMaxSteps(*n),
            StateTestError::SkipTestSelfDestruct => ErrorView::SkipTestSelfDestruct,
            StateTestError::SkipTestBalanceOverflow => ErrorView::SkipTestBalanceOverflow,
            StateTestError::Exception { expected, found } => ErrorView::Exception {
                expected: *expected,
                found: found@,
            },
        }
    }
}

impl ErrorView {
    /// The fixture lies outside the supported envelope rather than failing.
    pub open spec fn is_skip(self) -> bool {
        match self {
            ErrorView::SkipTestMaxGasLimit(_) => true,
            ErrorView::SkipTestMaxSteps(_) => true,
            ErrorView::SkipTestSelfDestruct => true,
            ErrorView::SkipTestBalanceOverflow => true,
            _ => false,
        }
    }
}

impl StateTestError {
    /// Whether this error marks an unsupported fixture (a skip) rather than a
    /// verification failure.
    pub fn is_skip(&self) -> (r: bool)
        ensures
            r == self@.is_skip(),
    {
        match self {
            StateTestError::SkipTestMaxSteps(_) => true,
            StateTestError::SkipTestMaxGasLimit(_) => true,
            StateTestError::SkipTestSelfDestruct => true,
            StateTestError::SkipTestBalanceOverflow => true,
            _ => false,
        }
    }
}

} // verus!
