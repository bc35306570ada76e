//! Conformance runner for state-transition fixtures: request building, trace
//! acceptance, post-state checks, outcome classification and scheduling.
//!
//! The tracer, the witness builder and the prover are collaborators outside
//! this crate: each stage here takes what they returned as an argument.
mod acquire;
mod error;
mod fixture;
mod laws;
mod outcome;
mod params;
mod post;
mod request;
mod results;
mod runner;
mod schedule;
mod word;

pub use acquire::{
    accept_trace, balance_overflows, check_balances, check_geth_traces, trace_decision,
    trace_skip, TraceSummary,
};
pub use error::{ErrorView, StateTestError};
pub use fixture::{AccountMatch, CircuitsConfig, Env, PreAccount, StateTest, TestSuite};
pub use laws::{
    lemma_balance_checked_first, lemma_cached_not_rerun, lemma_expected_exception_missing,
    lemma_expected_fault_succeeds, lemma_unexpected_fault,
};
pub use outcome::{
    classify_fault, classify_result, fault_level, find_text, result_level, Attempt, Detail,
    ResultLevel,
};
pub use params::{
    circuits_params, get_params_for_sub_circuit_test, get_params_for_super_circuit_test,
    get_params_for_super_circuit_test_l2, CircuitsParams, PrecompileEcParams, MAX_BYTECODE,
    MAX_CALLDATA, MAX_EXP_STEPS, MAX_INNER_BLOCKS, MAX_KECCAK_ROWS, MAX_MPT_ROWS,
    MAX_POSEIDON_ROWS, MAX_PRECOMPILE_EC_ADD, MAX_PRECOMPILE_EC_MUL, MAX_PRECOMPILE_EC_PAIRING,
    MAX_RWS, MAX_TXS, MAX_VERTICLE_ROWS,
};
pub use post::{check_post, DbAccount, StateDb};
pub use request::{
    into_traceconfig, request_from, BlockConstants, SignedTx, TraceRequest, TxFields,
    TxSignature, CHAIN_ID,
};
pub use results::{ResultInfo, Results};
pub use runner::{on_trace, on_witness, start_test, trace_next, Expectation, Next, NextView, Start};
pub use schedule::{
    lemma_partition_total_disjoint, partition, path_skipped, pending_of, pending_tests,
    record_attempt, record_ignored, retain_selected, round_robin, worker_groups, PARALLELISM,
};
pub use word::{Address, Word};
