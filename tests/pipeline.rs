use testool::{
    classify_result, on_trace, on_witness, start_test, AccountMatch, Address, DbAccount, Env,
    Next, PreAccount, ResultLevel, Start, StateDb, StateTest, StateTestError, TestSuite,
    TraceSummary, Word,
};

const KEY: &str = "45a915e4d060149eb4365960e6a7a45f334393093061116b197e3240065ff2d8";

fn addr(b: u8) -> Address {
    Address { bytes: [b; 20] }
}

fn w(v: u64) -> Word {
    Word::from_u64(v)
}

fn key_bytes(text: &str) -> Vec<u8> {
    hex::decode(text).unwrap()
}

fn pre_account(a: Address, balance: Word) -> PreAccount {
    PreAccount { address: a, nonce: w(0), balance, code: vec![], storage: vec![] }
}

fn balance_only(v: u64) -> AccountMatch {
    AccountMatch { balance: Some(w(v)), nonce: None, code: None, storage: vec![] }
}

fn suite() -> TestSuite {
    TestSuite {
        id: "default".to_string(),
        paths: vec![],
        max_steps: 1000,
        max_gas: 0,
        allow_tests: vec![],
        ignore_tests: vec![],
    }
}

fn fixture(pre_balance: Word, post: Vec<(Address, AccountMatch)>, exception: bool) -> StateTest {
    StateTest {
        path: "p.yml".to_string(),
        id: "add".to_string(),
        env: Env {
            current_coinbase: addr(0xcc),
            current_timestamp: 1000,
            current_number: 1,
            current_difficulty: w(131072),
            current_gas_limit: 10_000_000,
            current_base_fee: w(10),
            previous_hash: w(0),
        },
        secret_key: key_bytes(KEY),
        from: addr(0xaa),
        to: Some(addr(0xbb)),
        gas_limit: 100_000,
        gas_price: w(0),
        nonce: w(0),
        value: w(10),
        data: vec![],
        pre: vec![pre_account(addr(0xaa), pre_balance)],
        result: post,
        exception,
    }
}

fn db_after_transfer() -> StateDb {
    let acc = |b: u64| DbAccount { nonce: w(0), balance: w(b), code_hash: w(0), storage: vec![] };
    StateDb { accounts: vec![(addr(0xaa), acc(90)), (addr(0xbb), acc(10))], codes: vec![] }
}

fn one_trace() -> Vec<TraceSummary> {
    vec![TraceSummary { steps: 3, gas: 21000, self_destruct: false }]
}

fn run(st: StateTest, traces: Result<Vec<TraceSummary>, String>, db: &StateDb) -> Result<(), StateTestError> {
    match start_test(st) {
        Start::Trace(_, exp) => match on_trace(&exp, traces, &suite(), false) {
            Next::Witness => on_witness(&exp, db),
            Next::Done(r) => r,
        },
        Start::Done(r) => r,
        Start::Rejected(e) => panic!("key rejected: {e}"),
    }
}

#[test]
fn transfer_matches_post_state() {
    let st = fixture(w(100), vec![(addr(0xaa), balance_only(90)), (addr(0xbb), balance_only(10))], false);
    let r = run(st, Ok(one_trace()), &db_after_transfer());
    assert!(r.is_ok());
    assert_eq!(classify_result(&r), ResultLevel::Success);
}

#[test]
fn transfer_with_wrong_expected_balance() {
    let st = fixture(w(100), vec![(addr(0xaa), balance_only(80))], false);
    let r = run(st, Ok(one_trace()), &db_after_transfer());
    match &r {
        Err(StateTestError::BalanceMismatch { expected, found }) => {
            assert_eq!(*expected, w(80));
            assert_eq!(*found, w(90));
        }
        other => panic!("unexpected {other:?}"),
    }
    assert_eq!(classify_result(&r), ResultLevel::Fail);
}

#[test]
fn balance_with_top_byte_set_is_skipped_before_tracing() {
    let huge = Word { limbs0: 0, limbs1: 0, limbs2: 0, limbs3: 1u64 << 56 };
    let st = fixture(huge, vec![], false);
    match start_test(st) {
        Start::Done(r) => {
            assert!(matches!(r, Err(StateTestError::SkipTestBalanceOverflow)));
            assert_eq!(classify_result(&r), ResultLevel::Ignored);
        }
        _ => panic!("expected the test to end before tracing"),
    }
}

#[test]
fn balance_just_below_top_byte_is_traced() {
    let big = Word { limbs0: u64::MAX, limbs1: u64::MAX, limbs2: u64::MAX, limbs3: (1u64 << 56) - 1 };
    let st = fixture(big, vec![], false);
    assert!(matches!(start_test(st), Start::Trace(_, _)));
}

#[test]
fn expected_exception_with_faulting_tracer_succeeds() {
    let st = fixture(w(100), vec![(addr(0xaa), balance_only(1))], true);
    let r = run(st, Err("invalid transaction: nonce too low".to_string()), &db_after_transfer());
    assert!(r.is_ok());
    assert_eq!(classify_result(&r), ResultLevel::Success);
}

#[test]
fn expected_exception_without_fault_fails() {
    let st = fixture(w(100), vec![], true);
    let r = run(st, Ok(one_trace()), &db_after_transfer());
    match &r {
        Err(StateTestError::Exception { expected, found }) => {
            assert!(*expected);
            assert_eq!(found, "no error");
        }
        other => panic!("unexpected {other:?}"),
    }
    assert_eq!(classify_result(&r), ResultLevel::Fail);
}

#[test]
fn unexpected_fault_fails_with_its_text() {
    let st = fixture(w(100), vec![], false);
    let r = run(st, Err("out of gas".to_string()), &db_after_transfer());
    match &r {
        Err(StateTestError::Exception { expected, found }) => {
            assert!(!*expected);
            assert_eq!(found, "out of gas");
        }
        other => panic!("unexpected {other:?}"),
    }
    assert_eq!(classify_result(&r), ResultLevel::Fail);
}

#[test]
fn too_many_steps_is_skipped() {
    let st = fixture(w(100), vec![], false);
    let traces = vec![TraceSummary { steps: 1001, gas: 21000, self_destruct: false }];
    let r = run(st, Ok(traces), &db_after_transfer());
    assert!(matches!(r, Err(StateTestError::SkipTestMaxSteps(1001))));
    assert_eq!(classify_result(&r), ResultLevel::Ignored);
}

#[test]
fn zero_key_is_rejected() {
    let mut st = fixture(w(100), vec![], false);
    st.secret_key = vec![0u8; 32];
    assert!(matches!(start_test(st), Start::Rejected(_)));
}

#[test]
fn expected_exception_with_empty_trace_fails() {
    let st = fixture(w(100), vec![], true);
    match start_test(st) {
        Start::Trace(_, exp) => {
            let next = on_trace(&exp, Ok(vec![]), &suite(), false);
            assert!(matches!(next, Next::Done(Err(StateTestError::Exception { expected: true, .. }))));
        }
        _ => panic!("expected a trace request"),
    }
}
