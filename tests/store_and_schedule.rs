use testool::{
    classify_fault, find_text, partition, pending_tests, record_attempt, record_ignored,
    worker_groups, Attempt, CircuitsConfig, Detail, Env, ResultInfo, ResultLevel, Results,
    StateTest, StateTestError, TestSuite, Word, Address, PARALLELISM,
};

fn test_named(id: &str, path: &str) -> StateTest {
    StateTest {
        path: path.to_string(),
        id: id.to_string(),
        env: Env {
            current_coinbase: Address { bytes: [0; 20] },
            current_timestamp: 0,
            current_number: 0,
            current_difficulty: Word::zero(),
            current_gas_limit: 0,
            current_base_fee: Word::zero(),
            previous_hash: Word::zero(),
        },
        secret_key: vec![1u8; 32],
        from: Address { bytes: [1; 20] },
        to: None,
        gas_limit: 0,
        gas_price: Word::zero(),
        nonce: Word::zero(),
        value: Word::zero(),
        data: vec![],
        pre: vec![],
        result: vec![],
        exception: false,
    }
}

#[test]
fn cached_test_is_not_rerun_and_keeps_its_outcome() {
    let mut results = Results::new();
    let t1 = test_named("T1", "p.yml");
    record_attempt(&mut results, &t1, Attempt::Faulted("boom".to_string())).unwrap();
    let pending = pending_tests(vec![test_named("T1", "p.yml"), test_named("T2", "p.yml")], &results);
    assert_eq!(pending.len(), 1);
    assert_eq!(pending[0].id, "T2");
    let again = record_attempt(&mut results, &t1, Attempt::Finished(Ok(())));
    assert!(again.is_err());
    assert_eq!(results.tests.len(), 1);
    assert_eq!(results.tests[0].level, ResultLevel::Panic);
    assert!(matches!(results.tests[0].details, Detail::Fault(ref m) if m == "boom"));
}

#[test]
fn recorded_details_follow_the_attempt() {
    let mut results = Results::new();
    record_attempt(&mut results, &test_named("ok", "p"), Attempt::Finished(Ok(()))).unwrap();
    let err = StateTestError::Exception { expected: true, found: "no error".to_string() };
    record_attempt(&mut results, &test_named("bad", "p"), Attempt::Finished(Err(err))).unwrap();
    record_attempt(&mut results, &test_named("skip", "p"), Attempt::Finished(Err(StateTestError::SkipTestBalanceOverflow))).unwrap();
    assert!(matches!(results.tests[0].details, Detail::Empty));
    assert_eq!(results.tests[0].level, ResultLevel::Success);
    assert!(matches!(results.tests[1].details, Detail::Error(StateTestError::Exception { expected: true, ref found }) if found == "no error"));
    assert_eq!(results.tests[1].level, ResultLevel::Fail);
    assert!(matches!(results.tests[2].details, Detail::Error(StateTestError::SkipTestBalanceOverflow)));
    assert_eq!(results.tests[2].level, ResultLevel::Ignored);
}

#[test]
fn same_id_at_another_path_is_a_different_key() {
    let mut results = Results::new();
    record_ignored(&mut results, &test_named("T1", "a.yml")).unwrap();
    assert!(results.contains(&"T1".to_string(), &"a.yml".to_string()));
    assert!(!results.contains(&"T1".to_string(), &"b.yml".to_string()));
    let pending = pending_tests(vec![test_named("T1", "b.yml")], &results);
    assert_eq!(pending.len(), 1);
    assert!(matches!(results.tests[0].details, Detail::IgnoredByConfig));
    assert_eq!(results.tests[0].level, ResultLevel::Ignored);
}

#[test]
fn insert_rejects_duplicate_key() {
    let mut results = Results::new();
    let info = |level| ResultInfo {
        test_id: "x".to_string(),
        level,
        details: Detail::Empty,
        path: "y".to_string(),
    };
    assert!(results.insert(info(ResultLevel::Success)).is_ok());
    let back = results.insert(info(ResultLevel::Fail)).unwrap_err();
    assert_eq!(back.level, ResultLevel::Fail);
    assert_eq!(results.tests.len(), 1);
    assert_eq!(results.tests[0].level, ResultLevel::Success);
}

#[test]
fn round_robin_partition_is_total_and_disjoint() {
    let n = 45;
    let groups = partition(n, PARALLELISM);
    assert_eq!(groups.len(), 20);
    let mut seen = vec![0u32; n];
    for (g, grp) in groups.iter().enumerate() {
        for (k, &i) in grp.iter().enumerate() {
            assert_eq!(i, g + k * 20);
            seen[i] += 1;
        }
    }
    assert!(seen.iter().all(|&c| c == 1));
    assert_eq!(groups[0], vec![0, 20, 40]);
    assert_eq!(groups[19], vec![19, 39]);
}

#[test]
fn partition_of_empty_batch() {
    let groups = partition(0, 3);
    assert_eq!(groups.len(), 3);
    assert!(groups.iter().all(|g| g.is_empty()));
}

#[test]
fn super_circuit_runs_sequentially() {
    let cfg = CircuitsConfig { super_circuit: true, verbose: false };
    let groups = worker_groups(5, &cfg);
    assert_eq!(groups, vec![vec![0, 1, 2, 3, 4]]);
    let cfg = CircuitsConfig { super_circuit: false, verbose: false };
    assert_eq!(worker_groups(5, &cfg).len(), PARALLELISM);
}

#[test]
fn fault_text_classification() {
    assert_eq!(classify_fault("the circuit was not satisfied at row 3"), ResultLevel::Fail);
    assert_eq!(classify_fault("opcode evm_unimplemented: BLOBHASH"), ResultLevel::Ignored);
    assert_eq!(classify_fault("index out of bounds"), ResultLevel::Panic);
    assert_eq!(classify_fault(""), ResultLevel::Panic);
    assert_eq!(classify_fault("circuit was not satisfie"), ResultLevel::Panic);
}

#[test]
fn text_search_edges() {
    assert!(find_text("abc", ""));
    assert!(find_text("abc", "abc"));
    assert!(find_text("xxabc", "abc"));
    assert!(!find_text("ab", "abc"));
    assert!(!find_text("", "a"));
    assert!(find_text("héllo wörld", "wö"));
}

#[test]
fn attempt_outcomes() {
    let (l, d) = Attempt::Finished(Err(StateTestError::SkipTestSelfDestruct)).outcome();
    assert_eq!(l, ResultLevel::Ignored);
    assert!(matches!(d, Detail::Error(StateTestError::SkipTestSelfDestruct)));
    let (l, d) = Attempt::Faulted("circuit was not satisfied".to_string()).outcome();
    assert_eq!(l, ResultLevel::Fail);
    assert!(matches!(d, Detail::Fault(ref m) if m == "circuit was not satisfied"));
    let (l, _) = Attempt::Finished(Ok(())).outcome();
    assert_eq!(l, ResultLevel::Success);
}

#[test]
fn suite_selection() {
    let mut suite = TestSuite {
        id: "s".to_string(), paths: vec![],
        max_steps: 10,
        max_gas: 0,
        allow_tests: vec![],
        ignore_tests: vec!["bad".to_string()],
    };
    assert!(suite.allowed(&"good".to_string()));
    assert!(!suite.allowed(&"bad".to_string()));
    suite.allow_tests = vec!["only".to_string()];
    assert!(suite.allowed(&"only".to_string()));
    assert!(!suite.allowed(&"good".to_string()));
}

#[test]
fn skip_kinds() {
    assert!(StateTestError::SkipTestMaxGasLimit(5).is_skip());
    assert!(StateTestError::SkipTestMaxSteps(5).is_skip());
    assert!(StateTestError::SkipTestSelfDestruct.is_skip());
    assert!(StateTestError::SkipTestBalanceOverflow.is_skip());
    assert!(!StateTestError::BalanceMismatch { expected: Word::zero(), found: Word::from_u64(1) }.is_skip());
    assert!(!StateTestError::Exception { expected: true, found: "no error".to_string() }.is_skip());
}

#[test]
fn selection_drops_skipped_and_unselected_tests() {
    let suite = TestSuite {
        id: "s".to_string(),
        paths: vec![],
        max_steps: 10,
        max_gas: 0,
        allow_tests: vec![],
        ignore_tests: vec!["ignored".to_string()],
    };
    let tcs = vec![test_named("a", "f"), test_named("skipme", "f"), test_named("ignored", "f"), test_named("b", "f")];
    let kept = testool::retain_selected(tcs, &vec!["skipme".to_string()], &suite);
    let ids: Vec<&str> = kept.iter().map(|t| t.id.as_str()).collect();
    assert_eq!(ids, vec!["a", "b"]);
}

#[test]
fn skip_paths_match_by_substring() {
    let skips = vec!["stTimeConsuming".to_string(), "/vmPerformance/".to_string()];
    assert!(testool::path_skipped("tests/GeneralStateTests/stTimeConsuming/x.json", &skips));
    assert!(!testool::path_skipped("tests/GeneralStateTests/stExample/x.json", &skips));
    assert!(!testool::path_skipped("anything", &vec![]));
}

#[test]
fn circuit_sizes_by_configuration() {
    let sub = CircuitsConfig { super_circuit: false, verbose: false };
    let sup = CircuitsConfig { super_circuit: true, verbose: false };
    let p = testool::circuits_params(&sub, true);
    assert_eq!(p.max_txs, 1);
    assert_eq!(p.max_rlp_rows, 6000);
    assert_eq!(p, testool::get_params_for_sub_circuit_test());
    let p = testool::circuits_params(&sup, false);
    assert_eq!(p.max_txs, testool::MAX_TXS);
    assert_eq!(p.max_rws, 256);
    let p = testool::circuits_params(&sup, true);
    assert_eq!(p.max_rws, 1_000_000);
    assert_eq!(p.max_rlp_rows, testool::MAX_CALLDATA);
    assert_eq!(p.max_ec_ops.ec_pairing, 2);
}
