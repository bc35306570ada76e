use vstd::prelude::*;
use vstd::arithmetic::div_mod::lemma_fundamental_div_mod_converse;
use crate::fixture::{contains_name, names_contain, CircuitsConfig, StateTest, TestSuite};
use crate::outcome::{contains_text, find_text, Attempt, Detail, ResultLevel};
use crate::results::{ResultInfo, Results};

verus! {

/// Number of worker groups under per-component proving.
pub const PARALLELISM: usize = 20;

/// The key under which a test's outcome is stored.
pub open spec fn test_key(t: StateTest) -> (Seq<char>, Seq<char>) {
    (t.id@, t.path@)
}

/// The tests of a batch whose outcome the store does not hold yet, in order.
pub open spec fn pending_of(tcs: Seq<StateTest>, results: Results) -> Seq<StateTest> {
    tcs.filter(|t: StateTest| !results.has_key(test_key(t)))
}

/// Drops every test whose outcome is already recorded, keeping the order of
/// the rest.
pub fn pending_tests(tcs: Vec<StateTest>, results: &Results) -> (r: Vec<StateTest>)
    ensures
        r@ == pending_of(tcs@, *results),
{
    let ghost orig = tcs@;
    let ghost pred = |t: StateTest| !results.has_key(test_key(t));
    let total = tcs.len();
    let mut rest = tcs;
    let mut out: Vec<StateTest> = Vec::new();
    let mut i: usize = 0;
    while rest.len() > 0
        invariant
            total == orig.len(),
            i <= orig.len(),
            rest@ == orig.subrange(i as int, orig.len() as int),
            out@ == orig.subrange(0, i as int).filter(pred),
            pred == (|t: StateTest| !results.has_key(test_key(t))),
        decreases rest@.len(),
    {
        let t = rest.remove(0);
        proof {
            let prefix = orig.subrange(0, i + 1);
            assert(prefix.drop_last() =~= orig.subrange(0, i as int));
            assert(prefix.last() == t);
            reveal(Seq::filter);
        }
        if !results.contains(&t.id, &t.path) {
            out.push(t);
        }
        i = i + 1;
        assert(rest@ =~= orig.subrange(i as int, orig.len() as int));
    }
    assert(orig.subrange(0, i as int) =~= orig);
    out
}

/// A loaded test is kept when it is not on the skip list and the suite
/// selects it.
pub open spec fn selected(t: StateTest, skip_tests: Seq<String>, suite: TestSuite) -> bool {
    !names_contain(skip_tests, t.id@) && suite.spec_allowed(t.id@)
}

/// Keeps, in order, the loaded tests that `selected` admits.
pub fn retain_selected(tcs: Vec<StateTest>, skip_tests: &Vec<String>, suite: &TestSuite) -> (r:
    Vec<StateTest>)
    ensures
        r@ == tcs@.filter(|t: StateTest| selected(t, skip_tests@, *suite)),
{
    let ghost orig = tcs@;
    let ghost pred = |t: StateTest| selected(t, skip_tests@, *suite);
    let total = tcs.len();
    let mut rest = tcs;
    let mut out: Vec<StateTest> = Vec::new();
    let mut i: usize = 0;
    while rest.len() > 0
        invariant
            total == orig.len(),
            i <= orig.len(),
            rest@ == orig.subrange(i as int, orig.len() as int),
            out@ == orig.subrange(0, i as int).filter(pred),
            pred == (|t: StateTest| selected(t, skip_tests@, *suite)),
        decreases rest@.len(),
    {
        let t = rest.remove(0);
        proof {
            let prefix = orig.subrange(0, i + 1);
            assert(prefix.drop_last() =~= orig.subrange(0, i as int));
            assert(prefix.last() == t);
            reveal(Seq::filter);
        }
        if !contains_name(skip_tests, &t.id) && suite.allowed(&t.id) {
            out.push(t);
        }
        i = i + 1;
        assert(rest@ =~= orig.subrange(i as int, orig.len() as int));
    }
    assert(orig.subrange(0, i as int) =~= orig);
    out
}

/// A fixture file is skipped when its path contains one of the skip patterns.
pub fn path_skipped(path: &str, skip_paths: &Vec<String>) -> (r: bool)
    ensures
        r == exists|i: int| 0 <= i < skip_paths@.len() && contains_text(path@, #[trigger] skip_paths@[i]@),
{
    let mut i: usize = 0;
    while i < skip_paths.len()
        invariant
            i <= skip_paths@.len(),
            forall|j: int| 0 <= j < i ==> !contains_text(path@, #[trigger] skip_paths@[j]@),
        decreases skip_paths@.len() - i,
    {
        if find_text(path, skip_paths[i].as_str()) {
            return true;
        }
        i = i + 1;
    }
    false
}

/// `groups` deals the indices `0..n` round-robin over `g` groups: group `a`
/// holds `a, a + g, a + 2g, ...` below `n`, in that order.
pub open spec fn round_robin(groups: Seq<Vec<usize>>, n: nat, g: nat) -> bool {
    &&& groups.len() == g
    &&& forall|a: int, k: int|
        0 <= a < g && 0 <= k < groups[a]@.len() ==> #[trigger] groups[a]@[k] == a + k * g
            && groups[a]@[k] < n
    &&& forall|a: int| 0 <= a < g ==> a + (#[trigger] groups[a]@.len()) * g >= n
}

fn deal_group(n: usize, g: usize, a: usize) -> (r: Vec<usize>)
    requires
        a < g,
    ensures
        forall|k: int| 0 <= k < r@.len() ==> #[trigger] r@[k] == a + k * g && r@[k] < n,
        a + r@.len() * g >= n,
{
    let mut grp: Vec<usize> = Vec::new();
    let mut more = a < n;
    let mut j: usize = a;
    assert(a + grp@.len() * g == a) by (nonlinear_arith)
        requires
            grp@.len() == 0,
    ;
    while more
        invariant
            a < g,
            more ==> j == a + grp@.len() * g && j < n,
            !more ==> a + grp@.len() * g >= n,
            forall|k: int| 0 <= k < grp@.len() ==> #[trigger] grp@[k] == a + k * g && grp@[k] < n,
        decreases n - a - grp@.len() * g + g,
    {
        let ghost len = grp@.len();
        grp.push(j);
        assert(j + g == a + (len + 1) * g) by (nonlinear_arith)
            requires
                j == a + len * g,
        ;
        if n - j <= g {
            more = false;
        } else {
            j = j + g;
        }
    }
    grp
}

/// Deals the indices `0..n` round-robin over `g` groups.
pub fn partition(n: usize, g: usize) -> (r: Vec<Vec<usize>>)
    requires
        g > 0,
    ensures
        round_robin(r@, n as nat, g as nat),
{
    let mut groups: Vec<Vec<usize>> = Vec::new();
    let mut a: usize = 0;
    while a < g
        invariant
            a <= g,
            groups@.len() == a,
            forall|b: int, k: int|
                0 <= b < a && 0 <= k < groups@[b]@.len() ==> #[trigger] groups@[b]@[k] == b + k
                    * g && groups@[b]@[k] < n,
            forall|b: int| 0 <= b < a ==> b + (#[trigger] groups@[b]@.len()) * g >= n,
        decreases g - a,
    {
        let grp = deal_group(n, g, a);
        groups.push(grp);
        a = a + 1;
    }
    groups
}

/// The worker groups for a batch of `n` tests: one group that runs them all in
/// order under full-system proving, else `PARALLELISM` round-robin groups.
pub fn worker_groups(n: usize, config: &CircuitsConfig) -> (r: Vec<Vec<usize>>)
    ensures
        config.super_circuit ==> round_robin(r@, n as nat, 1),
        !config.super_circuit ==> round_robin(r@, n as nat, PARALLELISM as nat),
{
    if config.super_circuit {
        partition(n, 1)
    } else {
        partition(n, PARALLELISM)
    }
}

/// The group that index `i` is dealt to.
pub open spec fn group_of(i: int, g: nat) -> int {
    i % (g as int)
}

/// The place of index `i` within its group.
pub open spec fn place_of(i: int, g: nat) -> int {
    i / (g as int)
}

/// Index `i` stands in group `group_of(i, g)` at place `place_of(i, g)`.
pub open spec fn dealt_at(groups: Seq<Vec<usize>>, g: nat, i: int) -> bool {
    &&& 0 <= place_of(i, g) < groups[group_of(i, g)]@.len()
    &&& groups[group_of(i, g)]@[place_of(i, g)] == i
}

/// Index `i` of the batch stands in group `i % g` at place `i / g`.
proof fn lemma_index_dealt(groups: Seq<Vec<usize>>, n: nat, g: nat, i: int)
    requires
        g > 0,
        round_robin(groups, n, g),
        0 <= i < n,
    ensures
        (i / g as int) < groups[i % g as int]@.len(),
        groups[i % g as int]@[i / g as int] == i,
{
    let a = i % g as int;
    let k = i / g as int;
    let len = groups[a]@.len() as int;
    assert(i == k * g + a && 0 <= a < g && k >= 0) by (nonlinear_arith)
        requires
            g > 0,
            i >= 0,
            a == i % g as int,
            k == i / g as int,
    ;
    assert(a + len * g >= n);
    assert(k < len) by (nonlinear_arith)
        requires
            a + len * g >= n,
            i == k * g + a,
            i < n,
            g > 0,
    ;
    assert(groups[a]@[k] == a + k * g);
}

/// Every index below `n` is dealt to exactly one group, at exactly one place,
/// and the groups hold nothing else.
pub proof fn lemma_partition_total_disjoint(groups: Seq<Vec<usize>>, n: nat, g: nat)
    requires
        g > 0,
        round_robin(groups, n, g),
    ensures
        forall|i: int| 0 <= i < n ==> #[trigger] dealt_at(groups, g, i),
        forall|a1: int, k1: int, a2: int, k2: int|
            0 <= a1 < g && 0 <= k1 < groups[a1]@.len() && 0 <= a2 < g && 0 <= k2
                < groups[a2]@.len() && #[trigger] groups[a1]@[k1] == #[trigger] groups[a2]@[k2]
                ==> a1 == a2 && k1 == k2,
        forall|a: int, k: int|
            0 <= a < g && 0 <= k < groups[a]@.len() ==> #[trigger] groups[a]@[k] < n,
{
    assert forall|i: int| 0 <= i < n implies #[trigger] dealt_at(groups, g, i) by {
        lemma_index_dealt(groups, n, g, i);
    }
    assert forall|a1: int, k1: int, a2: int, k2: int|
        0 <= a1 < g && 0 <= k1 < groups[a1]@.len() && 0 <= a2 < g && 0 <= k2
            < groups[a2]@.len() && #[trigger] groups[a1]@[k1] == #[trigger] groups[a2]@[k2]
        implies a1 == a2 && k1 == k2 by {
        lemma_place_unique(groups, n, g, a1, k1, a2, k2);
    }
}

/// Two places of the groups that hold the same index are the same place.
proof fn lemma_place_unique(
    groups: Seq<Vec<usize>>,
    n: nat,
    g: nat,
    a1: int,
    k1: int,
    a2: int,
    k2: int,
)
    requires
        g > 0,
        round_robin(groups, n, g),
        0 <= a1 < g && 0 <= k1 < groups[a1]@.len(),
        0 <= a2 < g && 0 <= k2 < groups[a2]@.len(),
        groups[a1]@[k1] == groups[a2]@[k2],
    ensures
        a1 == a2 && k1 == k2,
{
    let x = groups[a1]@[k1] as int;
    assert(x == k1 * g + a1);
    assert(x == k2 * g + a2);
    lemma_fundamental_div_mod_converse(x, g as int, k1, a1);
    lemma_fundamental_div_mod_converse(x, g as int, k2, a2);
}

/// Records that the suite's selection excluded a test.
pub fn record_ignored(results: &mut Results, tc: &StateTest) -> (r: Result<(), ResultInfo>)
    requires
        old(results).wf(),
    ensures
        final(results).wf(),
        old(results).has_key(test_key(*tc)) ==> r is Err,
        old(results).has_key(test_key(*tc)) ==> final(results).tests@ == old(results).tests@,
        !old(results).has_key(test_key(*tc)) ==> r is Ok,
        !old(results).has_key(test_key(*tc)) ==> final(results).tests@.drop_last() == old(results).tests@,
        !old(results).has_key(test_key(*tc)) ==> final(results).tests@.len() == old(results).tests@.len() + 1,
        !old(results).has_key(test_key(*tc)) ==> final(results).tests@.last().key() == test_key(*tc),
        !old(results).has_key(test_key(*tc)) ==> final(results).tests@.last().level == ResultLevel::Ignored,
        !old(results).has_key(test_key(*tc)) ==> final(results).tests@.last().details is IgnoredByConfig,
{
    let info = ResultInfo {
        test_id: tc.id.clone(),
        level: ResultLevel::Ignored,
        details: Detail::IgnoredByConfig,
        path: tc.path.clone(),
    };
    let r = results.insert(info);
    proof {
        if !old(results).has_key(test_key(*tc)) {
            assert(results.tests@.drop_last() =~= old(results).tests@);
        }
    }
    r
}

/// Records the outcome of one execution attempt of a test.
pub fn record_attempt(results: &mut Results, tc: &StateTest, attempt: Attempt) -> (r: Result<(), ResultInfo>)
    requires
        old(results).wf(),
    ensures
        final(results).wf(),
        old(results).has_key(test_key(*tc)) ==> r is Err,
        old(results).has_key(test_key(*tc)) ==> final(results).tests@ == old(results).tests@,
        !old(results).has_key(test_key(*tc)) ==> r is Ok,
        !old(results).has_key(test_key(*tc)) ==> final(results).tests@.drop_last() == old(results).tests@,
        !old(results).has_key(test_key(*tc)) ==> final(results).tests@.len() == old(results).tests@.len() + 1,
        !old(results).has_key(test_key(*tc)) ==> final(results).tests@.last().key() == test_key(*tc),
        !old(results).has_key(test_key(*tc)) ==> final(results).tests@.last().level == attempt.level(),
        !old(results).has_key(test_key(*tc)) ==> match attempt {
            Attempt::Finished(Ok(())) => final(results).tests@.last().details is Empty,
            Attempt::Finished(Err(e)) => match final(results).tests@.last().details {
                Detail::Error(d) => d@ == e@,
                _ => false,
            },
            Attempt::Faulted(msg) => match final(results).tests@.last().details {
                Detail::Fault(m) => m@ == msg@,
                _ => false,
            },
        },
{
    let (level, details) = attempt.outcome();
    let info = ResultInfo { test_id: tc.id.clone(), level, details, path: tc.path.clone() };
    let r = results.insert(info);
    proof {
        if !old(results).has_key(test_key(*tc)) {
            assert(results.tests@.drop_last() =~= old(results).tests@);
        }
    }
    r
}

} // verus!
