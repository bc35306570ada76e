use vstd::prelude::*;
use crate::word::{Address, Word};

verus! {

/// An account of the pre-state, as the fixture declares it.
#[derive(Clone, Debug)]
pub struct PreAccount {
    pub address: Address,
    pub nonce: Word,
    pub balance: Word,
    pub code: Vec<u8>,
    pub storage: Vec<(Word, Word)>,
}

/// What the fixture expects of one account after the transaction; a field
/// that is `None` (or a slot that is not listed) is not checked.
#[derive(Clone, Debug)]
pub struct AccountMatch {
    pub balance: Option<Word>,
    pub nonce: Option<Word>,
    pub code: Option<Vec<u8>>,
    pub storage: Vec<(Word, Word)>,
}

/// The block environment of a fixture.
#[derive(Clone, Copy, Debug)]
pub struct Env {
    pub current_coinbase: Address,
    pub current_timestamp: u64,
    pub current_number: u64,
    pub current_difficulty: Word,
    pub current_gas_limit: u64,
    pub current_base_fee: Word,
    pub previous_hash: Word,
}

/// One state-transition fixture: pre-state, one transaction, and either an
/// expected post-state or the expectation that the transaction fails.
#[derive(Clone, Debug)]
pub struct StateTest {
    pub path: String,
    pub id: String,
    pub env: Env,
    pub secret_key: Vec<u8>,
    pub from: Address,
    pub to: Option<Address>,
    pub gas_limit: u64,
    pub gas_price: Word,
    pub nonce: Word,
    pub value: Word,
    pub data: Vec<u8>,
    pub pre: Vec<PreAccount>,
    pub result: Vec<(Address, AccountMatch)>,
    pub exception: bool,
}

/// The limits and the selection of a suite.
#[derive(Clone, Debug)]
pub struct TestSuite {
    pub id: String,
    pub paths: Vec<String>,
    pub max_steps: u64,
    pub max_gas: u64,
    pub allow_tests: Vec<String>,
    pub ignore_tests: Vec<String>,
}

/// How the witness is proved after it is built.
#[derive(Clone, Copy, Debug, Default)]
pub struct CircuitsConfig {
    pub super_circuit: bool,
    pub verbose: bool,
}

pub open spec fn names_contain(names: Seq<String>, id: Seq<char>) -> bool {
    exists|i: int| 0 <= i < names.len() && #[trigger] names[i]@ == id
}

impl TestSuite {
    /// A non-empty allow list selects exactly the tests it names; otherwise
    /// every test not on the ignore list is selected.
    pub open spec fn spec_allowed(&self, id: Seq<char>) -> bool {
        if self.allow_tests@.len() > 0 {
            names_contain(self.allow_tests@, id)
        } else {
            !names_contain(self.ignore_tests@, id)
        }
    }

    pub fn allowed(&self, id: &String) -> (r: bool)
        ensures
            r == self.spec_allowed(id@),
    {
        if self.allow_tests.len() > 0 {
            contains_name(&self.allow_tests, id)
        } else {
            !contains_name(&self.ignore_tests, id)
        }
    }
}

pub(crate) fn contains_name(names: &Vec<String>, id: &String) -> (r: bool)
    ensures
        r == names_contain(names@, id@),
{
    let mut i: usize = 0;
    while i < names.len()
        invariant
            i <= names@.len(),
            forall|j: int| 0 <= j < i ==> names@[j]@ != id@,
        decreases names@.len() - i,
    {
        if names[i] == *id {
            return true;
        }
        i = i + 1;
    }
    false
}

} // verus!
