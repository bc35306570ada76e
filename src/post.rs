use vstd::prelude::*;
use crate::error::{ErrorView, StateTestError};
use crate::fixture::AccountMatch;
use crate::word::{Address, Word};

verus! {

/// An account as the witness's state database holds it after execution.
#[derive(Clone, Debug)]
pub struct DbAccount {
    pub nonce: Word,
    pub balance: Word,
    pub code_hash: Word,
    pub storage: Vec<(Word, Word)>,
}

/// The post-execution state: accounts by address and code by hash.
#[derive(Clone, Debug)]
pub struct StateDb {
    pub accounts: Vec<(Address, DbAccount)>,
    pub codes: Vec<(Word, Vec<u8>)>,
}

/// The first index of `accs` that holds address `a`, if any.
pub open spec fn account_index(accs: Seq<(Address, DbAccount)>, a: Address) -> Option<int> {
    if exists|i: int|
        0 <= i < accs.len() && accs[i].0.bytes@ == a.bytes@ && forall|j: int|
            0 <= j < i ==> accs[j].0.bytes@ != a.bytes@ {
        Some(
            choose|i: int|
                0 <= i < accs.len() && accs[i].0.bytes@ == a.bytes@ && forall|j: int|
                    0 <= j < i ==> accs[j].0.bytes@ != a.bytes@,
        )
    } else {
        None
    }
}

/// The first index of `codes` keyed by hash `h`, if any.
pub open spec fn code_index(codes: Seq<(Word, Vec<u8>)>, h: Word) -> Option<int> {
    if exists|i: int|
        0 <= i < codes.len() && codes[i].0 == h && forall|j: int|
            0 <= j < i ==> codes[j].0 != h {
        Some(
            choose|i: int|
                0 <= i < codes.len() && codes[i].0 == h && forall|j: int|
                    0 <= j < i ==> codes[j].0 != h,
        )
    } else {
        None
    }
}

/// The first index of `storage` that holds `slot`, if any.
pub open spec fn slot_index(storage: Seq<(Word, Word)>, slot: Word) -> Option<int> {
    if exists|i: int|
        0 <= i < storage.len() && storage[i].0 == slot && forall|j: int|
            0 <= j < i ==> storage[j].0 != slot {
        Some(
            choose|i: int|
                0 <= i < storage.len() && storage[i].0 == slot && forall|j: int|
                    0 <= j < i ==> storage[j].0 != slot,
        )
    } else {
        None
    }
}

/// The value of `slot` in a storage listing; an unset slot reads as zero.
pub open spec fn slot_value(storage: Seq<(Word, Word)>, slot: Word) -> Word {
    match slot_index(storage, slot) {
        Some(i) => storage[i].1,
        None => Word { limbs0: 0, limbs1: 0, limbs2: 0, limbs3: 0 },
    }
}

proof fn lemma_slot_index(storage: Seq<(Word, Word)>, slot: Word, i: int)
    requires
        0 <= i < storage.len(),
        storage[i].0 == slot,
        forall|j: int| 0 <= j < i ==> storage[j].0 != slot,
    ensures
        slot_index(storage, slot) == Some(i),
{
    let c = slot_index(storage, slot).unwrap();
    if c < i {
        assert(storage[c].0 != slot);
    } else if c > i {
        assert(storage[i].0 != slot);
    }
}

proof fn lemma_account_index(accs: Seq<(Address, DbAccount)>, a: Address, i: int)
    requires
        0 <= i < accs.len(),
        accs[i].0.bytes@ == a.bytes@,
        forall|j: int| 0 <= j < i ==> accs[j].0.bytes@ != a.bytes@,
    ensures
        account_index(accs, a) == Some(i),
{
    let c = account_index(accs, a).unwrap();
    if c < i {
        assert(accs[c].0.bytes@ != a.bytes@);
    } else if c > i {
        assert(accs[i].0.bytes@ != a.bytes@);
    }
}

proof fn lemma_code_index(codes: Seq<(Word, Vec<u8>)>, h: Word, i: int)
    requires
        0 <= i < codes.len(),
        codes[i].0 == h,
        forall|j: int| 0 <= j < i ==> codes[j].0 != h,
    ensures
        code_index(codes, h) == Some(i),
{
    let c = code_index(codes, h).unwrap();
    if c < i {
        assert(codes[c].0 != h);
    } else if c > i {
        assert(codes[i].0 != h);
    }
}

/// The first storage expectation among the first `n` that the actual storage
/// does not meet.
pub open spec fn storage_error_upto(
    actual: Seq<(Word, Word)>,
    expected: Seq<(Word, Word)>,
    n: nat,
) -> Option<ErrorView>
    decreases n,
{
    if n == 0 {
        None
    } else {
        match storage_error_upto(actual, expected, (n - 1) as nat) {
            Some(e) => Some(e),
            None => {
                let (slot, want) = expected[n - 1];
                let got = slot_value(actual, slot);
                if want != got {
                    Some(ErrorView::StorageMismatch { slot, expected: want, found: got })
                } else {
                    None
                }
            },
        }
    }
}

impl StateDb {
    /// Every non-zero code hash of an account has its code in the database.
    pub open spec fn wf(&self) -> bool {
        forall|i: int|
            0 <= i < self.accounts@.len() && (#[trigger] self.accounts@[i]).1.code_hash.value()
                != 0 ==> code_index(self.codes@, self.accounts@[i].1.code_hash).is_some()
    }

    /// The balance, nonce, code hash and storage at `a`; an absent account
    /// reads as all zero.
    pub open spec fn account_fields(&self, a: Address) -> (Word, Word, Word, Seq<(Word, Word)>) {
        match account_index(self.accounts@, a) {
            Some(i) => {
                let acc = self.accounts@[i].1;
                (acc.balance, acc.nonce, acc.code_hash, acc.storage@)
            },
            None => {
                let z = Word { limbs0: 0, limbs1: 0, limbs2: 0, limbs3: 0 };
                (z, z, z, Seq::empty())
            },
        }
    }

    /// The code for a code hash; the zero hash stands for empty code.
    pub open spec fn code_for(&self, h: Word) -> Seq<u8> {
        if h.value() == 0 {
            Seq::empty()
        } else {
            match code_index(self.codes@, h) {
                Some(i) => self.codes@[i].1@,
                None => Seq::empty(),
            }
        }
    }

    /// The first mismatch of one account against its expectation, in the order
    /// balance, nonce, code, then storage slots in declared order.
    pub open spec fn account_error(&self, a: Address, e: AccountMatch) -> Option<ErrorView> {
        let (balance, nonce, code_hash, storage) = self.account_fields(a);
        if e.balance.is_some() && e.balance.unwrap() != balance {
            Some(ErrorView::BalanceMismatch { expected: e.balance.unwrap(), found: balance })
        } else if e.nonce.is_some() && e.nonce.unwrap() != nonce {
            Some(ErrorView::NonceMismatch { expected: e.nonce.unwrap(), found: nonce })
        } else if e.code.is_some() && e.code.unwrap()@ != self.code_for(code_hash) {
            Some(
                ErrorView::CodeMismatch {
                    expected: e.code.unwrap()@,
                    found: self.code_for(code_hash),
                },
            )
        } else {
            storage_error_upto(storage, e.storage@, e.storage@.len())
        }
    }

    /// The first mismatch among the first `n` expected accounts.
    pub open spec fn post_error_upto(&self, post: Seq<(Address, AccountMatch)>, n: nat) -> Option<
        ErrorView,
    >
        decreases n,
    {
        if n == 0 {
            None
        } else {
            match self.post_error_upto(post, (n - 1) as nat) {
                Some(e) => Some(e),
                None => self.account_error(post[n - 1].0, post[n - 1].1),
            }
        }
    }

    /// The first mismatch of the whole expected post-state.
    pub open spec fn post_error(&self, post: Seq<(Address, AccountMatch)>) -> Option<ErrorView> {
        self.post_error_upto(post, post.len())
    }

    pub fn well_formed(&self) -> (r: bool)
        ensures
            r == self.wf(),
    {
        let mut i: usize = 0;
        while i < self.accounts.len()
            invariant
                i <= self.accounts@.len(),
                forall|k: int|
                    0 <= k < i && (#[trigger] self.accounts@[k]).1.code_hash.value() != 0
                        ==> code_index(self.codes@, self.accounts@[k].1.code_hash).is_some(),
            decreases self.accounts@.len() - i,
        {
            let h = self.accounts[i].1.code_hash;
            if !h.is_zero() && find_code(&self.codes, &h).is_none() {
                return false;
            }
            i = i + 1;
        }
        true
    }
}

fn find_account(accs: &Vec<(Address, DbAccount)>, a: &Address) -> (r: Option<usize>)
    ensures
        match r {
            Some(i) => account_index(accs@, *a) == Some(i as int),
            None => account_index(accs@, *a).is_none(),
        },
{
    let mut i: usize = 0;
    while i < accs.len()
        invariant
            i <= accs@.len(),
            forall|j: int| 0 <= j < i ==> accs@[j].0.bytes@ != a.bytes@,
        decreases accs@.len() - i,
    {
        if accs[i].0.same(a) {
            proof {
                lemma_account_index(accs@, *a, i as int);
            }
            return Some(i);
        }
        i = i + 1;
    }
    None
}

fn find_code(codes: &Vec<(Word, Vec<u8>)>, h: &Word) -> (r: Option<usize>)
    ensures
        match r {
            Some(i) => code_index(codes@, *h) == Some(i as int),
            None => code_index(codes@, *h).is_none(),
        },
{
    let mut i: usize = 0;
    while i < codes.len()
        invariant
            i <= codes@.len(),
            forall|j: int| 0 <= j < i ==> codes@[j].0 != *h,
        decreases codes@.len() - i,
    {
        if codes[i].0.same(h) {
            proof {
                lemma_code_index(codes@, *h, i as int);
            }
            return Some(i);
        }
        i = i + 1;
    }
    None
}

fn read_slot(storage: &Vec<(Word, Word)>, slot: &Word) -> (r: Word)
    ensures
        r == slot_value(storage@, *slot),
{
    let mut i: usize = 0;
    while i < storage.len()
        invariant
            i <= storage@.len(),
            forall|j: int| 0 <= j < i ==> storage@[j].0 != *slot,
        decreases storage@.len() - i,
    {
        if storage[i].0.same(slot) {
            proof {
                lemma_slot_index(storage@, *slot, i as int);
            }
            return storage[i].1;
        }
        i = i + 1;
    }
    Word::zero()
}

fn check_storage(actual: &Vec<(Word, Word)>, expected: &Vec<(Word, Word)>) -> (r: Result<
    (),
    StateTestError,
>)
    ensures
        match r {
            Ok(()) => storage_error_upto(actual@, expected@, expected@.len()).is_none(),
            Err(e) => storage_error_upto(actual@, expected@, expected@.len()) == Some(e@),
        },
{
    let mut i: usize = 0;
    while i < expected.len()
        invariant
            i <= expected@.len(),
            storage_error_upto(actual@, expected@, i as nat).is_none(),
        decreases expected@.len() - i,
    {
        let slot = expected[i].0;
        let want = expected[i].1;
        let got = read_slot(actual, &slot);
        if !want.same(&got) {
            proof {
                lemma_storage_error_stays(actual@, expected@, (i + 1) as nat, expected@.len());
            }
            return Err(StateTestError::StorageMismatch { slot, expected: want, found: got });
        }
        i = i + 1;
    }
    Ok(())
}

proof fn lemma_storage_error_stays(
    actual: Seq<(Word, Word)>,
    expected: Seq<(Word, Word)>,
    m: nat,
    n: nat,
)
    requires
        m <= n,
        storage_error_upto(actual, expected, m).is_some(),
    ensures
        storage_error_upto(actual, expected, n) == storage_error_upto(actual, expected, m),
    decreases n - m,
{
    if m < n {
        lemma_storage_error_stays(actual, expected, m, (n - 1) as nat);
    }
}

proof fn lemma_post_error_stays(db: &StateDb, post: Seq<(Address, AccountMatch)>, m: nat, n: nat)
    requires
        m <= n,
        db.post_error_upto(post, m).is_some(),
    ensures
        db.post_error_upto(post, n) == db.post_error_upto(post, m),
    decreases n - m,
{
    if m < n {
        lemma_post_error_stays(db, post, m, (n - 1) as nat);
    }
}

fn check_account(db: &StateDb, a: &Address, e: &AccountMatch) -> (r: Result<(), StateTestError>)
    requires
        db.wf(),
    ensures
        match r {
            Ok(()) => db.account_error(*a, *e).is_none(),
            Err(err) => db.account_error(*a, *e) == Some(err@),
        },
{
    let empty: Vec<(Word, Word)> = Vec::new();
    let idx = find_account(&db.accounts, a);
    let (balance, nonce, code_hash, storage) = match idx {
        Some(i) => {
            let acc = &db.accounts[i].1;
            (acc.balance, acc.nonce, acc.code_hash, &acc.storage)
        },
        None => (Word::zero(), Word::zero(), Word::zero(), &empty),
    };
    assert(db.account_fields(*a) == (balance, nonce, code_hash, storage@));
    if let Some(want) = e.balance {
        if !want.same(&balance) {
            return Err(StateTestError::BalanceMismatch { expected: want, found: balance });
        }
    }
    if let Some(want) = e.nonce {
        if !want.same(&nonce) {
            return Err(StateTestError::NonceMismatch { expected: want, found: nonce });
        }
    }
    if let Some(want) = &e.code {
        let found: Vec<u8> = if code_hash.is_zero() {
            Vec::new()
        } else {
            match find_code(&db.codes, &code_hash) {
                Some(k) => db.codes[k].1.clone(),
                None => {
                    assert(false);
                    Vec::new()
                },
            }
        };
        assert(found@ == db.code_for(code_hash));
        if !bytes_equal(want, &found) {
            return Err(StateTestError::CodeMismatch { expected: want.clone(), found });
        }
    }
    check_storage(storage, &e.storage)
}

fn bytes_equal(a: &Vec<u8>, b: &Vec<u8>) -> (r: bool)
    ensures
        r == (a@ == b@),
{
    if a.len() != b.len() {
        return false;
    }
    let mut i: usize = 0;
    while i < a.len()
        invariant
            i <= a@.len(),
            a@.len() == b@.len(),
            forall|j: int| 0 <= j < i ==> a@[j] == b@[j],
        decreases a@.len() - i,
    {
        if a[i] != b[i] {
            return false;
        }
        i = i + 1;
    }
    assert(a@ =~= b@);
    true
}

/// Compares the state database with the expected post-state, account by
/// account in declared order, and reports the first mismatch.
pub fn check_post(db: &StateDb, post: &Vec<(Address, AccountMatch)>) -> (r: Result<
    (),
    StateTestError,
>)
    requires
        db.wf(),
    ensures
        match r {
            Ok(()) => db.post_error(post@).is_none(),
            Err(e) => db.post_error(post@) == Some(e@),
        },
{
    let mut i: usize = 0;
    while i < post.len()
        invariant
            i <= post@.len(),
            db.wf(),
            db.post_error_upto(post@, i as nat).is_none(),
        decreases post@.len() - i,
    {
        let res = check_account(db, &post[i].0, &post[i].1);
        match res {
            Ok(()) => {},
            Err(e) => {
                proof {
                    lemma_post_error_stays(db, post@, (i + 1) as nat, post@.len());
                }
                return Err(e);
            },
        }
        i = i + 1;
    }
    Ok(())
}

} // verus!
