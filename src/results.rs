use vstd::prelude::*;
use crate::outcome::{Detail, ResultLevel};

verus! {

/// One recorded outcome, keyed by test id and fixture path.
#[derive(Debug)]
pub struct ResultInfo {
    pub test_id: String,
    pub level: ResultLevel,
    pub details: Detail,
    pub path: String,
}

impl ResultInfo {
    pub open spec fn key(&self) -> (Seq<char>, Seq<char>) {
        (self.test_id@, self.path@)
    }
}

/// The append-only store of outcomes; each key occurs at most once.
#[derive(Debug)]
pub struct Results {
    pub tests: Vec<ResultInfo>,
}

impl Results {
    pub open spec fn wf(&self) -> bool {
        forall|i: int, j: int|
            0 <= i < j < self.tests@.len() ==> (#[trigger] self.tests@[i]).key()
                != (#[trigger] self.tests@[j]).key()
    }

    pub open spec fn has_key(&self, k: (Seq<char>, Seq<char>)) -> bool {
        exists|i: int| 0 <= i < self.tests@.len() && (#[trigger] self.tests@[i]).key() == k
    }

    /// The store's entries after an insert of `info`: unchanged when its key
    /// is present, else with `info` appended.
    pub open spec fn inserted(&self, info: ResultInfo) -> Seq<ResultInfo> {
        if self.has_key(info.key()) {
            self.tests@
        } else {
            self.tests@.push(info)
        }
    }

    pub fn new() -> (r: Results)
        ensures
            r.wf(),
            r.tests@.len() == 0,
    {
        Results { tests: Vec::new() }
    }

    /// Whether an outcome for `test_id` at `path` is already recorded.
    pub fn contains(&self, test_id: &String, path: &String) -> (r: bool)
        ensures
            r == self.has_key((test_id@, path@)),
    {
        let mut i: usize = 0;
        while i < self.tests.len()
            invariant
                i <= self.tests@.len(),
                forall|j: int|
                    0 <= j < i ==> (#[trigger] self.tests@[j]).key() != (test_id@, path@),
            decreases self.tests@.len() - i,
        {
            let t = &self.tests[i];
            if t.test_id == *test_id && t.path == *path {
                assert(self.tests@[i as int].key() == (test_id@, path@));
                return true;
            }
            i = i + 1;
        }
        false
    }

    /// Records an outcome under a key not yet present. An outcome already
    /// recorded is never replaced: a second one for its key is handed back.
    pub fn insert(&mut self, info: ResultInfo) -> (r: Result<(), ResultInfo>)
        requires
            old(self).wf(),
        ensures
            final(self).wf(),
            final(self).tests@ == old(self).inserted(info),
            old(self).has_key(info.key()) ==> r == Err::<(), ResultInfo>(info),
            old(self).has_key(info.key()) ==> final(self).tests@ == old(self).tests@,
            !old(self).has_key(info.key()) ==> r is Ok,
            !old(self).has_key(info.key()) ==> final(self).tests@ == old(self).tests@.push(info),
    {
        if self.contains(&info.test_id, &info.path) {
            return Err(info);
        }
        self.tests.push(info);
        Ok(())
    }
}

} // verus!
