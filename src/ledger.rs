//! The mapping from accounts to their stake records.
use vstd::prelude::*;

use crate::address::Address;
use crate::detail::{StakeDetail, StakeModel};

verus! {

/// The records written so far, latest last; a later write for an account
/// replaces what an earlier one said.
pub open spec fn map_of(writes: Seq<(Address, StakeDetail)>) -> Map<Seq<u8>, StakeModel>
    decreases writes.len(),
{
    if writes.len() == 0 {
        Map::empty()
    } else {
        map_of(writes.drop_last()).insert(writes.last().0@, writes.last().1@)
    }
}

/// Writes after position `i` that name another key leave the key's entry as
/// it stood after the first `i` writes.
proof fn lemma_map_of_prefix(writes: Seq<(Address, StakeDetail)>, i: int, key: Seq<u8>)
    requires
        0 <= i <= writes.len(),
        forall|j: int| i <= j < writes.len() ==> writes[j].0@ != key,
    ensures
        map_of(writes).contains_key(key) == map_of(writes.take(i)).contains_key(key),
        map_of(writes).contains_key(key) ==> map_of(writes)[key] == map_of(writes.take(i))[key],
    decreases writes.len(),
{
    if writes.len() == i {
        assert(writes.take(i) =~= writes);
    } else {
        let rest = writes.drop_last();
        lemma_map_of_prefix(rest, i, key);
        assert(rest.take(i) =~= writes.take(i));
    }
}

/// A store of one record per account; unconditional overwrite, last write
/// wins.
pub struct StakeLedger {
    writes: Vec<(Address, StakeDetail)>,
}

impl View for StakeLedger {
    type V = Map<Seq<u8>, StakeModel>;

    closed spec fn view(&self) -> Map<Seq<u8>, StakeModel> {
        map_of(self.writes@)
    }
}

impl StakeLedger {
    /// A ledger that holds no record.
    pub fn new() -> (r: StakeLedger)
        ensures
            r@ == Map::<Seq<u8>, StakeModel>::empty(),
    {
        StakeLedger { writes: Vec::new() }
    }

    /// The record stored for `account`, if one ever was.
    pub fn get(&self, account: &Address) -> (r: Option<StakeDetail>)
        ensures
            match r {
                Some(d) => self@.contains_key(account@) && d@ == self@[account@],
                None => !self@.contains_key(account@),
            },
    {
        let mut i: usize = self.writes.len();
        while i > 0
            invariant
                i <= self.writes.len(),
                forall|j: int| i <= j < self.writes@.len() ==> self.writes@[j].0@ != account@,
            decreases i,
        {
            if self.writes[i - 1].0.same(account) {
                proof {
                    lemma_map_of_prefix(self.writes@, i as int, account@);
                    assert(self.writes@.take(i as int).drop_last() =~= self.writes@.take(
                        i - 1,
                    ));
                }
                return Some(self.writes[i - 1].1.duplicate());
            }
            i = i - 1;
        }
        proof {
            lemma_map_of_prefix(self.writes@, 0, account@);
        }
        None
    }

    /// Store `record` for `account`, replacing what was there.
    pub fn put(&mut self, account: Address, record: StakeDetail)
        ensures
            final(self)@ == old(self)@.insert(account@, record@),
    {
        let ghost before = self.writes@;
        self.writes.push((account, record));
        proof {
            assert(self.writes@.drop_last() =~= before);
        }
    }
}

} // verus!
