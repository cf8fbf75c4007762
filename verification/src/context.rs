use vstd::prelude::*;

use crate::account::{lookup_slot, store_slot, AccountRecord};
use crate::assoc::{
    assoc_of, lemma_assoc_first_match, lemma_assoc_none, lemma_assoc_push_new,
    lemma_assoc_push_other, lemma_assoc_update_other,
};
use crate::types::{Addr, W256};

verus! {

/// The context store: overridable block number and timestamp, and the map of
/// locally-overridden accounts. Absence of an override means "use the
/// vicinity default"; overridden accounts always win over fetched state.
#[derive(Clone, Debug)]
pub struct Cheatcodes {
    pub block_number: Option<W256>,
    pub block_timestamp: Option<W256>,
    pub accounts: Vec<(Addr, AccountRecord)>,
}

/// The slot override recorded for `(a, s)`, if any: the account must be
/// overridden and carry a binding for the slot.
pub open spec fn slot_override(c: Cheatcodes, a: Addr, s: W256) -> Option<W256> {
    match assoc_of(c.accounts@, a) {
        Some(rec) => assoc_of(rec.storage@, s),
        None => None,
    }
}

/// The context after a block-number override.
pub open spec fn with_block_number(c: Cheatcodes, w: W256) -> Cheatcodes {
    Cheatcodes { block_number: Some(w), ..c }
}

/// The context after a block-timestamp override.
pub open spec fn with_block_timestamp(c: Cheatcodes, w: W256) -> Cheatcodes {
    Cheatcodes { block_timestamp: Some(w), ..c }
}

/// The block number execution sees: the override if present, else the default.
pub open spec fn effective_block_number(c: Cheatcodes, vic_default: W256) -> W256 {
    match c.block_number {
        Some(w) => w,
        None => vic_default,
    }
}

/// The timestamp execution sees: the override if present, else the default.
pub open spec fn effective_block_timestamp(c: Cheatcodes, vic_default: W256) -> W256 {
    match c.block_timestamp {
        Some(w) => w,
        None => vic_default,
    }
}

/// Of two successive block-number overrides only the later one is in effect,
/// whatever default the vicinity would supply.
pub proof fn lemma_latest_block_number_wins(c: Cheatcodes, a: W256, b: W256, vic_default: W256)
    ensures
        effective_block_number(with_block_number(with_block_number(c, a), b), vic_default) == b,
        effective_block_timestamp(with_block_number(with_block_number(c, a), b), vic_default)
            == effective_block_timestamp(c, vic_default),
{
}

/// Of two successive timestamp overrides only the later one is in effect,
/// whatever default the vicinity would supply.
pub proof fn lemma_latest_block_timestamp_wins(c: Cheatcodes, a: W256, b: W256, vic_default: W256)
    ensures
        effective_block_timestamp(with_block_timestamp(with_block_timestamp(c, a), b), vic_default)
            == b,
        effective_block_number(with_block_timestamp(with_block_timestamp(c, a), b), vic_default)
            == effective_block_number(c, vic_default),
{
}

impl Default for Cheatcodes {
    /// A context with no overrides at all.
    fn default() -> (r: Cheatcodes)
        ensures
            r.block_number == None::<W256>,
            r.block_timestamp == None::<W256>,
            r.accounts@ == Seq::<(Addr, AccountRecord)>::empty(),
    {
        Cheatcodes::new()
    }
}

impl Cheatcodes {
    /// A context with no overrides at all.
    pub fn new() -> (r: Cheatcodes)
        ensures
            r.block_number == None::<W256>,
            r.block_timestamp == None::<W256>,
            r.accounts@ == Seq::<(Addr, AccountRecord)>::empty(),
    {
        Cheatcodes { block_number: None, block_timestamp: None, accounts: Vec::new() }
    }

    /// Overrides the block number; every later read within the run sees it.
    pub fn set_block_number(&mut self, w: W256)
        ensures
            *final(self) == with_block_number(*old(self), w),
    {
        self.block_number = Some(w);
    }

    /// Overrides the block timestamp; every later read within the run sees it.
    pub fn set_block_timestamp(&mut self, w: W256)
        ensures
            *final(self) == with_block_timestamp(*old(self), w),
    {
        self.block_timestamp = Some(w);
    }

    /// The storage override recorded for `(address, slot)`, if any.
    pub fn get_storage_override(&self, address: Addr, slot: W256) -> (r: Option<W256>)
        ensures
            r == slot_override(*self, address, slot),
    {
        let n: usize = self.accounts.len();
        let mut i: usize = 0;
        while i < n
            invariant
                i <= n,
                n == self.accounts@.len(),
                forall|j: int| 0 <= j < i ==> self.accounts@[j].0 != address,
            decreases n - i,
        {
            if self.accounts[i].0 == address {
                proof {
                    lemma_assoc_first_match(self.accounts@, i as int);
                }
                return lookup_slot(&self.accounts[i].1.storage, slot);
            }
            i = i + 1;
        }
        proof {
            lemma_assoc_none(self.accounts@, address);
        }
        None
    }

    /// Writes a storage slot override for `address`, creating the account
    /// record if it is absent; every other account's record, every other
    /// `(address, slot)` pair, the touched account's balance, nonce and code,
    /// and both block overrides are untouched. A created record is the
    /// canonical empty account holding only this slot.
    pub fn set_account_storage(&mut self, address: Addr, slot: W256, value: W256)
        ensures
            slot_override(*final(self), address, slot) == Some(value),
            forall|a2: Addr, s2: W256|
                !(a2 == address && s2 == slot) ==> slot_override(*final(self), a2, s2)
                    == slot_override(*old(self), a2, s2),
            forall|a2: Addr|
                a2 != address ==> assoc_of(final(self).accounts@, a2) == assoc_of(
                    old(self).accounts@,
                    a2,
                ),
            (match assoc_of(old(self).accounts@, address) {
                Some(rec) => (assoc_of(final(self).accounts@, address) matches Some(rec2)
                    && rec2.balance == rec.balance && rec2.nonce == rec.nonce && rec2.code@
                    == rec.code@),
                None => (assoc_of(final(self).accounts@, address) matches Some(rec2)
                    && rec2.balance == W256::zero_spec() && rec2.nonce == 0 && rec2.code@
                    == Seq::<u8>::empty() && (forall|t: W256|
                    t != slot ==> assoc_of(rec2.storage@, t) == None::<W256>)),
            }),
            final(self).block_number == old(self).block_number,
            final(self).block_timestamp == old(self).block_timestamp,
    {
        let n: usize = self.accounts.len();
        let mut i: usize = 0;
        while i < n
            invariant
                i <= n,
                n == self.accounts@.len(),
                *self == *old(self),
                forall|j: int| 0 <= j < i ==> self.accounts@[j].0 != address,
            decreases n - i,
        {
            if self.accounts[i].0 == address {
                let entry: (Addr, AccountRecord) = self.accounts.remove(i);
                let mut rec: AccountRecord = entry.1;
                let ghost rec_old = rec;
                store_slot(&mut rec.storage, slot, value);
                let ghost rec2 = rec;
                self.accounts.insert(i, (address, rec));
                proof {
                    let es0 = old(self).accounts@;
                    let es1 = self.accounts@;
                    assert(es1 =~= es0.update(i as int, (address, rec2)));
                    lemma_assoc_first_match(es1, i as int);
                    lemma_assoc_first_match(es0, i as int);
                    assert(assoc_of(es1, address) == Some(rec2));
                    assert(assoc_of(es0, address) == Some(rec_old));
                    assert forall|a2: Addr| a2 != address implies assoc_of(es1, a2) == assoc_of(
                        es0,
                        a2,
                    ) by {
                        lemma_assoc_update_other(es0, i as int, (address, rec2), a2);
                    }
                    assert forall|a2: Addr, s2: W256|
                        !(a2 == address && s2 == slot) implies slot_override(*self, a2, s2)
                        == slot_override(*old(self), a2, s2) by {
                        if a2 == address {
                            assert(assoc_of(rec2.storage@, s2) == assoc_of(rec_old.storage@, s2));
                        } else {
                            assert(assoc_of(es1, a2) == assoc_of(es0, a2));
                        }
                    }
                }
                return ;
            }
            i = i + 1;
        }
        let mut rec: AccountRecord = AccountRecord::empty();
        store_slot(&mut rec.storage, slot, value);
        let ghost rec2 = rec;
        self.accounts.push((address, rec));
        proof {
            let es0 = old(self).accounts@;
            let es1 = self.accounts@;
            lemma_assoc_none(es0, address);
            lemma_assoc_push_new(es0, (address, rec2));
            assert(assoc_of(es1, address) == Some(rec2));
            assert forall|t: W256| t != slot implies assoc_of(rec2.storage@, t)
                == None::<W256> by {
                assert(assoc_of(Seq::<(W256, W256)>::empty(), t) == None::<W256>);
            }
            assert forall|a2: Addr| a2 != address implies assoc_of(es1, a2) == assoc_of(
                es0,
                a2,
            ) by {
                lemma_assoc_push_other(es0, (address, rec2), a2);
            }
            assert forall|a2: Addr, s2: W256|
                !(a2 == address && s2 == slot) implies slot_override(*self, a2, s2)
                == slot_override(*old(self), a2, s2) by {
                if a2 == address {
                    assert(assoc_of(rec2.storage@, s2) == None::<W256>);
                } else {
                    assert(assoc_of(es1, a2) == assoc_of(es0, a2));
                }
            }
        }
    }
}

} // verus!
