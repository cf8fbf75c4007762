use vstd::prelude::*;

use crate::assoc::{
    assoc_of, lemma_assoc_first_match, lemma_assoc_none, lemma_assoc_push_new,
    lemma_assoc_push_other, lemma_assoc_update_other,
};
use crate::types::{Addr, W256};

verus! {

/// One account's locally-held state: balance, nonce, code, and a storage
/// association from slot to value.
#[derive(Clone, Debug)]
pub struct AccountRecord {
    pub balance: W256,
    pub nonce: u64,
    pub code: Vec<u8>,
    pub storage: Vec<(W256, W256)>,
}

impl AccountRecord {
    /// The canonical empty account: zero balance, zero nonce, no code, no storage.
    pub fn empty() -> (r: AccountRecord)
        ensures
            r.balance == W256::zero_spec(),
            r.nonce == 0,
            r.code@ == Seq::<u8>::empty(),
            r.storage@ == Seq::<(W256, W256)>::empty(),
    {
        AccountRecord { balance: W256::zero(), nonce: 0, code: Vec::new(), storage: Vec::new() }
    }
}

/// Whether two account records hold the same data.
pub open spec fn recs_alike(x: AccountRecord, y: AccountRecord) -> bool {
    &&& x.balance == y.balance
    &&& x.nonce == y.nonce
    &&& x.code@ == y.code@
    &&& x.storage@ == y.storage@
}

/// Copies an account record, data for data.
pub fn dup_record(r: &AccountRecord) -> (d: AccountRecord)
    ensures
        recs_alike(*r, d),
{
    let code: Vec<u8> = crate::abi::copy_range(&r.code, 0, r.code.len());
    proof {
        assert(code@ =~= r.code@);
    }
    let n: usize = r.storage.len();
    let mut storage: Vec<(W256, W256)> = Vec::new();
    let mut i: usize = 0;
    while i < n
        invariant
            i <= n,
            n == r.storage@.len(),
            storage@.len() == i,
            forall|j: int| 0 <= j < i ==> storage@[j] == r.storage@[j],
        decreases n - i,
    {
        storage.push((r.storage[i].0, r.storage[i].1));
        i = i + 1;
    }
    proof {
        assert(storage@ =~= r.storage@);
    }
    AccountRecord { balance: r.balance, nonce: r.nonce, code, storage }
}

/// The index of the first entry for `address` in an account association, if any.
pub fn find_account(es: &Vec<(Addr, AccountRecord)>, address: Addr) -> (r: Option<usize>)
    ensures
        r matches Some(i) ==> i < es@.len() && es@[i as int].0 == address && assoc_of(es@, address)
            == Some(es@[i as int].1),
        r is None ==> assoc_of(es@, address) is None,
{
    let n: usize = es.len();
    let mut i: usize = 0;
    while i < n
        invariant
            i <= n,
            n == es@.len(),
            forall|j: int| 0 <= j < i ==> es@[j].0 != address,
        decreases n - i,
    {
        if es[i].0 == address {
            proof {
                lemma_assoc_first_match(es@, i as int);
            }
            return Some(i);
        }
        i = i + 1;
    }
    proof {
        lemma_assoc_none(es@, address);
    }
    None
}

/// Looks a slot up in a storage association.
pub fn lookup_slot(st: &Vec<(W256, W256)>, slot: W256) -> (r: Option<W256>)
    ensures
        r == assoc_of(st@, slot),
{
    let n: usize = st.len();
    let mut i: usize = 0;
    while i < n
        invariant
            i <= n,
            n == st@.len(),
            forall|j: int| 0 <= j < i ==> st@[j].0 != slot,
        decreases n - i,
    {
        if st[i].0 == slot {
            proof {
                lemma_assoc_first_match(st@, i as int);
            }
            return Some(st[i].1);
        }
        i = i + 1;
    }
    proof {
        lemma_assoc_none(st@, slot);
    }
    None
}

/// Binds `slot` to `value` in a storage association, replacing the first entry
/// for `slot` or appending one; every other slot keeps its binding.
pub fn store_slot(st: &mut Vec<(W256, W256)>, slot: W256, value: W256)
    ensures
        assoc_of(final(st)@, slot) == Some(value),
        forall|t: W256| t != slot ==> assoc_of(final(st)@, t) == assoc_of(old(st)@, t),
{
    let n: usize = st.len();
    let mut i: usize = 0;
    while i < n
        invariant
            i <= n,
            n == st@.len(),
            st@ == old(st)@,
            forall|j: int| 0 <= j < i ==> st@[j].0 != slot,
        decreases n - i,
    {
        if st[i].0 == slot {
            let _old_entry: (W256, W256) = st.remove(i);
            st.insert(i, (slot, value));
            proof {
                assert(st@ =~= old(st)@.update(i as int, (slot, value)));
                lemma_assoc_first_match(st@, i as int);
                assert forall|t: W256| t != slot implies assoc_of(st@, t) == assoc_of(
                    old(st)@,
                    t,
                ) by {
                    lemma_assoc_update_other(old(st)@, i as int, (slot, value), t);
                }
            }
            return ;
        }
        i = i + 1;
    }
    st.push((slot, value));
    proof {
        lemma_assoc_none(old(st)@, slot);
        lemma_assoc_push_new(old(st)@, (slot, value));
        assert forall|t: W256| t != slot implies assoc_of(st@, t) == assoc_of(old(st)@, t) by {
            lemma_assoc_push_other(old(st)@, (slot, value), t);
        }
    }
}

} // verus!
