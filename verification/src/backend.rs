use vstd::prelude::*;

use crate::account::{dup_record, find_account, recs_alike, AccountRecord};
use crate::assoc::{assoc_of, lemma_assoc_first_match, lemma_assoc_none, lemma_assoc_push_new,
    lemma_assoc_push_other};
use crate::context::{
    effective_block_number, effective_block_timestamp, slot_override, Cheatcodes,
};
use crate::provider::{
    count_storage, lemma_count_storage_push, ProviderError, Query, RemoteProvider,
};
use crate::types::{Addr, W256};
use crate::vicinity::Vicinity;

verus! {

/// Where a storage read is answered from: a local override, the cache of
/// earlier fetches, or nowhere yet (a remote fetch is due).
#[derive(Clone, Copy, PartialEq, Eq, Structural, Debug)]
pub enum Lookup {
    Override(W256),
    Cached(W256),
    Miss,
}

/// A state backend that layers local overrides over a cache of remote state
/// fetched lazily at one pinned block. Writes land in the override layer
/// only; the cache is never invalidated within a run.
pub struct ForkedBackend<M: RemoteProvider> {
    pub cheats: Cheatcodes,
    pub slot_cache: Vec<((Addr, W256), W256)>,
    pub acct_cache: Vec<(Addr, AccountRecord)>,
    pub provider: M,
    pub pin_block: u64,
    pub vicinity: Vicinity,
}

impl<M: RemoteProvider> ForkedBackend<M> {
    /// The cached remote value for `(a, s)`, if one was fetched already.
    pub open spec fn cached_slot(&self, a: Addr, s: W256) -> Option<W256> {
        assoc_of(self.slot_cache@, (a, s))
    }

    /// The override record for account `a`, if any.
    pub open spec fn account_override(&self, a: Addr) -> Option<AccountRecord> {
        assoc_of(self.cheats.accounts@, a)
    }

    /// The cached remote record for account `a`, if one was fetched already.
    pub open spec fn cached_account(&self, a: Addr) -> Option<AccountRecord> {
        assoc_of(self.acct_cache@, a)
    }

    /// How a read of `(a, s)` is answered: override first, then cache, else a
    /// remote fetch is due.
    pub open spec fn lookup_model(&self, a: Addr, s: W256) -> Lookup {
        match slot_override(self.cheats, a, s) {
            Some(v) => Lookup::Override(v),
            None => match self.cached_slot(a, s) {
                Some(v) => Lookup::Cached(v),
                None => Lookup::Miss,
            },
        }
    }

    /// A fresh backend over a provider and a vicinity snapshot, with no
    /// overrides and an empty cache.
    pub fn new(provider: M, vicinity: Vicinity, pin_block: u64) -> (r: ForkedBackend<M>)
        ensures
            r.cheats.block_number == None::<W256>,
            r.cheats.block_timestamp == None::<W256>,
            r.cheats.accounts@.len() == 0,
            r.slot_cache@.len() == 0,
            r.acct_cache@.len() == 0,
            r.provider == provider,
            r.pin_block == pin_block,
            r.vicinity == vicinity,
    {
        ForkedBackend {
            cheats: Cheatcodes::new(),
            slot_cache: Vec::new(),
            acct_cache: Vec::new(),
            provider,
            pin_block,
            vicinity,
        }
    }

    /// The cached remote value for `(address, slot)`, if any.
    pub fn cached_lookup(&self, address: Addr, slot: W256) -> (r: Option<W256>)
        ensures
            r == self.cached_slot(address, slot),
    {
        let n: usize = self.slot_cache.len();
        let mut i: usize = 0;
        while i < n
            invariant
                i <= n,
                n == self.slot_cache@.len(),
                forall|j: int| 0 <= j < i ==> self.slot_cache@[j].0 != (address, slot),
            decreases n - i,
        {
            if self.slot_cache[i].0.0 == address && self.slot_cache[i].0.1 == slot {
                proof {
                    lemma_assoc_first_match(self.slot_cache@, i as int);
                }
                return Some(self.slot_cache[i].1);
            }
            i = i + 1;
        }
        proof {
            lemma_assoc_none(self.slot_cache@, (address, slot));
        }
        None
    }

    /// Reads one storage slot: a local override wins outright; else a cached
    /// fetch is served; else the provider is asked once at the pinned block
    /// and the answer is cached. Only the miss case touches the network, and
    /// a transport failure is surfaced, never read as "slot is zero".
    pub fn read_storage_slot(&mut self, address: Addr, slot: W256) -> (r: Result<
        W256,
        ProviderError,
    >)
        ensures
            old(self).lookup_model(address, slot) matches Lookup::Override(v) ==> r == Ok::<
                W256,
                ProviderError,
            >(v) && *final(self) == *old(self),
            old(self).lookup_model(address, slot) matches Lookup::Cached(v) ==> r == Ok::<
                W256,
                ProviderError,
            >(v) && *final(self) == *old(self),
            old(self).lookup_model(address, slot) is Miss ==> {
                &&& final(self).provider.queries() == old(self).provider.queries().push(
                    Query::Storage(address, slot),
                )
                &&& count_storage(final(self).provider.queries(), address, slot) == count_storage(
                    old(self).provider.queries(),
                    address,
                    slot,
                ) + 1
                &&& forall|a2: Addr, s2: W256|
                    !(a2 == address && s2 == slot) ==> count_storage(
                        final(self).provider.queries(),
                        a2,
                        s2,
                    ) == count_storage(old(self).provider.queries(), a2, s2)
                &&& final(self).cheats == old(self).cheats
                &&& final(self).acct_cache@ == old(self).acct_cache@
                &&& final(self).vicinity == old(self).vicinity
                &&& final(self).pin_block == old(self).pin_block
                &&& (r matches Ok(v) ==> final(self).slot_cache@ == old(self).slot_cache@.push(
                    ((address, slot), v),
                ))
                &&& (r is Err ==> final(self).slot_cache@ == old(self).slot_cache@)
            },
    {
        match self.cheats.get_storage_override(address, slot) {
            Some(v) => {
                return Ok(v);
            },
            None => {},
        }
        match self.cached_lookup(address, slot) {
            Some(v) => {
                return Ok(v);
            },
            None => {},
        }
        let pin: u64 = self.pin_block;
        let fetched: Result<W256, ProviderError> = self.provider.get_storage_at(
            address,
            slot,
            pin,
        );
        proof {
            lemma_count_storage_push(
                old(self).provider.queries(),
                Query::Storage(address, slot),
                address,
                slot,
            );
            assert forall|a2: Addr, s2: W256|
                !(a2 == address && s2 == slot) implies count_storage(
                self.provider.queries(),
                a2,
                s2,
            ) == count_storage(old(self).provider.queries(), a2, s2) by {
                lemma_count_storage_push(
                    old(self).provider.queries(),
                    Query::Storage(address, slot),
                    a2,
                    s2,
                );
            }
        }
        match fetched {
            Ok(v) => {
                self.slot_cache.push(((address, slot), v));
                Ok(v)
            },
            Err(e) => Err(e),
        }
    }

    /// Reads one account: an overridden record wins outright; else a cached
    /// fetch is served; else the provider is asked once at the pinned block.
    /// An account the chain does not know reads as the canonical empty
    /// record, and that fact is cached too, so known-empty addresses cost no
    /// further fetches. A transport failure is surfaced, never read as
    /// "account does not exist".
    pub fn read_account(&mut self, address: Addr) -> (r: Result<AccountRecord, ProviderError>)
        ensures
            old(self).account_override(address) matches Some(rec) ==> (r matches Ok(d)
                && recs_alike(rec, d) && *final(self) == *old(self)),
            old(self).account_override(address) is None ==> (old(self).cached_account(address)
                matches Some(rec) ==> (r matches Ok(d) && recs_alike(rec, d) && *final(self)
                == *old(self))),
            old(self).account_override(address) is None && old(self).cached_account(address)
                is None ==> {
                &&& final(self).provider.queries() == old(self).provider.queries().push(
                    Query::Account(address),
                )
                &&& final(self).cheats == old(self).cheats
                &&& final(self).slot_cache@ == old(self).slot_cache@
                &&& final(self).vicinity == old(self).vicinity
                &&& final(self).pin_block == old(self).pin_block
                &&& (r matches Ok(d) ==> {
                    &&& final(self).acct_cache@.len() == old(self).acct_cache@.len() + 1
                    &&& final(self).acct_cache@.drop_last() == old(self).acct_cache@
                    &&& final(self).acct_cache@.last().0 == address
                    &&& recs_alike(final(self).acct_cache@.last().1, d)
                    &&& final(self).cached_account(address) == Some(
                        final(self).acct_cache@.last().1,
                    )
                    &&& forall|a2: Addr|
                        a2 != address ==> final(self).cached_account(a2) == old(
                            self,
                        ).cached_account(a2)
                })
                &&& (r is Err ==> final(self).acct_cache@ == old(self).acct_cache@)
            },
    {
        match find_account(&self.cheats.accounts, address) {
            Some(i) => {
                return Ok(dup_record(&self.cheats.accounts[i].1));
            },
            None => {},
        }
        match find_account(&self.acct_cache, address) {
            Some(i) => {
                return Ok(dup_record(&self.acct_cache[i].1));
            },
            None => {},
        }
        let pin: u64 = self.pin_block;
        let fetched: Result<Option<AccountRecord>, ProviderError> = self.provider.get_account(
            address,
            pin,
        );
        match fetched {
            Ok(found) => {
                let rec: AccountRecord = match found {
                    Some(rec) => rec,
                    None => AccountRecord::empty(),
                };
                let d: AccountRecord = dup_record(&rec);
                self.acct_cache.push((address, rec));
                proof {
                    lemma_assoc_push_new(old(self).acct_cache@, self.acct_cache@.last());
                    assert(self.acct_cache@.drop_last() =~= old(self).acct_cache@);
                    assert forall|a2: Addr| a2 != address implies self.cached_account(a2) == old(
                        self,
                    ).cached_account(a2) by {
                        lemma_assoc_push_other(
                            old(self).acct_cache@,
                            self.acct_cache@.last(),
                            a2,
                        );
                    }
                }
                Ok(d)
            },
            Err(e) => Err(e),
        }
    }

    /// The block number execution sees: the override if set, else the snapshot's.
    pub fn block_number(&self) -> (r: W256)
        ensures
            r == effective_block_number(self.cheats, self.vicinity.block_number),
    {
        match self.cheats.block_number {
            Some(w) => w,
            None => self.vicinity.block_number,
        }
    }

    /// The timestamp execution sees: the override if set, else the snapshot's.
    pub fn block_timestamp(&self) -> (r: W256)
        ensures
            r == effective_block_timestamp(self.cheats, self.vicinity.block_timestamp),
    {
        match self.cheats.block_timestamp {
            Some(w) => w,
            None => self.vicinity.block_timestamp,
        }
    }

    /// The snapshot's gas price.
    pub fn gas_price(&self) -> (r: W256)
        ensures
            r == self.vicinity.gas_price,
    {
        self.vicinity.gas_price
    }

    /// The snapshot's chain id.
    pub fn chain_id(&self) -> (r: W256)
        ensures
            r == self.vicinity.chain_id,
    {
        self.vicinity.chain_id
    }

    /// Overrides the block number for every later read in this run.
    pub fn set_block_number(&mut self, w: W256)
        ensures
            final(self).cheats == crate::context::with_block_number(old(self).cheats, w),
            final(self).slot_cache@ == old(self).slot_cache@,
            final(self).acct_cache@ == old(self).acct_cache@,
            final(self).provider == old(self).provider,
            final(self).vicinity == old(self).vicinity,
            final(self).pin_block == old(self).pin_block,
    {
        self.cheats.set_block_number(w);
    }

    /// Overrides the block timestamp for every later read in this run.
    pub fn set_block_timestamp(&mut self, w: W256)
        ensures
            final(self).cheats == crate::context::with_block_timestamp(old(self).cheats, w),
            final(self).slot_cache@ == old(self).slot_cache@,
            final(self).acct_cache@ == old(self).acct_cache@,
            final(self).provider == old(self).provider,
            final(self).vicinity == old(self).vicinity,
            final(self).pin_block == old(self).pin_block,
    {
        self.cheats.set_block_timestamp(w);
    }

    /// Writes a storage slot directly into the override layer, creating the
    /// account record if absent; every other account's override, the touched
    /// account's balance, nonce and code, the caches and the remote side are
    /// all untouched.
    pub fn set_storage_slot(&mut self, address: Addr, slot: W256, value: W256)
        ensures
            slot_override(final(self).cheats, address, slot) == Some(value),
            forall|a2: Addr, s2: W256|
                !(a2 == address && s2 == slot) ==> slot_override(final(self).cheats, a2, s2)
                    == slot_override(old(self).cheats, a2, s2),
            forall|a2: Addr|
                a2 != address ==> final(self).account_override(a2) == old(self).account_override(
                    a2,
                ),
            (match old(self).account_override(address) {
                Some(rec) => (final(self).account_override(address) matches Some(rec2)
                    && rec2.balance == rec.balance && rec2.nonce == rec.nonce && rec2.code@
                    == rec.code@),
                None => (final(self).account_override(address) matches Some(rec2) && rec2.balance
                    == W256::zero_spec() && rec2.nonce == 0 && rec2.code@ == Seq::<u8>::empty() && (
                forall|t: W256| t != slot ==> assoc_of(rec2.storage@, t) == None::<W256>)),
            }),
            final(self).cheats.block_number == old(self).cheats.block_number,
            final(self).cheats.block_timestamp == old(self).cheats.block_timestamp,
            final(self).slot_cache@ == old(self).slot_cache@,
            final(self).acct_cache@ == old(self).acct_cache@,
            final(self).provider == old(self).provider,
            final(self).vicinity == old(self).vicinity,
            final(self).pin_block == old(self).pin_block,
    {
        self.cheats.set_account_storage(address, slot, value);
    }
}

/// The capability, added onto a state backend, of writing one storage slot
/// directly, bypassing contract semantics.
pub trait BackendExt: Sized {
    /// The override this backend records for `(address, slot)`.
    spec fn override_view(&self, address: Addr, slot: W256) -> Option<W256>;

    /// Writes the slot override, creating the account if absent; all other
    /// pairs keep their overrides.
    fn set_storage(&mut self, address: Addr, slot: W256, value: W256)
        ensures
            final(self).override_view(address, slot) == Some(value),
            forall|a2: Addr, s2: W256|
                !(a2 == address && s2 == slot) ==> final(self).override_view(a2, s2) == old(
                    self,
                ).override_view(a2, s2),
    ;
}

impl<M: RemoteProvider> BackendExt for ForkedBackend<M> {
    open spec fn override_view(&self, address: Addr, slot: W256) -> Option<W256> {
        slot_override(self.cheats, address, slot)
    }

    fn set_storage(&mut self, address: Addr, slot: W256, value: W256)
        // beyond the trait's promise: the write lands only in the override
        // layer, so neither cache is touched and no remote request is issued
        ensures
            final(self).slot_cache@ == old(self).slot_cache@,
            final(self).acct_cache@ == old(self).acct_cache@,
            final(self).provider == old(self).provider,
            final(self).vicinity == old(self).vicinity,
            final(self).pin_block == old(self).pin_block,
            final(self).cheats.block_number == old(self).cheats.block_number,
            final(self).cheats.block_timestamp == old(self).cheats.block_timestamp,
            forall|a2: Addr|
                a2 != address ==> final(self).account_override(a2) == old(self).account_override(
                    a2,
                ),
    {
        self.set_storage_slot(address, slot, value);
    }
}

/// An overridden slot is always answered from the override layer, whatever
/// the cache holds and whatever the remote chain would report.
pub proof fn lemma_override_always_wins<M: RemoteProvider>(
    b: ForkedBackend<M>,
    address: Addr,
    slot: W256,
    v: W256,
)
    requires
        slot_override(b.cheats, address, slot) == Some(v),
    ensures
        b.lookup_model(address, slot) == Lookup::Override(v),
{
}

/// A pair that is cached (and not overridden) is answered locally: a read of
/// it is no longer a miss, so it triggers no further remote fetch.
pub proof fn lemma_cached_read_is_local<M: RemoteProvider>(
    b: ForkedBackend<M>,
    address: Addr,
    slot: W256,
    v: W256,
)
    requires
        b.cached_slot(address, slot) == Some(v),
    ensures
        !(b.lookup_model(address, slot) is Miss),
        b.lookup_model(address, slot) == (match slot_override(b.cheats, address, slot) {
            Some(w) => Lookup::Override(w),
            None => Lookup::Cached(v),
        }),
{
}

/// After a miss is answered with `v`, the pair is cached with `v`: the next
/// read of the same pair is local.
pub proof fn lemma_fetch_fills_cache<M: RemoteProvider>(
    before: ForkedBackend<M>,
    after: ForkedBackend<M>,
    address: Addr,
    slot: W256,
    v: W256,
)
    requires
        before.lookup_model(address, slot) is Miss,
        after.cheats == before.cheats,
        after.slot_cache@ == before.slot_cache@.push(((address, slot), v)),
    ensures
        after.cached_slot(address, slot) == Some(v),
        after.lookup_model(address, slot) == Lookup::Cached(v),
        forall|a2: Addr, s2: W256|
            !(a2 == address && s2 == slot) ==> after.cached_slot(a2, s2) == before.cached_slot(
                a2,
                s2,
            ),
{
    lemma_assoc_push_new(before.slot_cache@, ((address, slot), v));
    assert forall|a2: Addr, s2: W256|
        !(a2 == address && s2 == slot) implies after.cached_slot(a2, s2) == before.cached_slot(
        a2,
        s2,
    ) by {
        lemma_assoc_push_other(before.slot_cache@, ((address, slot), v), (a2, s2));
    }
}

} // verus!
