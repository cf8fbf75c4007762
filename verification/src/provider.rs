use vstd::prelude::*;

use crate::account::AccountRecord;
use crate::assoc::assoc_of;
use crate::types::{Addr, W256};

verus! {

/// One read operation issued to the remote chain-data provider.
#[derive(Clone, Copy, PartialEq, Eq, Structural, Debug)]
pub enum Query {
    /// Current chain head height.
    Head,
    /// Current gas price.
    GasPrice,
    /// Chain id.
    ChainId,
    /// Block metadata at the given height.
    Block(u64),
    /// One storage slot of one account, at the pinned block.
    Storage(Addr, W256),
    /// One account's balance, nonce and code, at the pinned block.
    Account(Addr),
}

/// A transport or provider failure; its code is opaque to the core.
#[derive(Clone, Copy, PartialEq, Eq, Structural, Debug)]
pub struct ProviderError {
    pub code: u64,
}

/// Block metadata the vicinity needs, as resolved by the provider.
#[derive(Clone, Copy, PartialEq, Eq, Structural, Debug)]
pub struct BlockInfo {
    pub number: u64,
    pub coinbase: Addr,
    pub difficulty: W256,
    pub gas_limit: W256,
    pub timestamp: W256,
}

/// The number of current-head queries in a query log.
pub open spec fn count_head(qs: Seq<Query>) -> int
    decreases qs.len(),
{
    if qs.len() == 0 {
        0
    } else {
        count_head(qs.drop_last()) + if qs.last() is Head {
            1int
        } else {
            0int
        }
    }
}

/// The number of storage queries for one `(address, slot)` pair in a query log.
pub open spec fn count_storage(qs: Seq<Query>, a: Addr, s: W256) -> int
    decreases qs.len(),
{
    if qs.len() == 0 {
        0
    } else {
        count_storage(qs.drop_last(), a, s) + if qs.last() == Query::Storage(a, s) {
            1int
        } else {
            0int
        }
    }
}

/// Appending a query adds one to the head count exactly when it is a head query.
pub proof fn lemma_count_head_push(qs: Seq<Query>, q: Query)
    ensures
        count_head(qs.push(q)) == count_head(qs) + if q is Head {
            1int
        } else {
            0int
        },
{
    assert(qs.push(q).drop_last() =~= qs);
}

/// Appending a query adds one to a pair's storage count exactly when it asks
/// for that pair.
pub proof fn lemma_count_storage_push(qs: Seq<Query>, q: Query, a: Addr, s: W256)
    ensures
        count_storage(qs.push(q), a, s) == count_storage(qs, a, s) + if q == Query::Storage(a, s) {
            1int
        } else {
            0int
        },
{
    assert(qs.push(q).drop_last() =~= qs);
}

/// The read interface onto remote chain data. Every implementation logs, in
/// order, each query it issues; nothing is promised of the values returned,
/// since they come from the network.
pub trait RemoteProvider: Sized {
    /// The queries issued so far, in order.
    spec fn queries(&self) -> Seq<Query>;

    /// Asks for the current chain head height.
    fn get_block_number(&mut self) -> (r: Result<u64, ProviderError>)
        ensures
            final(self).queries() == old(self).queries().push(Query::Head),
    ;

    /// Asks for the current gas price.
    fn get_gas_price(&mut self) -> (r: Result<W256, ProviderError>)
        ensures
            final(self).queries() == old(self).queries().push(Query::GasPrice),
    ;

    /// Asks for the chain id.
    fn get_chain_id(&mut self) -> (r: Result<W256, ProviderError>)
        ensures
            final(self).queries() == old(self).queries().push(Query::ChainId),
    ;

    /// Asks for the metadata of the block at `number`; `Ok(None)` means the
    /// chain has no such block.
    fn get_block(&mut self, number: u64) -> (r: Result<Option<BlockInfo>, ProviderError>)
        ensures
            final(self).queries() == old(self).queries().push(Query::Block(number)),
    ;

    /// Asks for one storage slot of `address` at the pinned block height.
    fn get_storage_at(&mut self, address: Addr, slot: W256, block: u64) -> (r: Result<
        W256,
        ProviderError,
    >)
        ensures
            final(self).queries() == old(self).queries().push(Query::Storage(address, slot)),
    ;

    /// Asks for `address`'s account data at the pinned block height;
    /// `Ok(None)` means the chain knows no such account.
    fn get_account(&mut self, address: Addr, block: u64) -> (r: Result<
        Option<AccountRecord>,
        ProviderError,
    >)
        ensures
            final(self).queries() == old(self).queries().push(Query::Account(address)),
    ;
}

/// A provider that replays scripted chain data, for tests and local drivers.
/// Its query log is executable, so a caller can observe how many reads a run
/// issued.
#[derive(Clone, Debug)]
pub struct ScriptedProvider {
    pub head: u64,
    pub gas_price: W256,
    pub chain_id: W256,
    pub blocks: Vec<(u64, BlockInfo)>,
    pub storage: Vec<((Addr, W256), W256)>,
    pub accounts: Vec<(Addr, AccountRecord)>,
    pub served: Vec<Query>,
    /// When set, every query is answered with a transport failure.
    pub fail_all: bool,
}

impl ScriptedProvider {
    /// A provider with the given head and prices and nothing else scripted.
    pub fn new(head: u64, gas_price: W256, chain_id: W256) -> (r: ScriptedProvider)
        ensures
            r.head == head,
            r.gas_price == gas_price,
            r.chain_id == chain_id,
            r.blocks@ == Seq::<(u64, BlockInfo)>::empty(),
            r.storage@ == Seq::<((Addr, W256), W256)>::empty(),
            r.accounts@ == Seq::<(Addr, AccountRecord)>::empty(),
            r.served@ == Seq::<Query>::empty(),
    {
        ScriptedProvider {
            head,
            gas_price,
            chain_id,
            blocks: Vec::new(),
            storage: Vec::new(),
            accounts: Vec::new(),
            served: Vec::new(),
            fail_all: false,
        }
    }

    /// Scripts the metadata served for one block height.
    pub fn script_block(&mut self, number: u64, info: BlockInfo)
        ensures
            final(self).blocks@ == old(self).blocks@.push((number, info)),
            final(self).storage@ == old(self).storage@,
            final(self).accounts@ == old(self).accounts@,
            final(self).served@ == old(self).served@,
            final(self).head == old(self).head,
            final(self).gas_price == old(self).gas_price,
            final(self).chain_id == old(self).chain_id,
    {
        self.blocks.push((number, info));
    }

    /// Scripts the value served for one storage slot.
    pub fn script_storage(&mut self, address: Addr, slot: W256, value: W256)
        ensures
            final(self).storage@ == old(self).storage@.push(((address, slot), value)),
            final(self).blocks@ == old(self).blocks@,
            final(self).accounts@ == old(self).accounts@,
            final(self).served@ == old(self).served@,
            final(self).head == old(self).head,
            final(self).gas_price == old(self).gas_price,
            final(self).chain_id == old(self).chain_id,
    {
        self.storage.push(((address, slot), value));
    }

    /// How many queries this provider has served.
    pub fn served_count(&self) -> (r: usize)
        ensures
            r == self.served@.len(),
    {
        self.served.len()
    }
}

impl RemoteProvider for ScriptedProvider {
    open spec fn queries(&self) -> Seq<Query> {
        self.served@
    }

    fn get_block_number(&mut self) -> (r: Result<u64, ProviderError>) {
        self.served.push(Query::Head);
        if self.fail_all {
            return Err(ProviderError { code: 1 });
        }
        Ok(self.head)
    }

    fn get_gas_price(&mut self) -> (r: Result<W256, ProviderError>) {
        self.served.push(Query::GasPrice);
        if self.fail_all {
            return Err(ProviderError { code: 1 });
        }
        Ok(self.gas_price)
    }

    fn get_chain_id(&mut self) -> (r: Result<W256, ProviderError>) {
        self.served.push(Query::ChainId);
        if self.fail_all {
            return Err(ProviderError { code: 1 });
        }
        Ok(self.chain_id)
    }

    fn get_block(&mut self, number: u64) -> (r: Result<Option<BlockInfo>, ProviderError>) {
        self.served.push(Query::Block(number));
        if self.fail_all {
            return Err(ProviderError { code: 1 });
        }
        let n: usize = self.blocks.len();
        let mut i: usize = 0;
        while i < n
            invariant
                i <= n,
                n == self.blocks@.len(),
                self.blocks@ == old(self).blocks@,
                self.served@ == old(self).served@.push(Query::Block(number)),
            decreases n - i,
        {
            if self.blocks[i].0 == number {
                return Ok(Some(self.blocks[i].1));
            }
            i = i + 1;
        }
        Ok(None)
    }

    fn get_storage_at(&mut self, address: Addr, slot: W256, block: u64) -> (r: Result<
        W256,
        ProviderError,
    >) {
        self.served.push(Query::Storage(address, slot));
        if self.fail_all {
            return Err(ProviderError { code: 1 });
        }
        let n: usize = self.storage.len();
        let mut i: usize = 0;
        while i < n
            invariant
                i <= n,
                n == self.storage@.len(),
                self.storage@ == old(self).storage@,
                self.served@ == old(self).served@.push(Query::Storage(address, slot)),
            decreases n - i,
        {
            if self.storage[i].0.0 == address && self.storage[i].0.1 == slot {
                return Ok(self.storage[i].1);
            }
            i = i + 1;
        }
        // an unscripted slot reads as zero, as an absent slot does on chain
        Ok(W256::zero())
    }

    fn get_account(&mut self, address: Addr, block: u64) -> (r: Result<
        Option<AccountRecord>,
        ProviderError,
    >) {
        self.served.push(Query::Account(address));
        if self.fail_all {
            return Err(ProviderError { code: 1 });
        }
        let n: usize = self.accounts.len();
        let mut i: usize = 0;
        while i < n
            invariant
                i <= n,
                n == self.accounts@.len(),
                self.accounts@ == old(self).accounts@,
                self.served@ == old(self).served@.push(Query::Account(address)),
            decreases n - i,
        {
            if self.accounts[i].0 == address {
                let code: Vec<u8> = self.accounts[i].1.code.clone();
                let storage: Vec<(W256, W256)> = self.accounts[i].1.storage.clone();
                return Ok(
                    Some(
                        AccountRecord {
                            balance: self.accounts[i].1.balance,
                            nonce: self.accounts[i].1.nonce,
                            code,
                            storage,
                        },
                    ),
                );
            }
            i = i + 1;
        }
        Ok(None)
    }
}

} // verus!
