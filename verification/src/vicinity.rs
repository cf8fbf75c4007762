use vstd::prelude::*;

use crate::provider::{
    count_head, lemma_count_head_push, BlockInfo, ProviderError, Query, RemoteProvider,
};
use crate::types::{Addr, W256};

verus! {

/// The immutable snapshot of chain-wide execution parameters, built once
/// before execution begins and never re-resolved mid-run.
#[derive(Clone, Debug)]
pub struct Vicinity {
    pub origin: Addr,
    pub chain_id: W256,
    pub block_hashes: Vec<W256>,
    pub block_number: W256,
    pub block_coinbase: Addr,
    pub block_difficulty: W256,
    pub block_gas_limit: W256,
    pub block_timestamp: W256,
    pub gas_price: W256,
}

/// Why vicinity construction failed: the provider failed, or the resolved
/// block height is not on the chain.
#[derive(Clone, Copy, PartialEq, Eq, Structural, Debug)]
pub enum VicinityError {
    Provider(ProviderError),
    BlockNotFound,
}

/// Builds the snapshot from the fetched values, field for field: the block's
/// own metadata, the fetched prices, a zero origin and no block hashes. A
/// height the chain does not know is fatal.
pub fn assemble_vicinity(block_found: Option<BlockInfo>, gas_price: W256, chain_id: W256) -> (r:
    Result<Vicinity, VicinityError>)
    ensures
        block_found matches Some(b) ==> (r matches Ok(v) && v.origin == Addr::zero_spec()
            && v.block_hashes@ == Seq::<W256>::empty() && v.block_number == W256::from_u64_spec(
            b.number,
        ) && v.block_coinbase == b.coinbase && v.block_difficulty == b.difficulty
            && v.block_gas_limit == b.gas_limit && v.block_timestamp == b.timestamp && v.gas_price
            == gas_price && v.chain_id == chain_id),
        block_found is None ==> r == Err::<Vicinity, VicinityError>(VicinityError::BlockNotFound),
{
    match block_found {
        Some(block) => Ok(
            Vicinity {
                origin: Addr::zero(),
                chain_id,
                block_hashes: Vec::new(),
                block_number: W256::from_u64(block.number),
                block_coinbase: block.coinbase,
                block_difficulty: block.difficulty,
                block_gas_limit: block.gas_limit,
                block_timestamp: block.timestamp,
                gas_price,
            },
        ),
        None => Err(VicinityError::BlockNotFound),
    }
}

/// Builds the vicinity snapshot. An explicit `pin_block` is taken as the
/// target height and no current-head query is ever issued; without a pin the
/// current head is queried exactly once. Gas price, chain id and the block
/// metadata at the target height are then fetched, each at most once, and the
/// snapshot is assembled from them by `assemble_vicinity`; a missing block is
/// fatal.
pub fn vicinity<M: RemoteProvider>(provider: &mut M, pin_block: Option<u64>) -> (r: Result<
    Vicinity,
    VicinityError,
>)
    ensures
        pin_block is Some ==> count_head(final(provider).queries()) == count_head(
            old(provider).queries(),
        ),
        count_head(final(provider).queries()) <= count_head(old(provider).queries()) + 1,
        pin_block matches Some(n) ==> {
            ||| final(provider).queries() == old(provider).queries() + seq![Query::GasPrice]
            ||| final(provider).queries() == old(provider).queries() + seq![
                Query::GasPrice,
                Query::ChainId,
            ]
            ||| final(provider).queries() == old(provider).queries() + seq![
                Query::GasPrice,
                Query::ChainId,
                Query::Block(n),
            ]
        },
        pin_block is None ==> {
            ||| final(provider).queries() == old(provider).queries() + seq![Query::Head]
            ||| final(provider).queries() == old(provider).queries() + seq![
                Query::Head,
                Query::GasPrice,
            ]
            ||| final(provider).queries() == old(provider).queries() + seq![
                Query::Head,
                Query::GasPrice,
                Query::ChainId,
            ]
            ||| exists|h: u64|
                final(provider).queries() == old(provider).queries() + seq![
                    Query::Head,
                    Query::GasPrice,
                    Query::ChainId,
                    Query::Block(h),
                ]
        },
        pin_block matches Some(n) ==> (r is Ok ==> final(provider).queries() == old(
            provider,
        ).queries() + seq![Query::GasPrice, Query::ChainId, Query::Block(n)]),
        r is Ok && pin_block is None ==> exists|h: u64|
            final(provider).queries() == old(provider).queries() + seq![
                Query::Head,
                Query::GasPrice,
                Query::ChainId,
                Query::Block(h),
            ],
        r matches Ok(v) ==> v.origin == Addr::zero_spec() && v.block_hashes@
            == Seq::<W256>::empty(),
{
    let ghost qs0 = provider.queries();
    let block_number: u64 = match pin_block {
        Some(n) => n,
        None => {
            match provider.get_block_number() {
                Ok(h) => h,
                Err(e) => {
                    proof {
                        lemma_count_head_push(qs0, Query::Head);
                        assert(provider.queries() =~= qs0 + seq![Query::Head]);
                    }
                    return Err(VicinityError::Provider(e));
                },
            }
        },
    };
    let ghost qs1 = provider.queries();
    proof {
        if pin_block is Some {
            assert(qs1 == qs0);
        } else {
            lemma_count_head_push(qs0, Query::Head);
            assert(qs1 =~= qs0 + seq![Query::Head]);
        }
    }
    let gas_price: W256 = match provider.get_gas_price() {
        Ok(v) => v,
        Err(e) => {
            proof {
                lemma_count_head_push(qs1, Query::GasPrice);
                assert(provider.queries() =~= qs1 + seq![Query::GasPrice]);
                if pin_block is None {
                    assert(provider.queries() =~= qs0 + seq![Query::Head, Query::GasPrice]);
                }
            }
            return Err(VicinityError::Provider(e));
        },
    };
    proof {
        lemma_count_head_push(qs1, Query::GasPrice);
    }
    let chain_id: W256 = match provider.get_chain_id() {
        Ok(v) => v,
        Err(e) => {
            proof {
                lemma_count_head_push(qs1.push(Query::GasPrice), Query::ChainId);
                assert(provider.queries() =~= qs1 + seq![Query::GasPrice, Query::ChainId]);
                if pin_block is None {
                    assert(provider.queries() =~= qs0 + seq![
                        Query::Head,
                        Query::GasPrice,
                        Query::ChainId,
                    ]);
                }
            }
            return Err(VicinityError::Provider(e));
        },
    };
    proof {
        lemma_count_head_push(qs1.push(Query::GasPrice), Query::ChainId);
    }
    let block_found: Option<BlockInfo> = match provider.get_block(block_number) {
        Ok(b) => b,
        Err(e) => {
            proof {
                lemma_count_head_push(
                    qs1.push(Query::GasPrice).push(Query::ChainId),
                    Query::Block(block_number),
                );
                assert(provider.queries() =~= qs1 + seq![
                    Query::GasPrice,
                    Query::ChainId,
                    Query::Block(block_number),
                ]);
                if pin_block is None {
                    assert(provider.queries() =~= qs0 + seq![
                        Query::Head,
                        Query::GasPrice,
                        Query::ChainId,
                        Query::Block(block_number),
                    ]);
                }
            }
            return Err(VicinityError::Provider(e));
        },
    };
    proof {
        lemma_count_head_push(
            qs1.push(Query::GasPrice).push(Query::ChainId),
            Query::Block(block_number),
        );
        assert(provider.queries() =~= qs1 + seq![
            Query::GasPrice,
            Query::ChainId,
            Query::Block(block_number),
        ]);
        if pin_block is None {
            assert(provider.queries() =~= qs0 + seq![
                Query::Head,
                Query::GasPrice,
                Query::ChainId,
                Query::Block(block_number),
            ]);
        }
    }
    assemble_vicinity(block_found, gas_price, chain_id)
}

} // verus!
