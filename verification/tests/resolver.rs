use evm_adapters::executor::{derive_create_address, CreateScheme};
use evm_adapters::provider::{BlockInfo, Query, ScriptedProvider};
use evm_adapters::types::{w256_to_bytes, word_at, Addr, W256};
use evm_adapters::vicinity::{assemble_vicinity, vicinity, VicinityError};
use tiny_keccak::Hasher;

fn keccak(data: &[u8]) -> [u8; 32] {
    let mut k = tiny_keccak::Keccak::v256();
    k.update(data);
    let mut out = [0u8; 32];
    k.finalize(&mut out);
    out
}

fn w_u64(x: u64) -> W256 {
    W256 { hi: 0, lo: x as u128 }
}

fn block_at(n: u64) -> BlockInfo {
    BlockInfo {
        number: n,
        coinbase: Addr { hi: 0xc0ffee, lo: 0x11 },
        difficulty: w_u64(131072),
        gas_limit: w_u64(30_000_000),
        timestamp: w_u64(1_650_000_000),
    }
}

#[test]
fn pinned_vicinity_never_queries_head() {
    let mut p = ScriptedProvider::new(900, w_u64(55), w_u64(1));
    p.script_block(5, block_at(5));
    let v = vicinity(&mut p, Some(5)).expect("vicinity");
    assert_eq!(
        p.served,
        vec![Query::GasPrice, Query::ChainId, Query::Block(5)],
    );
    assert_eq!(v.block_number, w_u64(5));
    assert_eq!(v.block_coinbase, Addr { hi: 0xc0ffee, lo: 0x11 });
    assert_eq!(v.block_difficulty, w_u64(131072));
    assert_eq!(v.block_gas_limit, w_u64(30_000_000));
    assert_eq!(v.block_timestamp, w_u64(1_650_000_000));
    assert_eq!(v.gas_price, w_u64(55));
    assert_eq!(v.chain_id, w_u64(1));
    assert_eq!(v.origin, Addr { hi: 0, lo: 0 });
    assert!(v.block_hashes.is_empty());
}

#[test]
fn unpinned_vicinity_queries_head_exactly_once() {
    let mut p = ScriptedProvider::new(9, w_u64(2), w_u64(3));
    p.script_block(9, block_at(9));
    let v = vicinity(&mut p, None).expect("vicinity");
    assert_eq!(
        p.served,
        vec![Query::Head, Query::GasPrice, Query::ChainId, Query::Block(9)],
    );
    assert_eq!(v.block_number, w_u64(9));
}

#[test]
fn snapshot_is_assembled_from_the_fetched_values() {
    let v = assemble_vicinity(Some(block_at(7)), w_u64(12), w_u64(34)).expect("vicinity");
    assert_eq!(v.block_number, w_u64(7));
    assert_eq!(v.block_coinbase, Addr { hi: 0xc0ffee, lo: 0x11 });
    assert_eq!(v.gas_price, w_u64(12));
    assert_eq!(v.chain_id, w_u64(34));
    assert_eq!(v.origin, Addr { hi: 0, lo: 0 });
    assert!(v.block_hashes.is_empty());
    let r = assemble_vicinity(None, w_u64(12), w_u64(34));
    assert!(matches!(r, Err(VicinityError::BlockNotFound)));
}

#[test]
fn missing_block_is_fatal_to_vicinity() {
    let mut p = ScriptedProvider::new(9, w_u64(2), w_u64(3));
    let r = vicinity(&mut p, Some(4));
    assert!(matches!(r, Err(VicinityError::BlockNotFound)));
}

#[test]
fn provider_failure_is_surfaced_by_vicinity() {
    let mut p = ScriptedProvider::new(9, w_u64(2), w_u64(3));
    p.fail_all = true;
    let r = vicinity(&mut p, Some(4));
    assert!(matches!(r, Err(VicinityError::Provider(_))));
}

#[test]
fn fixed_create_scheme_is_identity() {
    let a = Addr { hi: 5, lo: 6 };
    assert_eq!(derive_create_address(&CreateScheme::Fixed(a)), a);
}

#[test]
fn create2_derivation_matches_known_vector() {
    // deployer zero, salt zero, init code of one zero byte
    let code_hash = word_at(&keccak(&[0x00u8]).to_vec(), 0);
    let scheme = CreateScheme::Create2 {
        caller: Addr { hi: 0, lo: 0 },
        code_hash,
        salt: W256 { hi: 0, lo: 0 },
    };
    let derived = derive_create_address(&scheme);
    assert_eq!(derived.hi, 0x4D1A2e2b);
    assert_eq!(derived.lo, 0xB4F88F0250f26Ffff098B0b30B26BF38);
}

#[test]
fn legacy_derivation_matches_known_vectors() {
    let caller = Addr { hi: 0x6ac7ea33, lo: 0xf8831ea9dcc53393aaa88b25a785dbf0 };
    let d0 = derive_create_address(&CreateScheme::Legacy { caller, nonce: 0 });
    assert_eq!(d0.hi, 0xcd234a47);
    assert_eq!(d0.lo, 0x1b72ba2f1ccf0a70fcaba648a5eecd8d);
    let d1 = derive_create_address(&CreateScheme::Legacy { caller, nonce: 1 });
    assert_eq!(d1.hi, 0x343c43a3);
    assert_eq!(d1.lo, 0x7d37dff08ae8c4a11544c718abb4fcf8);
}

#[test]
fn word_byte_codec_round_trips() {
    let w = W256 { hi: 0x0102030405060708090a0b0c0d0e0f10, lo: 0x1112131415161718191a1b1c1d1e1f20 };
    let bytes = w256_to_bytes(&w);
    assert_eq!(bytes.len(), 32);
    assert_eq!(bytes[0], 0x01);
    assert_eq!(bytes[31], 0x20);
    assert_eq!(word_at(&bytes, 0), w);
}
