use evm_adapters::account::AccountRecord;
use evm_adapters::backend::{BackendExt, ForkedBackend};
use evm_adapters::executor::{Config, ExitReason, PlainExecutor, SputnikExecutor};
use evm_adapters::logs::{decode_event, LogCollector, LogEvent};
use evm_adapters::provider::{Query, ScriptedProvider};
use evm_adapters::types::{push_w256_bytes, word_at, Addr, W256};
use evm_adapters::vicinity::Vicinity;
use tiny_keccak::Hasher;

fn keccak(data: &[u8]) -> [u8; 32] {
    let mut k = tiny_keccak::Keccak::v256();
    k.update(data);
    let mut out = [0u8; 32];
    k.finalize(&mut out);
    out
}

fn topic(sig: &str) -> W256 {
    let d = keccak(sig.as_bytes()).to_vec();
    word_at(&d, 0)
}

fn w_u64(x: u64) -> W256 {
    W256 { hi: 0, lo: x as u128 }
}

fn padded(bytes: &[u8]) -> Vec<u8> {
    let mut out = bytes.to_vec();
    let pad = (32 - bytes.len() % 32) % 32;
    out.extend_from_slice(&vec![0u8; pad]);
    out
}

fn named_uint_data(key: &str, val: u64) -> Vec<u8> {
    let mut d: Vec<u8> = Vec::new();
    push_w256_bytes(&mut d, &w_u64(64));
    push_w256_bytes(&mut d, &w_u64(val));
    push_w256_bytes(&mut d, &w_u64(key.len() as u64));
    d.extend_from_slice(&padded(key.as_bytes()));
    d
}

#[test]
fn named_uint_event_decodes_to_key_and_value() {
    let topics = vec![topic("log_named_uint(string,uint256)")];
    let data = named_uint_data("x", 42);
    match decode_event(&topics, &data) {
        Some(LogEvent::NamedUint(key, val)) => {
            assert_eq!(key, b"x".to_vec());
            assert_eq!(val, w_u64(42));
        },
        other => panic!("unexpected decode: {:?}", other),
    }
}

#[test]
fn unrecognized_event_is_silently_ignored() {
    let topics = vec![topic("Transfer(address,address,uint256)")];
    let data = named_uint_data("x", 42);
    assert!(decode_event(&topics, &data).is_none());
    let mut c = LogCollector::new();
    c.record_raw(&topics, &data);
    assert!(c.events.is_empty());
}

#[test]
fn collector_accumulates_duplicates_until_cleared() {
    let mut c = LogCollector::new();
    c.clear();
    // a run that emits no events leaves the collector empty
    assert!(c.events.is_empty());
    let topics = vec![topic("log_named_uint(string,uint256)")];
    let data = named_uint_data("x", 42);
    c.record_raw(&topics, &data);
    assert_eq!(c.events.len(), 1);
    assert_eq!(c.events[0], LogEvent::NamedUint(b"x".to_vec(), w_u64(42)));
    // a second identical run without a clear keeps both entries
    c.record_raw(&topics, &data);
    assert_eq!(c.events.len(), 2);
    assert_eq!(c.events[1], LogEvent::NamedUint(b"x".to_vec(), w_u64(42)));
    c.clear();
    assert!(c.events.is_empty());
}

#[test]
fn plain_string_log_decodes() {
    let topics = vec![topic("log(string)")];
    let mut data: Vec<u8> = Vec::new();
    push_w256_bytes(&mut data, &w_u64(32));
    push_w256_bytes(&mut data, &w_u64(5));
    data.extend_from_slice(&padded(b"hello"));
    match decode_event(&topics, &data) {
        Some(LogEvent::Log(s)) => assert_eq!(s, b"hello".to_vec()),
        other => panic!("unexpected decode: {:?}", other),
    }
}

#[test]
fn log_uint_and_named_decimal_decode() {
    let topics = vec![topic("log_uint(uint256)")];
    let mut data: Vec<u8> = Vec::new();
    push_w256_bytes(&mut data, &w_u64(9));
    match decode_event(&topics, &data) {
        Some(LogEvent::LogUint(w)) => assert_eq!(w, w_u64(9)),
        other => panic!("unexpected decode: {:?}", other),
    }
    let topics2 = vec![topic("log_named_decimal_uint(string,uint256,uint256)")];
    let mut d2: Vec<u8> = Vec::new();
    push_w256_bytes(&mut d2, &w_u64(96));
    push_w256_bytes(&mut d2, &w_u64(1_500_000));
    push_w256_bytes(&mut d2, &w_u64(6));
    push_w256_bytes(&mut d2, &w_u64(3));
    d2.extend_from_slice(&padded(b"amt"));
    match decode_event(&topics2, &d2) {
        Some(LogEvent::NamedDecimalUint(key, val, dec)) => {
            assert_eq!(key, b"amt".to_vec());
            assert_eq!(val, w_u64(1_500_000));
            assert_eq!(dec, w_u64(6));
        },
        other => panic!("unexpected decode: {:?}", other),
    }
}

#[test]
fn named_string_event_decodes() {
    let topics = vec![topic("log_named_string(string,string)")];
    let mut d: Vec<u8> = Vec::new();
    push_w256_bytes(&mut d, &w_u64(64));
    push_w256_bytes(&mut d, &w_u64(128));
    push_w256_bytes(&mut d, &w_u64(3));
    d.extend_from_slice(&padded(b"key"));
    push_w256_bytes(&mut d, &w_u64(5));
    d.extend_from_slice(&padded(b"value"));
    match decode_event(&topics, &d) {
        Some(LogEvent::NamedString(k, v)) => {
            assert_eq!(k, b"key".to_vec());
            assert_eq!(v, b"value".to_vec());
        },
        other => panic!("unexpected decode: {:?}", other),
    }
}

#[test]
fn malformed_event_payload_is_ignored() {
    let topics = vec![topic("log_named_uint(string,uint256)")];
    // a truncated payload decodes to nothing
    let data = vec![0u8; 40];
    assert!(decode_event(&topics, &data).is_none());
    // no topics at all decodes to nothing
    assert!(decode_event(&Vec::new(), &named_uint_data("x", 1)).is_none());
}

fn test_vicinity() -> Vicinity {
    Vicinity {
        origin: Addr { hi: 0, lo: 0 },
        chain_id: w_u64(1),
        block_hashes: Vec::new(),
        block_number: w_u64(100),
        block_coinbase: Addr { hi: 0, lo: 7 },
        block_difficulty: w_u64(2),
        block_gas_limit: w_u64(30_000_000),
        block_timestamp: w_u64(1_600_000_000),
        gas_price: w_u64(55),
    }
}

#[test]
fn plain_executor_has_empty_logs_and_noop_clear() {
    let backend = ForkedBackend::new(ScriptedProvider::new(1, w_u64(1), w_u64(1)), test_vicinity(), 1);
    let config = Config { stack_limit: 1024, memory_limit: 33554432, call_stack_limit: 1024 };
    let mut exec = PlainExecutor::new(config, backend, 5_000_000);
    assert!(exec.logs().is_empty());
    exec.clear_logs();
    assert!(exec.logs().is_empty());
    assert_eq!(exec.gas_left(), w_u64(5_000_000));
    assert_eq!(*exec.config(), config);
    let caller = Addr { hi: 0, lo: 1 };
    let (e, out) = exec.transact_call(caller, Addr { hi: 0, lo: 2 }, w_u64(0), Vec::new(), 1000, Vec::new());
    assert_eq!(e, ExitReason::Succeed);
    assert!(out.is_empty());
    let e2 = exec.transact_create(caller, w_u64(0), Vec::new(), 1000, Vec::new());
    assert_eq!(e2, ExitReason::Succeed);
}

#[test]
fn account_read_prefers_override_then_cache_then_remote() {
    let a = Addr { hi: 8, lo: 8 };
    let mut p = ScriptedProvider::new(1, w_u64(1), w_u64(1));
    p.accounts.push((
        a,
        AccountRecord { balance: w_u64(1000), nonce: 3, code: vec![0x60, 0x80], storage: Vec::new() },
    ));
    let mut backend = ForkedBackend::new(p, test_vicinity(), 1);
    // first read fetches the scripted record and caches it
    let rec = backend.read_account(a).expect("account");
    assert_eq!(rec.balance, w_u64(1000));
    assert_eq!(rec.nonce, 3);
    assert_eq!(rec.code, vec![0x60, 0x80]);
    assert_eq!(backend.provider.served, vec![Query::Account(a)]);
    // the second read is a cache hit
    let rec2 = backend.read_account(a).expect("account");
    assert_eq!(rec2.balance, w_u64(1000));
    assert_eq!(backend.provider.served.len(), 1);
    // a locally-written account wins over both
    backend.set_storage(a, w_u64(9), w_u64(90));
    let rec3 = backend.read_account(a).expect("account");
    assert_eq!(rec3.balance, w_u64(0));
    assert_eq!(rec3.storage, vec![(w_u64(9), w_u64(90))]);
    assert_eq!(backend.provider.served.len(), 1);
}

#[test]
fn unknown_account_reads_as_canonical_empty_and_is_cached() {
    let a = Addr { hi: 77, lo: 77 };
    let mut backend = ForkedBackend::new(ScriptedProvider::new(1, w_u64(1), w_u64(1)), test_vicinity(), 1);
    let rec = backend.read_account(a).expect("account");
    assert_eq!(rec.balance, w_u64(0));
    assert_eq!(rec.nonce, 0);
    assert!(rec.code.is_empty());
    assert!(rec.storage.is_empty());
    assert_eq!(backend.provider.served.len(), 1);
    // the known-empty fact was cached: no second fetch
    let _ = backend.read_account(a).expect("account");
    assert_eq!(backend.provider.served.len(), 1);
}

#[test]
fn backend_ext_set_storage_creates_account_and_serves_reads() {
    let mut backend = ForkedBackend::new(ScriptedProvider::new(1, w_u64(1), w_u64(1)), test_vicinity(), 1);
    let a = Addr { hi: 3, lo: 4 };
    backend.set_storage(a, w_u64(1), w_u64(11));
    backend.set_storage(a, w_u64(2), w_u64(22));
    // overwriting one slot leaves the other alone
    backend.set_storage(a, w_u64(1), w_u64(33));
    assert_eq!(backend.read_storage_slot(a, w_u64(1)), Ok(w_u64(33)));
    assert_eq!(backend.read_storage_slot(a, w_u64(2)), Ok(w_u64(22)));
    // writes never touch the remote side
    assert_eq!(backend.provider.served_count(), 0);
    // vicinity-backed fields come straight from the snapshot
    assert_eq!(backend.gas_price(), w_u64(55));
    assert_eq!(backend.chain_id(), w_u64(1));
}
