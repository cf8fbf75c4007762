use evm_adapters::backend::ForkedBackend;
use evm_adapters::cheatcode_handler::{
    cheatcode_address, ffi_output, CheatOutcome, CheatcodeHandler,
};
use evm_adapters::executor::{Config, ExitReason, PlainExecutor, SputnikExecutor};
use evm_adapters::logs::LogEvent;
use evm_adapters::provider::ScriptedProvider;
use evm_adapters::types::{push_w256_bytes, w256_to_bytes, word_of_addr, Addr, W256};
use evm_adapters::vicinity::Vicinity;
use tiny_keccak::Hasher;

fn keccak(data: &[u8]) -> [u8; 32] {
    let mut k = tiny_keccak::Keccak::v256();
    k.update(data);
    let mut out = [0u8; 32];
    k.finalize(&mut out);
    out
}

fn sel(sig: &str) -> [u8; 4] {
    let d = keccak(sig.as_bytes());
    [d[0], d[1], d[2], d[3]]
}

fn w_u64(x: u64) -> W256 {
    W256 { hi: 0, lo: x as u128 }
}

fn test_vicinity() -> Vicinity {
    Vicinity {
        origin: Addr { hi: 0, lo: 0 },
        chain_id: w_u64(1),
        block_hashes: Vec::new(),
        block_number: w_u64(100),
        block_coinbase: Addr { hi: 0, lo: 7 },
        block_difficulty: w_u64(2),
        block_gas_limit: w_u64(30_000_000),
        block_timestamp: w_u64(1_600_000_000),
        gas_price: w_u64(55),
    }
}

type Handler = CheatcodeHandler<ScriptedProvider, PlainExecutor<ForkedBackend<ScriptedProvider>>>;

fn mk_handler(provider: ScriptedProvider, enable_ffi: bool) -> Handler {
    let backend = ForkedBackend::new(provider, test_vicinity(), 100);
    let config = Config { stack_limit: 1024, memory_limit: 33554432, call_stack_limit: 1024 };
    let exec = PlainExecutor::new(config, backend, 10_000_000);
    CheatcodeHandler::new(exec, enable_ffi)
}

fn calldata_roll(n: u64) -> Vec<u8> {
    let mut d: Vec<u8> = sel("roll(uint256)").to_vec();
    push_w256_bytes(&mut d, &w_u64(n));
    d
}

fn calldata_warp(n: u64) -> Vec<u8> {
    let mut d: Vec<u8> = sel("warp(uint256)").to_vec();
    push_w256_bytes(&mut d, &w_u64(n));
    d
}

fn calldata_store(a: &Addr, slot: &W256, value: &W256) -> Vec<u8> {
    let mut d: Vec<u8> = sel("store(address,bytes32,bytes32)").to_vec();
    push_w256_bytes(&mut d, &word_of_addr(a));
    push_w256_bytes(&mut d, slot);
    push_w256_bytes(&mut d, value);
    d
}

fn calldata_load(a: &Addr, slot: &W256) -> Vec<u8> {
    let mut d: Vec<u8> = sel("load(address,bytes32)").to_vec();
    push_w256_bytes(&mut d, &word_of_addr(a));
    push_w256_bytes(&mut d, slot);
    d
}

fn calldata_ffi(args: &[&str]) -> Vec<u8> {
    let mut d: Vec<u8> = sel("ffi(string[])").to_vec();
    push_w256_bytes(&mut d, &w_u64(32));
    push_w256_bytes(&mut d, &w_u64(args.len() as u64));
    let mut offsets: Vec<u64> = Vec::new();
    let mut tail: Vec<u8> = Vec::new();
    let head_len = 32 * args.len() as u64;
    for a in args {
        offsets.push(head_len + tail.len() as u64);
        tail.extend_from_slice(&w256_to_bytes(&w_u64(a.len() as u64)));
        tail.extend_from_slice(a.as_bytes());
        let pad = (32 - a.len() % 32) % 32;
        tail.extend_from_slice(&vec![0u8; pad]);
    }
    for off in offsets {
        push_w256_bytes(&mut d, &w_u64(off));
    }
    d.extend_from_slice(&tail);
    d
}

fn expect_done(r: CheatOutcome) -> (ExitReason, Vec<u8>) {
    match r {
        CheatOutcome::Done(e, out) => (e, out),
        CheatOutcome::RunCommand(_) => panic!("expected a finished result"),
    }
}

#[test]
fn known_selectors_match_fixed_table() {
    assert_eq!(sel("roll(uint256)"), [0x1f, 0x7b, 0x4f, 0x30]);
    assert_eq!(sel("warp(uint256)"), [0xe5, 0xd6, 0xbf, 0x02]);
    assert_eq!(sel("store(address,bytes32,bytes32)"), [0x70, 0xca, 0x10, 0xbb]);
    assert_eq!(sel("load(address,bytes32)"), [0x66, 0x7f, 0x9d, 0x70]);
    assert_eq!(sel("ffi(string[])"), [0x89, 0x16, 0x04, 0x67]);
}

#[test]
fn roll_overrides_block_number_latest_wins() {
    let mut h = mk_handler(ScriptedProvider::new(100, w_u64(55), w_u64(1)), false);
    assert_eq!(h.inner.state.block_number(), w_u64(100));
    let (e, out) = expect_done(h.cheatcode_call(&calldata_roll(42)));
    assert_eq!(e, ExitReason::Succeed);
    assert!(out.is_empty());
    assert_eq!(h.inner.state.block_number(), w_u64(42));
    let (e2, _) = expect_done(h.cheatcode_call(&calldata_roll(43)));
    assert_eq!(e2, ExitReason::Succeed);
    assert_eq!(h.inner.state.block_number(), w_u64(43));
    // no remote traffic and no new vicinity resolution was needed
    assert_eq!(h.inner.state.provider.served_count(), 0);
}

#[test]
fn warp_overrides_block_timestamp() {
    let mut h = mk_handler(ScriptedProvider::new(100, w_u64(55), w_u64(1)), false);
    assert_eq!(h.inner.state.block_timestamp(), w_u64(1_600_000_000));
    let (e, _) = expect_done(h.cheatcode_call(&calldata_warp(777)));
    assert_eq!(e, ExitReason::Succeed);
    assert_eq!(h.inner.state.block_timestamp(), w_u64(777));
}

#[test]
fn store_then_load_returns_value_despite_remote() {
    let a = Addr { hi: 0xabcd, lo: 0x1234 };
    let slot = w_u64(5);
    let mut p = ScriptedProvider::new(100, w_u64(55), w_u64(1));
    // the remote chain reports a different value for the same slot
    p.script_storage(a, slot, w_u64(999));
    let mut h = mk_handler(p, false);
    let (e, _) = expect_done(h.cheatcode_call(&calldata_store(&a, &slot, &w_u64(7))));
    assert_eq!(e, ExitReason::Succeed);
    let (e2, out) = expect_done(h.cheatcode_call(&calldata_load(&a, &slot)));
    assert_eq!(e2, ExitReason::Succeed);
    assert_eq!(out, w256_to_bytes(&w_u64(7)));
    // the override answered locally: the remote was never asked
    assert_eq!(h.inner.state.provider.served_count(), 0);
}

#[test]
fn load_fetches_once_then_hits_cache() {
    let a = Addr { hi: 1, lo: 2 };
    let slot = w_u64(3);
    let mut p = ScriptedProvider::new(100, w_u64(55), w_u64(1));
    p.script_storage(a, slot, w_u64(123));
    let mut h = mk_handler(p, false);
    let (e, out) = expect_done(h.cheatcode_call(&calldata_load(&a, &slot)));
    assert_eq!(e, ExitReason::Succeed);
    assert_eq!(out, w256_to_bytes(&w_u64(123)));
    assert_eq!(h.inner.state.provider.served_count(), 1);
    let (e2, out2) = expect_done(h.cheatcode_call(&calldata_load(&a, &slot)));
    assert_eq!(e2, ExitReason::Succeed);
    assert_eq!(out2, w256_to_bytes(&w_u64(123)));
    // the second read of the same pair issued no further fetch
    assert_eq!(h.inner.state.provider.served_count(), 1);
}

#[test]
fn load_of_unscripted_slot_reads_zero_and_caches_that() {
    let a = Addr { hi: 9, lo: 9 };
    let slot = w_u64(1);
    let mut h = mk_handler(ScriptedProvider::new(100, w_u64(55), w_u64(1)), false);
    let (e, out) = expect_done(h.cheatcode_call(&calldata_load(&a, &slot)));
    assert_eq!(e, ExitReason::Succeed);
    assert_eq!(out, w256_to_bytes(&W256 { hi: 0, lo: 0 }));
    assert_eq!(h.inner.state.provider.served_count(), 1);
    let _ = expect_done(h.cheatcode_call(&calldata_load(&a, &slot)));
    assert_eq!(h.inner.state.provider.served_count(), 1);
}

#[test]
fn override_written_after_caching_still_wins() {
    let a = Addr { hi: 2, lo: 2 };
    let slot = w_u64(4);
    let mut p = ScriptedProvider::new(100, w_u64(55), w_u64(1));
    p.script_storage(a, slot, w_u64(123));
    let mut h = mk_handler(p, false);
    // the remote value gets fetched and cached first
    let (_, out) = expect_done(h.cheatcode_call(&calldata_load(&a, &slot)));
    assert_eq!(out, w256_to_bytes(&w_u64(123)));
    assert_eq!(h.inner.state.provider.served_count(), 1);
    // a later local write beats the cached remote value
    let _ = expect_done(h.cheatcode_call(&calldata_store(&a, &slot, &w_u64(7))));
    let (_, out2) = expect_done(h.cheatcode_call(&calldata_load(&a, &slot)));
    assert_eq!(out2, w256_to_bytes(&w_u64(7)));
    assert_eq!(h.inner.state.provider.served_count(), 1);
}

#[test]
fn ffi_with_empty_argv_decodes_to_empty_command() {
    let mut h = mk_handler(ScriptedProvider::new(100, w_u64(55), w_u64(1)), true);
    match h.cheatcode_call(&calldata_ffi(&[])) {
        CheatOutcome::RunCommand(argv) => assert!(argv.is_empty()),
        CheatOutcome::Done(_, _) => panic!("expected a command request"),
    }
}

#[test]
fn load_transport_failure_fails_the_call() {
    let a = Addr { hi: 1, lo: 1 };
    let slot = w_u64(1);
    let mut p = ScriptedProvider::new(100, w_u64(55), w_u64(1));
    p.fail_all = true;
    let mut h = mk_handler(p, false);
    let (e, out) = expect_done(h.cheatcode_call(&calldata_load(&a, &slot)));
    assert_eq!(e, ExitReason::Error);
    assert!(out.is_empty());
}

#[test]
fn unknown_selector_always_reverts() {
    let mut h = mk_handler(ScriptedProvider::new(100, w_u64(55), w_u64(1)), false);
    let (e, out) = expect_done(h.cheatcode_call(&vec![0xde, 0xad, 0xbe, 0xef, 0, 0]));
    assert_eq!(e, ExitReason::Revert);
    assert!(out.is_empty());
    // too short for any selector
    let (e2, _) = expect_done(h.cheatcode_call(&vec![0x1f]));
    assert_eq!(e2, ExitReason::Revert);
    // a known selector with a malformed argument layout also reverts
    let (e3, _) = expect_done(h.cheatcode_call(&sel("roll(uint256)").to_vec()));
    assert_eq!(e3, ExitReason::Revert);
    // nothing was executed or mutated at the reserved address
    assert_eq!(h.inner.state.provider.served_count(), 0);
    assert_eq!(h.inner.state.block_number(), w_u64(100));
}

#[test]
fn ffi_without_opt_in_fails_the_call() {
    let mut h = mk_handler(ScriptedProvider::new(100, w_u64(55), w_u64(1)), false);
    let (e, out) = expect_done(h.cheatcode_call(&calldata_ffi(&["echo", "hi"])));
    assert_eq!(e, ExitReason::Revert);
    assert!(out.is_empty());
}

#[test]
fn ffi_with_opt_in_hands_out_argv_and_output_passes_through() {
    let mut h = mk_handler(ScriptedProvider::new(100, w_u64(55), w_u64(1)), true);
    match h.cheatcode_call(&calldata_ffi(&["echo", "hello world"])) {
        CheatOutcome::RunCommand(argv) => {
            assert_eq!(argv.len(), 2);
            assert_eq!(argv[0], b"echo".to_vec());
            assert_eq!(argv[1], b"hello world".to_vec());
            // a deterministic command output is returned verbatim
            let (e, out) = ffi_output(b"hello world\n".to_vec());
            assert_eq!(e, ExitReason::Succeed);
            assert_eq!(out, b"hello world\n".to_vec());
        },
        CheatOutcome::Done(_, _) => panic!("expected a command request"),
    }
}

#[test]
fn transact_call_intercepts_only_reserved_address() {
    let mut h = mk_handler(ScriptedProvider::new(100, w_u64(55), w_u64(1)), false);
    let caller = Addr { hi: 0, lo: 1 };
    // a call at the reserved address performs the host mutation
    let (e, _) = h.transact_call(caller, cheatcode_address(), w_u64(0), calldata_roll(5), 1000, Vec::new());
    assert_eq!(e, ExitReason::Succeed);
    assert_eq!(h.inner.state.block_number(), w_u64(5));
    // an ordinary address passes through to the wrapped executor
    let other = Addr { hi: 0, lo: 2 };
    let (e2, out2) = h.transact_call(caller, other, w_u64(0), vec![1, 2, 3], 1000, Vec::new());
    assert_eq!(e2, ExitReason::Succeed);
    assert!(out2.is_empty());
}

#[test]
fn handler_owns_its_log_collector() {
    let mut h = mk_handler(ScriptedProvider::new(100, w_u64(55), w_u64(1)), false);
    assert!(h.logs().is_empty());
    h.logs.record(LogEvent::LogUint(w_u64(1)));
    h.logs.record(LogEvent::LogUint(w_u64(1)));
    // duplicates stay until an explicit clear
    assert_eq!(h.logs().len(), 2);
    h.clear_logs();
    assert!(h.logs().is_empty());
    // clearing logs touches no state
    assert_eq!(h.inner.state.block_number(), w_u64(100));
}

#[test]
fn reserved_address_is_the_well_known_one() {
    let a = cheatcode_address();
    assert_eq!(a.hi, 0x7109709E);
    assert_eq!(a.lo, 0xCfa91a80626fF3989D68f67F5b1DD12D);
}
