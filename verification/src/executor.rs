use vstd::prelude::*;

use crate::keccak::{keccak256, keccak_of};
use crate::logs::LogEvent;
use crate::types::{
    addr_bytes, addr_of_digest, addr_of_digest_spec, push_addr_bytes, push_w256_bytes,
    w256_bytes, Addr, W256,
};

verus! {

/// Engine configuration: the gas-rule and machine parameters an executor
/// runs under.
#[derive(Clone, Copy, PartialEq, Eq, Structural, Debug)]
pub struct Config {
    pub stack_limit: u64,
    pub memory_limit: u64,
    pub call_stack_limit: u64,
}

/// How a transaction ended.
#[derive(Clone, Copy, PartialEq, Eq, Structural, Debug)]
pub enum ExitReason {
    Succeed,
    Revert,
    Error,
    Fatal,
}

/// How a created contract's address is derived.
#[derive(Clone, Copy, PartialEq, Eq, Structural, Debug)]
pub enum CreateScheme {
    /// From the creator and its account nonce.
    Legacy { caller: Addr, nonce: u64 },
    /// From the creator, a salt and the hash of the init code.
    Create2 { caller: Addr, code_hash: W256, salt: W256 },
    /// A fixed address.
    Fixed(Addr),
}

/// The minimal RLP encoding of a nonce: empty-string code for zero, the bare
/// byte below 128, else a length byte and the minimal big-endian bytes.
pub open spec fn nonce_rlp(n: u64) -> Seq<u8> {
    if n == 0 {
        seq![0x80u8]
    } else if n < 0x80 {
        seq![n as u8]
    } else if n < 0x100 {
        seq![0x81u8, (n & 0xff) as u8]
    } else if n < 0x10000 {
        seq![0x82u8, ((n >> 8u64) & 0xff) as u8, (n & 0xff) as u8]
    } else if n < 0x1000000 {
        seq![0x83u8, ((n >> 16u64) & 0xff) as u8, ((n >> 8u64) & 0xff) as u8, (n & 0xff) as u8]
    } else if n < 0x100000000 {
        seq![
            0x84u8,
            ((n >> 24u64) & 0xff) as u8,
            ((n >> 16u64) & 0xff) as u8,
            ((n >> 8u64) & 0xff) as u8,
            (n & 0xff) as u8,
        ]
    } else if n < 0x10000000000 {
        seq![
            0x85u8,
            ((n >> 32u64) & 0xff) as u8,
            ((n >> 24u64) & 0xff) as u8,
            ((n >> 16u64) & 0xff) as u8,
            ((n >> 8u64) & 0xff) as u8,
            (n & 0xff) as u8,
        ]
    } else if n < 0x1000000000000 {
        seq![
            0x86u8,
            ((n >> 40u64) & 0xff) as u8,
            ((n >> 32u64) & 0xff) as u8,
            ((n >> 24u64) & 0xff) as u8,
            ((n >> 16u64) & 0xff) as u8,
            ((n >> 8u64) & 0xff) as u8,
            (n & 0xff) as u8,
        ]
    } else if n < 0x100000000000000 {
        seq![
            0x87u8,
            ((n >> 48u64) & 0xff) as u8,
            ((n >> 40u64) & 0xff) as u8,
            ((n >> 32u64) & 0xff) as u8,
            ((n >> 24u64) & 0xff) as u8,
            ((n >> 16u64) & 0xff) as u8,
            ((n >> 8u64) & 0xff) as u8,
            (n & 0xff) as u8,
        ]
    } else {
        seq![
            0x88u8,
            ((n >> 56u64) & 0xff) as u8,
            ((n >> 48u64) & 0xff) as u8,
            ((n >> 40u64) & 0xff) as u8,
            ((n >> 32u64) & 0xff) as u8,
            ((n >> 24u64) & 0xff) as u8,
            ((n >> 16u64) & 0xff) as u8,
            ((n >> 8u64) & 0xff) as u8,
            (n & 0xff) as u8,
        ]
    }
}

fn byte_of(n: u64, shift: u64) -> (r: u8)
    requires
        shift < 64,
    ensures
        r == ((n >> shift) & 0xff) as u8,
{
    let y: u64 = n >> shift;
    proof {
        assert((y & 0xff) < 256) by (bit_vector);
    }
    (y & 0xff) as u8
}

fn nonce_rlp_bytes(n: u64) -> (r: Vec<u8>)
    ensures
        r@ == nonce_rlp(n),
        r@.len() <= 9,
{
    let mut out: Vec<u8> = Vec::new();
    if n == 0 {
        out.push(0x80u8);
    } else if n < 0x80 {
        out.push(byte_of(n, 0));
        proof {
            assert(((n >> 0u64) & 0xff) as u8 == n as u8) by (bit_vector)
                requires
                    n < 0x80,
            ;
        }
    } else {
        let mut len: u64 = 1;
        if n >= 0x100 {
            len = len + 1;
        }
        if n >= 0x10000 {
            len = len + 1;
        }
        if n >= 0x1000000 {
            len = len + 1;
        }
        if n >= 0x100000000 {
            len = len + 1;
        }
        if n >= 0x10000000000 {
            len = len + 1;
        }
        if n >= 0x1000000000000 {
            len = len + 1;
        }
        if n >= 0x100000000000000 {
            len = len + 1;
        }
        out.push((0x80u64 + len) as u8);
        let mut k: u64 = len;
        while k > 0
            invariant
                k <= len,
                len <= 8,
                out@.len() == 1 + (len - k),
                out@[0] == (0x80u64 + len) as u8,
                forall|t: int| 0 <= t < len - k ==> #[trigger] out@[1 + t] == ((n >> ((len - 1 - t)
                    * 8) as u64) & 0xff) as u8,
            decreases k,
        {
            out.push(byte_of(n, (k - 1) * 8));
            k = k - 1;
        }
        proof {
            assert((n >> 0u64) & 0xff == n & 0xff) by (bit_vector);
            assert forall|i: int| 1 <= i < out@.len() implies out@[i] == ((n >> (((len as int) - i)
                * 8) as u64) & 0xff) as u8 by {
                assert(out@[1 + (i - 1)] == ((n >> ((len - 1 - (i - 1)) * 8) as u64) & 0xff) as u8);
            }
            assert(out@ =~= nonce_rlp(n));
        }
    }
    out
}

/// The RLP encoding of the pair of a creator address and its nonce, as hashed
/// for legacy contract-address derivation.
pub open spec fn legacy_preimage(caller: Addr, nonce: u64) -> Seq<u8> {
    seq![(0xc0 + 21 + nonce_rlp(nonce).len()) as u8, 0x94u8] + addr_bytes(caller) + nonce_rlp(
        nonce,
    )
}

/// The bytes hashed for salted contract-address derivation: a marker byte,
/// the creator, the salt, and the init-code hash.
pub open spec fn create2_preimage(caller: Addr, salt: W256, code_hash: W256) -> Seq<u8> {
    seq![0xffu8] + addr_bytes(caller) + w256_bytes(salt) + w256_bytes(code_hash)
}

/// Where each creation scheme puts the new contract.
pub open spec fn create_address_model(scheme: CreateScheme) -> Addr {
    match scheme {
        CreateScheme::Fixed(a) => a,
        CreateScheme::Create2 { caller, code_hash, salt } => addr_of_digest_spec(
            keccak_of(create2_preimage(caller, salt, code_hash)),
        ),
        CreateScheme::Legacy { caller, nonce } => addr_of_digest_spec(
            keccak_of(legacy_preimage(caller, nonce)),
        ),
    }
}

/// Derives the contract address for a creation scheme.
pub fn derive_create_address(scheme: &CreateScheme) -> (r: Addr)
    ensures
        r == create_address_model(*scheme),
{
    match scheme {
        CreateScheme::Fixed(a) => *a,
        CreateScheme::Create2 { caller, code_hash, salt } => {
            let mut pre: Vec<u8> = Vec::new();
            pre.push(0xffu8);
            push_addr_bytes(&mut pre, caller);
            push_w256_bytes(&mut pre, salt);
            push_w256_bytes(&mut pre, code_hash);
            proof {
                assert(pre@ =~= create2_preimage(*caller, *salt, *code_hash));
            }
            let digest: Vec<u8> = keccak256(&pre);
            addr_of_digest(&digest)
        },
        CreateScheme::Legacy { caller, nonce } => {
            let mut nr: Vec<u8> = nonce_rlp_bytes(*nonce);
            let mut pre: Vec<u8> = Vec::new();
            let header: u8 = (0xc0u64 + 21u64 + (nr.len() as u64)) as u8;
            pre.push(header);
            pre.push(0x94u8);
            push_addr_bytes(&mut pre, caller);
            pre.append(&mut nr);
            proof {
                assert(pre@ =~= legacy_preimage(*caller, *nonce));
            }
            let digest: Vec<u8> = keccak256(&pre);
            addr_of_digest(&digest)
        },
    }
}

/// The uniform executor interface: configuration, state access, gas, call and
/// create entry points, address derivation, and log retrieval and clearing.
/// Calling code written against it runs over a plain engine or a
/// cheatcode-capable one interchangeably.
pub trait SputnikExecutor<S>: Sized {
    /// The state this executor runs over.
    spec fn state_view(&self) -> S;

    /// The configuration it runs under.
    spec fn config_view(&self) -> Config;

    /// The decoded log events accumulated so far.
    spec fn logs_view(&self) -> Seq<LogEvent>;

    /// The gas remaining.
    spec fn gas_view(&self) -> W256;

    /// The configuration.
    fn config(&self) -> (r: &Config)
        ensures
            *r == self.config_view(),
    ;

    /// The underlying state.
    fn state(&self) -> (r: &S)
        ensures
            *r == self.state_view(),
    ;

    /// Mutable access to the underlying state; nothing else changes through it.
    fn state_mut(&mut self) -> (r: &mut S)
        ensures
            *r == old(self).state_view(),
            final(self).state_view() == *final(r),
            final(self).config_view() == old(self).config_view(),
            final(self).logs_view() == old(self).logs_view(),
            final(self).gas_view() == old(self).gas_view(),
    ;

    /// The gas remaining.
    fn gas_left(&self) -> (r: W256)
        ensures
            r == self.gas_view(),
    ;

    /// Runs one call transaction.
    fn transact_call(
        &mut self,
        caller: Addr,
        address: Addr,
        value: W256,
        data: Vec<u8>,
        gas_limit: u64,
        access_list: Vec<(Addr, Vec<W256>)>,
    ) -> (r: (ExitReason, Vec<u8>));

    /// Runs one create transaction.
    fn transact_create(
        &mut self,
        caller: Addr,
        value: W256,
        data: Vec<u8>,
        gas_limit: u64,
        access_list: Vec<(Addr, Vec<W256>)>,
    ) -> (r: ExitReason);

    /// The address a creation scheme yields.
    fn create_address(&self, scheme: CreateScheme) -> (r: Addr)
        ensures
            r == create_address_model(scheme),
    ;

    /// The decoded logs of the run so far.
    fn logs(&self) -> (r: &Vec<LogEvent>)
        ensures
            r@ == self.logs_view(),
    ;

    /// Clears the accumulated logs; the state is untouched.
    fn clear_logs(&mut self)
        ensures
            final(self).logs_view() == Seq::<LogEvent>::empty(),
            final(self).state_view() == old(self).state_view(),
            final(self).config_view() == old(self).config_view(),
            final(self).gas_view() == old(self).gas_view(),
    ;
}

/// The pass-through executor: no cheatcode logic, no log collection. Its call
/// and create entry points model an engine run over empty code: they succeed
/// and leave the state alone.
pub struct PlainExecutor<S> {
    pub config: Config,
    pub state: S,
    pub gas: u64,
    pub no_logs: Vec<LogEvent>,
}

impl<S> PlainExecutor<S> {
    /// A pass-through executor over the given state.
    pub fn new(config: Config, state: S, gas: u64) -> (r: PlainExecutor<S>)
        ensures
            r.config == config,
            r.state == state,
            r.gas == gas,
            r.logs_view() == Seq::<LogEvent>::empty(),
    {
        PlainExecutor { config, state, gas, no_logs: Vec::new() }
    }
}

impl<S> SputnikExecutor<S> for PlainExecutor<S> {
    open spec fn state_view(&self) -> S {
        self.state
    }

    open spec fn config_view(&self) -> Config {
        self.config
    }

    open spec fn logs_view(&self) -> Seq<LogEvent> {
        self.no_logs@
    }

    open spec fn gas_view(&self) -> W256 {
        W256::from_u64_spec(self.gas)
    }

    fn config(&self) -> (r: &Config) {
        &self.config
    }

    fn state(&self) -> (r: &S) {
        &self.state
    }

    fn state_mut(&mut self) -> (r: &mut S) {
        &mut self.state
    }

    fn gas_left(&self) -> (r: W256) {
        W256::from_u64(self.gas)
    }

    fn transact_call(
        &mut self,
        caller: Addr,
        address: Addr,
        value: W256,
        data: Vec<u8>,
        gas_limit: u64,
        access_list: Vec<(Addr, Vec<W256>)>,
    ) -> (r: (ExitReason, Vec<u8>))
        // beyond the trait's promise: the pass-through engine models a run
        // over empty code, so it succeeds, returns nothing and changes nothing
        ensures
            r.0 == ExitReason::Succeed,
            r.1@.len() == 0,
            *final(self) == *old(self),
    {
        (ExitReason::Succeed, Vec::new())
    }

    fn transact_create(
        &mut self,
        caller: Addr,
        value: W256,
        data: Vec<u8>,
        gas_limit: u64,
        access_list: Vec<(Addr, Vec<W256>)>,
    ) -> (r: ExitReason)
        ensures
            r == ExitReason::Succeed,
            *final(self) == *old(self),
    {
        ExitReason::Succeed
    }

    fn create_address(&self, scheme: CreateScheme) -> (r: Addr) {
        derive_create_address(&scheme)
    }

    fn logs(&self) -> (r: &Vec<LogEvent>) {
        &self.no_logs
    }

    fn clear_logs(&mut self) {
        self.no_logs.clear();
    }
}

} // verus!
