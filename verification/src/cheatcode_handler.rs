use vstd::prelude::*;

use crate::abi::{read_string_array, string_array_at};
use crate::backend::{ForkedBackend, Lookup};
use crate::context::{slot_override, with_block_number, with_block_timestamp};
use crate::executor::{
    derive_create_address, Config, CreateScheme, ExitReason, SputnikExecutor,
};
use crate::keccak::{selector, selector_of};
use crate::logs::{LogCollector, LogEvent};
use crate::provider::{Query, RemoteProvider};
use crate::sig::{
    sig_ffi, sig_ffi_sig, sig_load, sig_load_sig, sig_roll, sig_roll_sig, sig_store,
    sig_store_sig, sig_warp, sig_warp_sig,
};
use crate::types::{
    addr_of_word, addr_of_word_spec, w256_at, w256_bytes, w256_to_bytes, word_at, Addr, W256,
};

verus! {

/// The reserved cheatcode address: calls to it are intercepted and never run
/// contract code.
pub open spec fn cheatcode_address_spec() -> Addr {
    Addr { hi: 0x7109709E, lo: 0xCfa91a80626fF3989D68f67F5b1DD12D }
}

/// The reserved cheatcode address.
pub fn cheatcode_address() -> (r: Addr)
    ensures
        r == cheatcode_address_spec(),
{
    Addr { hi: 0x7109709E, lo: 0xCfa91a80626fF3989D68f67F5b1DD12D }
}

/// One decoded host operation, over the fixed operation table.
#[derive(Debug)]
pub enum CheatOp {
    /// Set the block number.
    Roll(W256),
    /// Set the block timestamp.
    Warp(W256),
    /// Write a storage slot at an address.
    Store(Addr, W256, W256),
    /// Read a storage slot at an address.
    Load(Addr, W256),
    /// Run an external command; each element is one argv entry.
    Ffi(Vec<Vec<u8>>),
    /// No recognized selector, or a malformed argument layout.
    Unknown,
}

/// The mathematical shape of a decoded host operation.
pub enum CheatOpV {
    Roll(W256),
    Warp(W256),
    Store(Addr, W256, W256),
    Load(Addr, W256),
    Ffi(Seq<Seq<u8>>),
    Unknown,
}

impl View for CheatOp {
    type V = CheatOpV;

    open spec fn view(&self) -> CheatOpV {
        match self {
            CheatOp::Roll(w) => CheatOpV::Roll(*w),
            CheatOp::Warp(w) => CheatOpV::Warp(*w),
            CheatOp::Store(a, s, v) => CheatOpV::Store(*a, *s, *v),
            CheatOp::Load(a, s) => CheatOpV::Load(*a, *s),
            CheatOp::Ffi(args) => CheatOpV::Ffi(
                Seq::new(args@.len(), |j: int| args@[j]@),
            ),
            CheatOp::Unknown => CheatOpV::Unknown,
        }
    }
}

/// Whether the call data starts with the selector of `sig`.
pub open spec fn has_sel(d: Seq<u8>, sig: Seq<u8>) -> bool {
    d.len() >= 4 && d.subrange(0, 4) == selector_of(sig)
}

/// What the call data at the reserved address asks for: the leading four
/// bytes select the operation, the remaining words are its arguments, decoded
/// strictly; anything else is unknown and must fail the call.
pub open spec fn cheat_op_model(d: Seq<u8>) -> CheatOpV {
    if has_sel(d, sig_roll_sig()) {
        if d.len() == 36 {
            CheatOpV::Roll(w256_at(d, 4))
        } else {
            CheatOpV::Unknown
        }
    } else if has_sel(d, sig_warp_sig()) {
        if d.len() == 36 {
            CheatOpV::Warp(w256_at(d, 4))
        } else {
            CheatOpV::Unknown
        }
    } else if has_sel(d, sig_store_sig()) {
        if d.len() == 100 {
            CheatOpV::Store(addr_of_word_spec(w256_at(d, 4)), w256_at(d, 36), w256_at(d, 68))
        } else {
            CheatOpV::Unknown
        }
    } else if has_sel(d, sig_load_sig()) {
        if d.len() == 68 {
            CheatOpV::Load(addr_of_word_spec(w256_at(d, 4)), w256_at(d, 36))
        } else {
            CheatOpV::Unknown
        }
    } else if has_sel(d, sig_ffi_sig()) {
        match string_array_at(d, 4) {
            Some(args) => CheatOpV::Ffi(args),
            None => CheatOpV::Unknown,
        }
    } else {
        CheatOpV::Unknown
    }
}

/// Whether the call data starts with the given 4-byte selector.
fn sel_matches(d: &Vec<u8>, sel: &Vec<u8>) -> (r: bool)
    requires
        sel@.len() == 4,
    ensures
        r == (d@.len() >= 4 && d@.subrange(0, 4) == sel@),
{
    if d.len() < 4 {
        return false;
    }
    let r: bool = d[0] == sel[0] && d[1] == sel[1] && d[2] == sel[2] && d[3] == sel[3];
    proof {
        if r {
            assert(d@.subrange(0, 4) =~= sel@);
        } else {
            assert(!(d@.subrange(0, 4) == sel@));
        }
    }
    r
}

/// Decodes the call data against the fixed operation table.
pub fn decode_cheat_op(d: &Vec<u8>) -> (r: CheatOp)
    ensures
        r@ == cheat_op_model(d@),
{
    let roll_sel: Vec<u8> = selector(&sig_roll());
    if sel_matches(d, &roll_sel) {
        if d.len() == 36 {
            return CheatOp::Roll(word_at(d, 4));
        } else {
            return CheatOp::Unknown;
        }
    }
    let warp_sel: Vec<u8> = selector(&sig_warp());
    if sel_matches(d, &warp_sel) {
        if d.len() == 36 {
            return CheatOp::Warp(word_at(d, 4));
        } else {
            return CheatOp::Unknown;
        }
    }
    let store_sel: Vec<u8> = selector(&sig_store());
    if sel_matches(d, &store_sel) {
        if d.len() == 100 {
            let aw: W256 = word_at(d, 4);
            return CheatOp::Store(addr_of_word(&aw), word_at(d, 36), word_at(d, 68));
        } else {
            return CheatOp::Unknown;
        }
    }
    let load_sel: Vec<u8> = selector(&sig_load());
    if sel_matches(d, &load_sel) {
        if d.len() == 68 {
            let aw: W256 = word_at(d, 4);
            return CheatOp::Load(addr_of_word(&aw), word_at(d, 36));
        } else {
            return CheatOp::Unknown;
        }
    }
    let ffi_sel: Vec<u8> = selector(&sig_ffi());
    if sel_matches(d, &ffi_sel) {
        match read_string_array(d, 4) {
            Some(args) => {
                let ghost argsv = Seq::new(args@.len(), |j: int| args@[j]@);
                let r = CheatOp::Ffi(args);
                proof {
                    match string_array_at(d@, 4) {
                        Some(es2) => {
                            assert(argsv =~= es2);
                        },
                        None => {},
                    }
                }
                return r;
            },
            None => {
                return CheatOp::Unknown;
            },
        }
    }
    CheatOp::Unknown
}

/// What an intercepted call decides: a finished synthetic result, or an
/// external command for the driver to run (its captured output then goes
/// through `ffi_output`).
#[derive(Debug)]
pub enum CheatOutcome {
    Done(ExitReason, Vec<u8>),
    RunCommand(Vec<Vec<u8>>),
}

/// Wraps a captured external command output as the call's successful result:
/// the raw output bytes, unchanged.
pub fn ffi_output(out: Vec<u8>) -> (r: (ExitReason, Vec<u8>))
    ensures
        r.0 == ExitReason::Succeed,
        r.1@ == out@,
{
    (ExitReason::Succeed, out)
}

/// The cheatcode interceptor: wraps an executor, passes every ordinary call
/// through unchanged, and turns calls at the reserved address into host-side
/// effects on the forked backend. It owns the run's log collector, and the
/// external-command operation is gated behind an explicit opt-in.
pub struct CheatcodeHandler<M: RemoteProvider, E: SputnikExecutor<ForkedBackend<M>>> {
    pub inner: E,
    pub enable_ffi: bool,
    pub logs: LogCollector,
    pub provider_marker: core::marker::PhantomData<M>,
}

impl<M: RemoteProvider, E: SputnikExecutor<ForkedBackend<M>>> CheatcodeHandler<M, E> {
    /// Wraps an executor; the external-command operation stays disabled
    /// unless `enable_ffi` is set.
    pub fn new(inner: E, enable_ffi: bool) -> (r: CheatcodeHandler<M, E>)
        ensures
            r.inner == inner,
            r.enable_ffi == enable_ffi,
            r.logs.events@ == Seq::<LogEvent>::empty(),
    {
        CheatcodeHandler {
            inner,
            enable_ffi,
            logs: LogCollector::new(),
            provider_marker: core::marker::PhantomData,
        }
    }

    /// Handles one call to the reserved address: decodes the operation and
    /// performs its host-side effect, which is visible to every later call of
    /// the run. An unrecognized selector or malformed arguments fail the call
    /// with a revert and touch nothing; so does the external-command
    /// operation without its opt-in.
    pub fn cheatcode_call(&mut self, data: &Vec<u8>) -> (r: CheatOutcome)
        ensures
            final(self).enable_ffi == old(self).enable_ffi,
            final(self).logs.events@ == old(self).logs.events@,
            final(self).inner.config_view() == old(self).inner.config_view(),
            final(self).inner.logs_view() == old(self).inner.logs_view(),
            cheat_op_model(data@) matches CheatOpV::Roll(w) ==> {
                &&& r matches CheatOutcome::Done(e, out) && e == ExitReason::Succeed && out@.len()
                    == 0
                &&& final(self).inner.state_view().cheats == with_block_number(
                    old(self).inner.state_view().cheats,
                    w,
                )
                &&& final(self).inner.state_view().slot_cache@ == old(
                    self,
                ).inner.state_view().slot_cache@
                &&& final(self).inner.state_view().acct_cache@ == old(
                    self,
                ).inner.state_view().acct_cache@
                &&& final(self).inner.state_view().provider == old(self).inner.state_view().provider
            },
            cheat_op_model(data@) matches CheatOpV::Warp(w) ==> {
                &&& r matches CheatOutcome::Done(e, out) && e == ExitReason::Succeed && out@.len()
                    == 0
                &&& final(self).inner.state_view().cheats == with_block_timestamp(
                    old(self).inner.state_view().cheats,
                    w,
                )
                &&& final(self).inner.state_view().slot_cache@ == old(
                    self,
                ).inner.state_view().slot_cache@
                &&& final(self).inner.state_view().acct_cache@ == old(
                    self,
                ).inner.state_view().acct_cache@
                &&& final(self).inner.state_view().provider == old(self).inner.state_view().provider
            },
            cheat_op_model(data@) matches CheatOpV::Store(a, s, v) ==> {
                &&& r matches CheatOutcome::Done(e, out) && e == ExitReason::Succeed && out@.len()
                    == 0
                &&& slot_override(final(self).inner.state_view().cheats, a, s) == Some(v)
                &&& forall|a2: Addr, s2: W256|
                    !(a2 == a && s2 == s) ==> slot_override(
                        final(self).inner.state_view().cheats,
                        a2,
                        s2,
                    ) == slot_override(old(self).inner.state_view().cheats, a2, s2)
                &&& final(self).inner.state_view().cheats.block_number == old(
                    self,
                ).inner.state_view().cheats.block_number
                &&& final(self).inner.state_view().cheats.block_timestamp == old(
                    self,
                ).inner.state_view().cheats.block_timestamp
                &&& final(self).inner.state_view().slot_cache@ == old(
                    self,
                ).inner.state_view().slot_cache@
                &&& final(self).inner.state_view().acct_cache@ == old(
                    self,
                ).inner.state_view().acct_cache@
                &&& final(self).inner.state_view().provider == old(self).inner.state_view().provider
            },
            cheat_op_model(data@) matches CheatOpV::Load(a, s) ==> {
                &&& old(self).inner.state_view().lookup_model(a, s) matches Lookup::Override(v)
                    ==> (r matches CheatOutcome::Done(e, out) && e == ExitReason::Succeed && out@
                    == w256_bytes(v) && final(self).inner.state_view() == old(
                    self,
                ).inner.state_view())
                &&& old(self).inner.state_view().lookup_model(a, s) matches Lookup::Cached(v) ==> (
                r matches CheatOutcome::Done(e, out) && e == ExitReason::Succeed && out@
                    == w256_bytes(v) && final(self).inner.state_view() == old(
                    self,
                ).inner.state_view())
                &&& old(self).inner.state_view().lookup_model(a, s) is Miss ==> {
                    &&& final(self).inner.state_view().provider.queries() == old(
                        self,
                    ).inner.state_view().provider.queries().push(Query::Storage(a, s))
                    &&& final(self).inner.state_view().cheats == old(
                        self,
                    ).inner.state_view().cheats
                    &&& (match r {
                        CheatOutcome::Done(e, out) => {
                            &&& (e == ExitReason::Succeed || e == ExitReason::Error)
                            &&& (e == ExitReason::Succeed ==> exists|v: W256|
                                out@ == w256_bytes(v)
                                    && final(self).inner.state_view().slot_cache@
                                    == old(self).inner.state_view().slot_cache@.push(((a, s), v)))
                            &&& (e == ExitReason::Error ==> out@.len() == 0
                                && final(self).inner.state_view().slot_cache@
                                == old(self).inner.state_view().slot_cache@)
                        },
                        CheatOutcome::RunCommand(_) => false,
                    })
                }
            },
            cheat_op_model(data@) matches CheatOpV::Ffi(args) ==> {
                &&& !old(self).enable_ffi ==> (r matches CheatOutcome::Done(e, out) && e
                    == ExitReason::Revert && out@.len() == 0 && final(self).inner.state_view()
                    == old(self).inner.state_view())
                &&& old(self).enable_ffi ==> (r matches CheatOutcome::RunCommand(cmd) && cmd@.len()
                    == args.len() && (forall|j: int| 0 <= j < args.len() ==> cmd@[j]@ == args[j])
                    && final(self).inner.state_view() == old(self).inner.state_view())
            },
            cheat_op_model(data@) is Unknown ==> (r matches CheatOutcome::Done(e, out) && e
                == ExitReason::Revert && out@.len() == 0 && final(self).inner.state_view() == old(
                self,
            ).inner.state_view()),
    {
        let op: CheatOp = decode_cheat_op(data);
        match op {
            CheatOp::Roll(w) => {
                let st: &mut ForkedBackend<M> = self.inner.state_mut();
                st.set_block_number(w);
                CheatOutcome::Done(ExitReason::Succeed, Vec::new())
            },
            CheatOp::Warp(w) => {
                let st: &mut ForkedBackend<M> = self.inner.state_mut();
                st.set_block_timestamp(w);
                CheatOutcome::Done(ExitReason::Succeed, Vec::new())
            },
            CheatOp::Store(a, s, v) => {
                let st: &mut ForkedBackend<M> = self.inner.state_mut();
                st.set_storage_slot(a, s, v);
                CheatOutcome::Done(ExitReason::Succeed, Vec::new())
            },
            CheatOp::Load(a, s) => {
                let st: &mut ForkedBackend<M> = self.inner.state_mut();
                match st.read_storage_slot(a, s) {
                    Ok(v) => {
                        let out: Vec<u8> = w256_to_bytes(&v);
                        CheatOutcome::Done(ExitReason::Succeed, out)
                    },
                    Err(_e) => CheatOutcome::Done(ExitReason::Error, Vec::new()),
                }
            },
            CheatOp::Ffi(args) => {
                if self.enable_ffi {
                    CheatOutcome::RunCommand(args)
                } else {
                    CheatOutcome::Done(ExitReason::Revert, Vec::new())
                }
            },
            CheatOp::Unknown => CheatOutcome::Done(ExitReason::Revert, Vec::new()),
        }
    }
}

impl<M: RemoteProvider, E: SputnikExecutor<ForkedBackend<M>>> SputnikExecutor<
    ForkedBackend<M>,
> for CheatcodeHandler<M, E> {
    open spec fn state_view(&self) -> ForkedBackend<M> {
        self.inner.state_view()
    }

    open spec fn config_view(&self) -> Config {
        self.inner.config_view()
    }

    open spec fn logs_view(&self) -> Seq<LogEvent> {
        self.logs.events@
    }

    open spec fn gas_view(&self) -> W256 {
        self.inner.gas_view()
    }

    fn config(&self) -> (r: &Config) {
        self.inner.config()
    }

    fn state(&self) -> (r: &ForkedBackend<M>) {
        self.inner.state()
    }

    fn state_mut(&mut self) -> (r: &mut ForkedBackend<M>) {
        self.inner.state_mut()
    }

    fn gas_left(&self) -> (r: W256) {
        self.inner.gas_left()
    }

    fn transact_call(
        &mut self,
        caller: Addr,
        address: Addr,
        value: W256,
        data: Vec<u8>,
        gas_limit: u64,
        access_list: Vec<(Addr, Vec<W256>)>,
    ) -> (r: (ExitReason, Vec<u8>))
        // beyond the trait's promise: a call at the reserved address performs
        // exactly the decoded host operation and never touches the collector
        // or the opt-in flag; an ordinary call leaves both alone too
        ensures
            final(self).enable_ffi == old(self).enable_ffi,
            final(self).logs.events@ == old(self).logs.events@,
            address == cheatcode_address_spec() ==> {
                &&& final(self).inner.config_view() == old(self).inner.config_view()
                &&& final(self).inner.logs_view() == old(self).inner.logs_view()
                &&& (cheat_op_model(data@) matches CheatOpV::Roll(w) ==> {
                    &&& r.0 == ExitReason::Succeed && r.1@.len() == 0
                    &&& final(self).inner.state_view().cheats == with_block_number(
                        old(self).inner.state_view().cheats,
                        w,
                    )
                    &&& final(self).inner.state_view().slot_cache@ == old(
                        self,
                    ).inner.state_view().slot_cache@
                    &&& final(self).inner.state_view().acct_cache@ == old(
                        self,
                    ).inner.state_view().acct_cache@
                    &&& final(self).inner.state_view().provider == old(
                        self,
                    ).inner.state_view().provider
                })
                &&& (cheat_op_model(data@) matches CheatOpV::Warp(w) ==> {
                    &&& r.0 == ExitReason::Succeed && r.1@.len() == 0
                    &&& final(self).inner.state_view().cheats == with_block_timestamp(
                        old(self).inner.state_view().cheats,
                        w,
                    )
                    &&& final(self).inner.state_view().slot_cache@ == old(
                        self,
                    ).inner.state_view().slot_cache@
                    &&& final(self).inner.state_view().acct_cache@ == old(
                        self,
                    ).inner.state_view().acct_cache@
                    &&& final(self).inner.state_view().provider == old(
                        self,
                    ).inner.state_view().provider
                })
                &&& (cheat_op_model(data@) matches CheatOpV::Store(a, s, v) ==> {
                    &&& r.0 == ExitReason::Succeed && r.1@.len() == 0
                    &&& slot_override(final(self).inner.state_view().cheats, a, s) == Some(v)
                    &&& forall|a2: Addr, s2: W256|
                        !(a2 == a && s2 == s) ==> slot_override(
                            final(self).inner.state_view().cheats,
                            a2,
                            s2,
                        ) == slot_override(old(self).inner.state_view().cheats, a2, s2)
                    &&& final(self).inner.state_view().cheats.block_number == old(
                        self,
                    ).inner.state_view().cheats.block_number
                    &&& final(self).inner.state_view().cheats.block_timestamp == old(
                        self,
                    ).inner.state_view().cheats.block_timestamp
                    &&& final(self).inner.state_view().slot_cache@ == old(
                        self,
                    ).inner.state_view().slot_cache@
                    &&& final(self).inner.state_view().acct_cache@ == old(
                        self,
                    ).inner.state_view().acct_cache@
                    &&& final(self).inner.state_view().provider == old(
                        self,
                    ).inner.state_view().provider
                })
                &&& (cheat_op_model(data@) matches CheatOpV::Load(a, s) ==> {
                    &&& old(self).inner.state_view().lookup_model(a, s) matches Lookup::Override(
                        v,
                    ) ==> (r.0 == ExitReason::Succeed && r.1@ == w256_bytes(v)
                        && final(self).inner.state_view() == old(self).inner.state_view())
                    &&& old(self).inner.state_view().lookup_model(a, s) matches Lookup::Cached(v)
                        ==> (r.0 == ExitReason::Succeed && r.1@ == w256_bytes(v)
                        && final(self).inner.state_view() == old(self).inner.state_view())
                    &&& old(self).inner.state_view().lookup_model(a, s) is Miss ==> {
                        &&& final(self).inner.state_view().provider.queries() == old(
                            self,
                        ).inner.state_view().provider.queries().push(Query::Storage(a, s))
                        &&& final(self).inner.state_view().cheats == old(
                            self,
                        ).inner.state_view().cheats
                        &&& (r.0 == ExitReason::Succeed || r.0 == ExitReason::Error)
                        &&& (r.0 == ExitReason::Succeed ==> exists|v: W256|
                            r.1@ == w256_bytes(v)
                                && final(self).inner.state_view().slot_cache@
                                == old(self).inner.state_view().slot_cache@.push(((a, s), v)))
                        &&& (r.0 == ExitReason::Error ==> r.1@.len() == 0
                            && final(self).inner.state_view().slot_cache@
                            == old(self).inner.state_view().slot_cache@)
                    }
                })
                &&& (cheat_op_model(data@) is Ffi ==> r.0 == ExitReason::Revert && r.1@.len() == 0
                    && final(self).inner.state_view() == old(self).inner.state_view())
                &&& (cheat_op_model(data@) is Unknown ==> r.0 == ExitReason::Revert && r.1@.len()
                    == 0 && final(self).inner.state_view() == old(self).inner.state_view())
            },
    {
        if address == cheatcode_address() {
            match self.cheatcode_call(&data) {
                CheatOutcome::Done(e, out) => (e, out),
                // the synchronous interface cannot run a host command; a
                // driver that enables the external-command operation calls
                // cheatcode_call and ffi_output itself
                CheatOutcome::RunCommand(_cmd) => (ExitReason::Revert, Vec::new()),
            }
        } else {
            self.inner.transact_call(caller, address, value, data, gas_limit, access_list)
        }
    }

    fn transact_create(
        &mut self,
        caller: Addr,
        value: W256,
        data: Vec<u8>,
        gas_limit: u64,
        access_list: Vec<(Addr, Vec<W256>)>,
    ) -> (r: ExitReason)
        // beyond the trait's promise: creation is delegated unchanged, and
        // the collector and the opt-in flag are untouched
        ensures
            final(self).enable_ffi == old(self).enable_ffi,
            final(self).logs.events@ == old(self).logs.events@,
    {
        self.inner.transact_create(caller, value, data, gas_limit, access_list)
    }

    fn create_address(&self, scheme: CreateScheme) -> (r: Addr) {
        derive_create_address(&scheme)
    }

    fn logs(&self) -> (r: &Vec<LogEvent>) {
        self.logs.events_ref()
    }

    fn clear_logs(&mut self) {
        self.logs.clear();
    }
}

} // verus!
