use vstd::prelude::*;

use crate::abi::{bytes_at, lo_of, read_bytes_at};
use crate::keccak::{topic, topic_of};
use crate::sig::{
    ev_log, ev_log_address, ev_log_address_sig, ev_log_bytes, ev_log_bytes32,
    ev_log_bytes32_sig, ev_log_bytes_sig, ev_log_int, ev_log_int_sig, ev_log_named_address,
    ev_log_named_address_sig, ev_log_named_bytes, ev_log_named_bytes32, ev_log_named_bytes32_sig,
    ev_log_named_bytes_sig, ev_log_named_decimal_int, ev_log_named_decimal_int_sig,
    ev_log_named_decimal_uint, ev_log_named_decimal_uint_sig, ev_log_named_int,
    ev_log_named_int_sig, ev_log_named_string, ev_log_named_string_sig, ev_log_named_uint,
    ev_log_named_uint_sig, ev_log_sig, ev_log_string, ev_log_string_sig, ev_log_uint,
    ev_log_uint_sig, ev_logs, ev_logs_sig,
};
use crate::types::{addr_of_word_spec, addr_of_word, w256_at, word_at, Addr, W256};

verus! {

/// One decoded structured log event, over the fixed recognized set of
/// console-logging event shapes.
#[derive(Clone, Debug, PartialEq, Eq)]
pub enum LogEvent {
    Log(Vec<u8>),
    Logs(Vec<u8>),
    LogAddress(Addr),
    LogBytes32(W256),
    LogInt(W256),
    LogUint(W256),
    LogBytes(Vec<u8>),
    LogString(Vec<u8>),
    NamedAddress(Vec<u8>, Addr),
    NamedBytes32(Vec<u8>, W256),
    NamedDecimalInt(Vec<u8>, W256, W256),
    NamedDecimalUint(Vec<u8>, W256, W256),
    NamedInt(Vec<u8>, W256),
    NamedUint(Vec<u8>, W256),
    NamedBytes(Vec<u8>, Vec<u8>),
    NamedString(Vec<u8>, Vec<u8>),
}

/// The mathematical shape of a decoded log event.
pub enum LogEventV {
    Log(Seq<u8>),
    Logs(Seq<u8>),
    LogAddress(Addr),
    LogBytes32(W256),
    LogInt(W256),
    LogUint(W256),
    LogBytes(Seq<u8>),
    LogString(Seq<u8>),
    NamedAddress(Seq<u8>, Addr),
    NamedBytes32(Seq<u8>, W256),
    NamedDecimalInt(Seq<u8>, W256, W256),
    NamedDecimalUint(Seq<u8>, W256, W256),
    NamedInt(Seq<u8>, W256),
    NamedUint(Seq<u8>, W256),
    NamedBytes(Seq<u8>, Seq<u8>),
    NamedString(Seq<u8>, Seq<u8>),
}

impl View for LogEvent {
    type V = LogEventV;

    open spec fn view(&self) -> LogEventV {
        match self {
            LogEvent::Log(s) => LogEventV::Log(s@),
            LogEvent::Logs(s) => LogEventV::Logs(s@),
            LogEvent::LogAddress(a) => LogEventV::LogAddress(*a),
            LogEvent::LogBytes32(w) => LogEventV::LogBytes32(*w),
            LogEvent::LogInt(w) => LogEventV::LogInt(*w),
            LogEvent::LogUint(w) => LogEventV::LogUint(*w),
            LogEvent::LogBytes(s) => LogEventV::LogBytes(s@),
            LogEvent::LogString(s) => LogEventV::LogString(s@),
            LogEvent::NamedAddress(k, a) => LogEventV::NamedAddress(k@, *a),
            LogEvent::NamedBytes32(k, w) => LogEventV::NamedBytes32(k@, *w),
            LogEvent::NamedDecimalInt(k, w, d) => LogEventV::NamedDecimalInt(k@, *w, *d),
            LogEvent::NamedDecimalUint(k, w, d) => LogEventV::NamedDecimalUint(k@, *w, *d),
            LogEvent::NamedInt(k, w) => LogEventV::NamedInt(k@, *w),
            LogEvent::NamedUint(k, w) => LogEventV::NamedUint(k@, *w),
            LogEvent::NamedBytes(k, v) => LogEventV::NamedBytes(k@, v@),
            LogEvent::NamedString(k, v) => LogEventV::NamedString(k@, v@),
        }
    }
}

/// One dynamic payload: an offset word (32), a length, the payload bytes.
pub open spec fn dec_dyn(d: Seq<u8>) -> Option<Seq<u8>> {
    if d.len() >= 32 && w256_at(d, 0) == W256::from_u64_spec(32) {
        bytes_at(d, 32)
    } else {
        None
    }
}

/// One bare word.
pub open spec fn dec_word(d: Seq<u8>) -> Option<W256> {
    if d.len() >= 32 {
        Some(w256_at(d, 0))
    } else {
        None
    }
}

/// A named word: key offset (64), the value word, then the key bytes.
pub open spec fn dec_named_word(d: Seq<u8>) -> Option<(Seq<u8>, W256)> {
    if d.len() >= 64 && w256_at(d, 0) == W256::from_u64_spec(64) {
        match bytes_at(d, 64) {
            Some(k) => Some((k, w256_at(d, 32))),
            None => None,
        }
    } else {
        None
    }
}

/// A named decimal-scaled word: key offset (96), value, decimals, key bytes.
pub open spec fn dec_named_decimal(d: Seq<u8>) -> Option<(Seq<u8>, W256, W256)> {
    if d.len() >= 96 && w256_at(d, 0) == W256::from_u64_spec(96) {
        match bytes_at(d, 96) {
            Some(k) => Some((k, w256_at(d, 32), w256_at(d, 64))),
            None => None,
        }
    } else {
        None
    }
}

/// A named dynamic payload: key offset (64), value offset, key bytes, value bytes.
pub open spec fn dec_named_dyn(d: Seq<u8>) -> Option<(Seq<u8>, Seq<u8>)> {
    if d.len() >= 64 && w256_at(d, 0) == W256::from_u64_spec(64) {
        match lo_of(w256_at(d, 32)) {
            Some(vo) => match (bytes_at(d, 64), bytes_at(d, vo)) {
                (Some(k), Some(v)) => Some((k, v)),
                _ => None,
            },
            None => None,
        }
    } else {
        None
    }
}

/// What the log collector understands of a raw log: the first topic selects
/// one of the fixed recognized event signatures, and the data is decoded per
/// that signature's shape; anything else is not an event of this subsystem.
pub open spec fn decode_event_model(topics: Seq<W256>, d: Seq<u8>) -> Option<LogEventV> {
    if topics.len() < 1 {
        None
    } else {
        let t0 = topics[0];
        if t0 == topic_of(ev_log_sig()) {
            match dec_dyn(d) {
                Some(s) => Some(LogEventV::Log(s)),
                None => None,
            }
        } else if t0 == topic_of(ev_logs_sig()) {
            match dec_dyn(d) {
                Some(s) => Some(LogEventV::Logs(s)),
                None => None,
            }
        } else if t0 == topic_of(ev_log_address_sig()) {
            match dec_word(d) {
                Some(w) => Some(LogEventV::LogAddress(addr_of_word_spec(w))),
                None => None,
            }
        } else if t0 == topic_of(ev_log_bytes32_sig()) {
            match dec_word(d) {
                Some(w) => Some(LogEventV::LogBytes32(w)),
                None => None,
            }
        } else if t0 == topic_of(ev_log_int_sig()) {
            match dec_word(d) {
                Some(w) => Some(LogEventV::LogInt(w)),
                None => None,
            }
        } else if t0 == topic_of(ev_log_uint_sig()) {
            match dec_word(d) {
                Some(w) => Some(LogEventV::LogUint(w)),
                None => None,
            }
        } else if t0 == topic_of(ev_log_bytes_sig()) {
            match dec_dyn(d) {
                Some(s) => Some(LogEventV::LogBytes(s)),
                None => None,
            }
        } else if t0 == topic_of(ev_log_string_sig()) {
            match dec_dyn(d) {
                Some(s) => Some(LogEventV::LogString(s)),
                None => None,
            }
        } else if t0 == topic_of(ev_log_named_address_sig()) {
            match dec_named_word(d) {
                Some(kw) => Some(LogEventV::NamedAddress(kw.0, addr_of_word_spec(kw.1))),
                None => None,
            }
        } else if t0 == topic_of(ev_log_named_bytes32_sig()) {
            match dec_named_word(d) {
                Some(kw) => Some(LogEventV::NamedBytes32(kw.0, kw.1)),
                None => None,
            }
        } else if t0 == topic_of(ev_log_named_decimal_int_sig()) {
            match dec_named_decimal(d) {
                Some(kwd) => Some(LogEventV::NamedDecimalInt(kwd.0, kwd.1, kwd.2)),
                None => None,
            }
        } else if t0 == topic_of(ev_log_named_decimal_uint_sig()) {
            match dec_named_decimal(d) {
                Some(kwd) => Some(LogEventV::NamedDecimalUint(kwd.0, kwd.1, kwd.2)),
                None => None,
            }
        } else if t0 == topic_of(ev_log_named_int_sig()) {
            match dec_named_word(d) {
                Some(kw) => Some(LogEventV::NamedInt(kw.0, kw.1)),
                None => None,
            }
        } else if t0 == topic_of(ev_log_named_uint_sig()) {
            match dec_named_word(d) {
                Some(kw) => Some(LogEventV::NamedUint(kw.0, kw.1)),
                None => None,
            }
        } else if t0 == topic_of(ev_log_named_bytes_sig()) {
            match dec_named_dyn(d) {
                Some(kv) => Some(LogEventV::NamedBytes(kv.0, kv.1)),
                None => None,
            }
        } else if t0 == topic_of(ev_log_named_string_sig()) {
            match dec_named_dyn(d) {
                Some(kv) => Some(LogEventV::NamedString(kv.0, kv.1)),
                None => None,
            }
        } else {
            None
        }
    }
}

fn dec_dyn_x(d: &Vec<u8>) -> (r: Option<Vec<u8>>)
    ensures
        r is Some <==> dec_dyn(d@) is Some,
        r matches Some(v) ==> Some(v@) == dec_dyn(d@),
{
    if d.len() < 32 {
        return None;
    }
    let w: W256 = word_at(d, 0);
    if !(w.hi == 0 && w.lo == 32) {
        return None;
    }
    read_bytes_at(d, 32)
}

fn dec_word_x(d: &Vec<u8>) -> (r: Option<W256>)
    ensures
        r == dec_word(d@),
{
    if d.len() < 32 {
        return None;
    }
    Some(word_at(d, 0))
}

fn dec_named_word_x(d: &Vec<u8>) -> (r: Option<(Vec<u8>, W256)>)
    ensures
        r is Some <==> dec_named_word(d@) is Some,
        r matches Some(kw) ==> Some((kw.0@, kw.1)) == dec_named_word(d@),
{
    if d.len() < 64 {
        return None;
    }
    let w: W256 = word_at(d, 0);
    if !(w.hi == 0 && w.lo == 64) {
        return None;
    }
    let val: W256 = word_at(d, 32);
    match read_bytes_at(d, 64) {
        Some(k) => Some((k, val)),
        None => None,
    }
}

fn dec_named_decimal_x(d: &Vec<u8>) -> (r: Option<(Vec<u8>, W256, W256)>)
    ensures
        r is Some <==> dec_named_decimal(d@) is Some,
        r matches Some(kwd) ==> Some((kwd.0@, kwd.1, kwd.2)) == dec_named_decimal(d@),
{
    if d.len() < 96 {
        return None;
    }
    let w: W256 = word_at(d, 0);
    if !(w.hi == 0 && w.lo == 96) {
        return None;
    }
    let val: W256 = word_at(d, 32);
    let dec: W256 = word_at(d, 64);
    match read_bytes_at(d, 96) {
        Some(k) => Some((k, val, dec)),
        None => None,
    }
}

fn dec_named_dyn_x(d: &Vec<u8>) -> (r: Option<(Vec<u8>, Vec<u8>)>)
    ensures
        r is Some <==> dec_named_dyn(d@) is Some,
        r matches Some(kv) ==> Some((kv.0@, kv.1@)) == dec_named_dyn(d@),
{
    if d.len() < 64 {
        return None;
    }
    let w: W256 = word_at(d, 0);
    if !(w.hi == 0 && w.lo == 64) {
        return None;
    }
    let vo: W256 = word_at(d, 32);
    if vo.hi != 0 {
        return None;
    }
    let k: Vec<u8> = match read_bytes_at(d, 64) {
        Some(k) => k,
        None => {
            return None;
        },
    };
    match read_bytes_at(d, vo.lo) {
        Some(v) => Some((k, v)),
        None => None,
    }
}

/// Decodes one raw log against the fixed recognized event set; an
/// unrecognized first topic or an out-of-shape payload decodes to nothing.
pub fn decode_event(topics: &Vec<W256>, data: &Vec<u8>) -> (r: Option<LogEvent>)
    ensures
        r is Some <==> decode_event_model(topics@, data@) is Some,
        r matches Some(e) ==> Some(e@) == decode_event_model(topics@, data@),
{
    if topics.len() < 1 {
        return None;
    }
    let t0: W256 = topics[0];
    if t0 == topic(&ev_log()) {
        match dec_dyn_x(data) {
            Some(s) => Some(LogEvent::Log(s)),
            None => None,
        }
    } else if t0 == topic(&ev_logs()) {
        match dec_dyn_x(data) {
            Some(s) => Some(LogEvent::Logs(s)),
            None => None,
        }
    } else if t0 == topic(&ev_log_address()) {
        match dec_word_x(data) {
            Some(w) => Some(LogEvent::LogAddress(addr_of_word(&w))),
            None => None,
        }
    } else if t0 == topic(&ev_log_bytes32()) {
        match dec_word_x(data) {
            Some(w) => Some(LogEvent::LogBytes32(w)),
            None => None,
        }
    } else if t0 == topic(&ev_log_int()) {
        match dec_word_x(data) {
            Some(w) => Some(LogEvent::LogInt(w)),
            None => None,
        }
    } else if t0 == topic(&ev_log_uint()) {
        match dec_word_x(data) {
            Some(w) => Some(LogEvent::LogUint(w)),
            None => None,
        }
    } else if t0 == topic(&ev_log_bytes()) {
        match dec_dyn_x(data) {
            Some(s) => Some(LogEvent::LogBytes(s)),
            None => None,
        }
    } else if t0 == topic(&ev_log_string()) {
        match dec_dyn_x(data) {
            Some(s) => Some(LogEvent::LogString(s)),
            None => None,
        }
    } else if t0 == topic(&ev_log_named_address()) {
        match dec_named_word_x(data) {
            Some(kw) => Some(LogEvent::NamedAddress(kw.0, addr_of_word(&kw.1))),
            None => None,
        }
    } else if t0 == topic(&ev_log_named_bytes32()) {
        match dec_named_word_x(data) {
            Some(kw) => Some(LogEvent::NamedBytes32(kw.0, kw.1)),
            None => None,
        }
    } else if t0 == topic(&ev_log_named_decimal_int()) {
        match dec_named_decimal_x(data) {
            Some(kwd) => Some(LogEvent::NamedDecimalInt(kwd.0, kwd.1, kwd.2)),
            None => None,
        }
    } else if t0 == topic(&ev_log_named_decimal_uint()) {
        match dec_named_decimal_x(data) {
            Some(kwd) => Some(LogEvent::NamedDecimalUint(kwd.0, kwd.1, kwd.2)),
            None => None,
        }
    } else if t0 == topic(&ev_log_named_int()) {
        match dec_named_word_x(data) {
            Some(kw) => Some(LogEvent::NamedInt(kw.0, kw.1)),
            None => None,
        }
    } else if t0 == topic(&ev_log_named_uint()) {
        match dec_named_word_x(data) {
            Some(kw) => Some(LogEvent::NamedUint(kw.0, kw.1)),
            None => None,
        }
    } else if t0 == topic(&ev_log_named_bytes()) {
        match dec_named_dyn_x(data) {
            Some(kv) => Some(LogEvent::NamedBytes(kv.0, kv.1)),
            None => None,
        }
    } else if t0 == topic(&ev_log_named_string()) {
        match dec_named_dyn_x(data) {
            Some(kv) => Some(LogEvent::NamedString(kv.0, kv.1)),
            None => None,
        }
    } else {
        None
    }
}

/// The append-only, explicitly-cleared sequence of decoded log events of one
/// run.
#[derive(Debug)]
pub struct LogCollector {
    pub events: Vec<LogEvent>,
}

impl LogCollector {
    /// An empty collector.
    pub fn new() -> (r: LogCollector)
        ensures
            r.events@ == Seq::<LogEvent>::empty(),
    {
        LogCollector { events: Vec::new() }
    }

    /// Appends one already-decoded event.
    pub fn record(&mut self, e: LogEvent)
        ensures
            final(self).events@ == old(self).events@.push(e),
    {
        self.events.push(e);
    }

    /// Feeds one raw log through the recognized-event decoder: a recognized
    /// log appends exactly one entry, an unrecognized one is silently ignored.
    pub fn record_raw(&mut self, topics: &Vec<W256>, data: &Vec<u8>)
        ensures
            decode_event_model(topics@, data@) matches Some(ev) ==> {
                &&& final(self).events@.len() == old(self).events@.len() + 1
                &&& final(self).events@.last()@ == ev
                &&& final(self).events@.drop_last() == old(self).events@
            },
            decode_event_model(topics@, data@) is None ==> final(self).events@ == old(
                self,
            ).events@,
    {
        match decode_event(topics, data) {
            Some(e) => {
                self.events.push(e);
                proof {
                    assert(self.events@.drop_last() =~= old(self).events@);
                }
            },
            None => {},
        }
    }

    /// Empties the collector; nothing else is touched.
    pub fn clear(&mut self)
        ensures
            final(self).events@ == Seq::<LogEvent>::empty(),
    {
        self.events.clear();
    }

    /// The events recorded since the last clear, in order.
    pub fn events_ref(&self) -> (r: &Vec<LogEvent>)
        ensures
            r@ == self.events@,
    {
        &self.events
    }
}

} // verus!
