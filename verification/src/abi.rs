use vstd::prelude::*;

use crate::types::{w256_at, word_at, W256};

verus! {

/// The value of a word taken as an offset or length: meaningful only when its
/// high half is zero.
pub open spec fn lo_of(w: W256) -> Option<int> {
    if w.hi == 0 {
        Some(w.lo as int)
    } else {
        None
    }
}

/// A length-prefixed byte string at `pos`: a length word followed by that many
/// payload bytes (padding, if any, is ignored).
pub open spec fn bytes_at(d: Seq<u8>, pos: int) -> Option<Seq<u8>> {
    if 0 <= pos && pos + 32 <= d.len() {
        match lo_of(w256_at(d, pos)) {
            Some(len) => if pos + 32 + len <= d.len() {
                Some(d.subrange(pos + 32, pos + 32 + len))
            } else {
                None
            },
            None => None,
        }
    } else {
        None
    }
}

/// Copies `d[start..start + len]`.
pub fn copy_range(d: &Vec<u8>, start: usize, len: usize) -> (r: Vec<u8>)
    requires
        start + len <= d@.len(),
    ensures
        r@ == d@.subrange(start as int, start as int + len as int),
{
    let dl: usize = d.len();
    let mut out: Vec<u8> = Vec::new();
    let mut i: usize = 0;
    while i < len
        invariant
            i <= len,
            dl == d@.len(),
            start + len <= d@.len(),
            out@.len() == i,
            forall|j: int| 0 <= j < i ==> out@[j] == d@[start + j],
        decreases len - i,
    {
        out.push(d[start + i]);
        i = i + 1;
    }
    proof {
        assert(out@ =~= d@.subrange(start as int, start as int + len as int));
    }
    out
}

/// Reads the length-prefixed byte string at `pos`, if it lies within `d`.
pub fn read_bytes_at(d: &Vec<u8>, pos: u128) -> (r: Option<Vec<u8>>)
    ensures
        r is Some <==> bytes_at(d@, pos as int) is Some,
        r matches Some(v) ==> Some(v@) == bytes_at(d@, pos as int),
{
    let dlen: u128 = d.len() as u128;
    if pos >= dlen {
        return None;
    }
    if pos + 32 > dlen {
        return None;
    }
    let w: W256 = word_at(d, pos as usize);
    if w.hi != 0 {
        return None;
    }
    let len: u128 = w.lo;
    if len > dlen - pos - 32 {
        return None;
    }
    let out: Vec<u8> = copy_range(d, (pos + 32) as usize, len as usize);
    Some(out)
}

/// The `j`-th element of a dynamic string array whose element head words
/// start at `heads`: an offset word, relative to `heads`, pointing at a
/// length-prefixed byte string.
pub open spec fn elem_at(d: Seq<u8>, heads: int, j: int) -> Option<Seq<u8>> {
    if 0 <= heads + 32 * j && heads + 32 * j + 32 <= d.len() {
        match lo_of(w256_at(d, heads + 32 * j)) {
            Some(off) => bytes_at(d, heads + off),
            None => None,
        }
    } else {
        None
    }
}

/// The first `k` elements of the array, in order; any failure poisons the whole.
pub open spec fn elems_upto(d: Seq<u8>, heads: int, k: nat) -> Option<Seq<Seq<u8>>>
    decreases k,
{
    if k == 0 {
        Some(Seq::<Seq<u8>>::empty())
    } else {
        match elems_upto(d, heads, (k - 1) as nat) {
            Some(pre) => match elem_at(d, heads, k - 1) {
                Some(s) => Some(pre.push(s)),
                None => None,
            },
            None => None,
        }
    }
}

/// If any element below `k` is out of shape, the first `k` elements are too.
pub proof fn lemma_elems_upto_none(d: Seq<u8>, heads: int, k: nat, j: int)
    requires
        0 <= j < k,
        elem_at(d, heads, j) is None,
    ensures
        elems_upto(d, heads, k) is None,
    decreases k,
{
    if k > 0 && j < k - 1 {
        lemma_elems_upto_none(d, heads, (k - 1) as nat, j);
    }
}

/// A `string[]` argument whose offset word stands at `base`, with offsets
/// taken relative to `base`: an array length, then one offset word per
/// element, each pointing at a length-prefixed byte string.
pub open spec fn string_array_at(d: Seq<u8>, base: int) -> Option<Seq<Seq<u8>>> {
    if 0 <= base && base + 32 <= d.len() {
        match lo_of(w256_at(d, base)) {
            Some(off) => {
                let arr = base + off;
                if arr + 32 <= d.len() {
                    match lo_of(w256_at(d, arr)) {
                        Some(n) => elems_upto(d, arr + 32, n as nat),
                        None => None,
                    }
                } else {
                    None
                }
            },
            None => None,
        }
    } else {
        None
    }
}

/// Decodes the `string[]` argument whose offset word stands at `base`; the
/// result's elements are the raw byte strings, in order.
pub fn read_string_array(d: &Vec<u8>, base: u128) -> (r: Option<Vec<Vec<u8>>>)
    ensures
        r is Some <==> string_array_at(d@, base as int) is Some,
        r matches Some(v) ==> {
            &&& string_array_at(d@, base as int) matches Some(es)
            &&& v@.len() == es.len()
            &&& forall|j: int| 0 <= j < es.len() ==> v@[j]@ == es[j]
        },
{
    let dlen: u128 = d.len() as u128;
    if base >= dlen {
        return None;
    }
    if base + 32 > dlen {
        return None;
    }
    let offw: W256 = word_at(d, base as usize);
    if offw.hi != 0 {
        return None;
    }
    if offw.lo > dlen {
        return None;
    }
    let arr: u128 = base + offw.lo;
    if arr + 32 > dlen {
        return None;
    }
    let lenw: W256 = word_at(d, arr as usize);
    if lenw.hi != 0 {
        return None;
    }
    let n: u128 = lenw.lo;
    let heads: u128 = arr + 32;
    proof {
        assert(string_array_at(d@, base as int) == elems_upto(d@, heads as int, n as nat));
    }
    let mut out: Vec<Vec<u8>> = Vec::new();
    let mut k: u128 = 0;
    while k < n
        invariant
            k <= n,
            dlen == d.len(),
            heads == arr + 32,
            arr + 32 <= dlen,
            32 * k <= dlen,
            string_array_at(d@, base as int) == elems_upto(d@, heads as int, n as nat),
            elems_upto(d@, heads as int, k as nat) matches Some(es) && es.len() == out@.len()
                && (forall|j: int| 0 <= j < es.len() ==> out@[j]@ == es[j]),
        decreases n - k,
    {
        if 32 * k + 32 > dlen - heads {
            proof {
                assert(elem_at(d@, heads as int, k as int) is None);
                lemma_elems_upto_none(d@, heads as int, n as nat, k as int);
            }
            return None;
        }
        let pos: u128 = heads + 32 * k;
        let hw: W256 = word_at(d, pos as usize);
        if hw.hi != 0 {
            proof {
                assert(elem_at(d@, heads as int, k as int) is None);
                lemma_elems_upto_none(d@, heads as int, n as nat, k as int);
            }
            return None;
        }
        if hw.lo > dlen {
            proof {
                assert(bytes_at(d@, heads as int + hw.lo as int) is None);
                assert(elem_at(d@, heads as int, k as int) is None);
                lemma_elems_upto_none(d@, heads as int, n as nat, k as int);
            }
            return None;
        }
        match read_bytes_at(d, heads + hw.lo) {
            Some(s) => {
                out.push(s);
            },
            None => {
                proof {
                    assert(elem_at(d@, heads as int, k as int) is None);
                    lemma_elems_upto_none(d@, heads as int, n as nat, k as int);
                }
                return None;
            },
        }
        k = k + 1;
    }
    proof {
        assert(string_array_at(d@, base as int) == elems_upto(d@, heads as int, n as nat));
    }
    Some(out)
}

} // verus!
