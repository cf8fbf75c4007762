use vstd::prelude::*;

verus! {

/// A 160-bit account address, big-endian: `hi` holds the leading 4 bytes,
/// `lo` the trailing 16 bytes.
#[derive(Clone, Copy, PartialEq, Eq, Structural, Debug)]
pub struct Addr {
    pub hi: u32,
    pub lo: u128,
}

/// A 256-bit EVM word, big-endian: `hi` holds the leading 16 bytes, `lo` the
/// trailing 16 bytes.
#[derive(Clone, Copy, PartialEq, Eq, Structural, Debug)]
pub struct W256 {
    pub hi: u128,
    pub lo: u128,
}

impl W256 {
    pub open spec fn zero_spec() -> W256 {
        W256 { hi: 0, lo: 0 }
    }

    pub fn zero() -> (r: W256)
        ensures
            r == W256::zero_spec(),
    {
        W256 { hi: 0, lo: 0 }
    }

    pub open spec fn from_u64_spec(x: u64) -> W256 {
        W256 { hi: 0, lo: x as u128 }
    }

    pub fn from_u64(x: u64) -> (r: W256)
        ensures
            r == W256::from_u64_spec(x),
    {
        W256 { hi: 0, lo: x as u128 }
    }
}

impl Addr {
    pub open spec fn zero_spec() -> Addr {
        Addr { hi: 0, lo: 0 }
    }

    pub fn zero() -> (r: Addr)
        ensures
            r == Addr::zero_spec(),
    {
        Addr { hi: 0, lo: 0 }
    }
}

/// The big-endian integer value of the `n` bytes of `s` starting at `i`.
pub open spec fn be_val(s: Seq<u8>, i: int, n: nat) -> int
    decreases n,
{
    if n == 0 {
        0
    } else {
        be_val(s, i, (n - 1) as nat) * 256 + s[i + n - 1]
    }
}

/// 256 to the power `n`.
pub open spec fn pow256(n: nat) -> int
    decreases n,
{
    if n == 0 {
        1
    } else {
        256 * pow256((n - 1) as nat)
    }
}

pub proof fn lemma_pow256_increases(a: nat, b: nat)
    requires
        a <= b,
    ensures
        pow256(a) <= pow256(b),
        pow256(a) >= 1,
    decreases b,
{
    if a < b {
        lemma_pow256_increases(a, (b - 1) as nat);
    } else if b > 0 {
        lemma_pow256_increases((a - 1) as nat, (b - 1) as nat);
    }
}

pub proof fn lemma_be_val_bound(s: Seq<u8>, i: int, n: nat)
    requires
        0 <= i,
        i + n <= s.len(),
    ensures
        0 <= be_val(s, i, n) < pow256(n),
    decreases n,
{
    if n > 0 {
        lemma_be_val_bound(s, i, (n - 1) as nat);
    }
}

/// Reads the big-endian value of `d[i..i + n]` for `n <= 16`.
pub fn read_be128(d: &Vec<u8>, i: usize, n: usize) -> (r: u128)
    requires
        i + n <= d.len(),
        n <= 16,
    ensures
        r as int == be_val(d@, i as int, n as nat),
{
    let mut r: u128 = 0;
    let mut k: usize = 0;
    proof {
        lemma_be_val_bound(d@, i as int, 0nat);
    }
    while k < n
        invariant
            k <= n,
            n <= 16,
            i + n <= d.len(),
            r as int == be_val(d@, i as int, k as nat),
        decreases n - k,
    {
        proof {
            lemma_be_val_bound(d@, i as int, k as nat);
            lemma_pow256_increases(k as nat, 15nat);
            reveal_with_fuel(pow256, 16);
            assert(pow256(15) == 0x1000000000000000000000000000000);
        }
        r = r * 256 + (d[i + k] as u128);
        k = k + 1;
    }
    r
}

/// The 256-bit word held big-endian in `s[i..i + 32]`.
pub open spec fn w256_at(s: Seq<u8>, i: int) -> W256 {
    W256 { hi: be_val(s, i, 16) as u128, lo: be_val(s, i + 16, 16) as u128 }
}

/// Reads the 32-byte word of `d` starting at `i`.
pub fn word_at(d: &Vec<u8>, i: usize) -> (r: W256)
    requires
        i + 32 <= d.len(),
    ensures
        r == w256_at(d@, i as int),
{
    let hi: u128 = read_be128(d, i, 16);
    let lo: u128 = read_be128(d, i + 16, 16);
    proof {
        lemma_be_val_bound(d@, i as int, 16nat);
        lemma_be_val_bound(d@, i as int + 16, 16nat);
    }
    W256 { hi, lo }
}

/// The big-endian 16-byte encoding of `x`.
pub open spec fn be_bytes16(x: u128) -> Seq<u8> {
    Seq::new(16, |j: int| ((x >> (((15 - j) * 8) as u128)) & 0xff) as u8)
}

/// The big-endian 32-byte encoding of a word.
pub open spec fn w256_bytes(w: W256) -> Seq<u8> {
    be_bytes16(w.hi) + be_bytes16(w.lo)
}

fn push_be_bytes16(out: &mut Vec<u8>, x: u128)
    ensures
        final(out)@ == old(out)@ + be_bytes16(x),
{
    let mut j: usize = 0;
    while j < 16
        invariant
            j <= 16,
            out@.len() == old(out)@.len() + j,
            forall|t: int| 0 <= t < old(out)@.len() ==> out@[t] == old(out)@[t],
            forall|t: int| 0 <= t < j ==> out@[old(out)@.len() + t] == be_bytes16(x)[t],
        decreases 16 - j,
    {
        let shift: u128 = ((15 - j) * 8) as u128;
        let y: u128 = x >> shift;
        proof {
            assert((y & 0xff) < 256) by (bit_vector);
        }
        let b: u8 = (y & 0xff) as u8;
        out.push(b);
        j = j + 1;
    }
    proof {
        assert(out@ =~= old(out)@ + be_bytes16(x));
    }
}

/// Appends a word's 32 big-endian bytes.
pub fn push_w256_bytes(out: &mut Vec<u8>, w: &W256)
    ensures
        final(out)@ == old(out)@ + w256_bytes(*w),
{
    push_be_bytes16(out, w.hi);
    push_be_bytes16(out, w.lo);
    proof {
        assert(out@ =~= old(out)@ + w256_bytes(*w));
    }
}

/// Encodes a word as its 32 big-endian bytes.
pub fn w256_to_bytes(w: &W256) -> (r: Vec<u8>)
    ensures
        r@ == w256_bytes(*w),
        r@.len() == 32,
{
    let mut out: Vec<u8> = Vec::new();
    push_be_bytes16(&mut out, w.hi);
    push_be_bytes16(&mut out, w.lo);
    proof {
        assert(out@ =~= w256_bytes(*w));
    }
    out
}

/// The big-endian 4-byte encoding of the leading address bytes.
pub open spec fn be_bytes4(x: u32) -> Seq<u8> {
    Seq::new(4, |j: int| ((x >> (((3 - j) * 8) as u32)) & 0xff) as u8)
}

/// The 20 big-endian bytes of an address.
pub open spec fn addr_bytes(a: Addr) -> Seq<u8> {
    be_bytes4(a.hi) + be_bytes16(a.lo)
}

/// Appends an address's 20 big-endian bytes.
pub fn push_addr_bytes(out: &mut Vec<u8>, a: &Addr)
    ensures
        final(out)@ == old(out)@ + addr_bytes(*a),
{
    let mut j: usize = 0;
    while j < 4
        invariant
            j <= 4,
            out@.len() == old(out)@.len() + j,
            forall|t: int| 0 <= t < old(out)@.len() ==> out@[t] == old(out)@[t],
            forall|t: int| 0 <= t < j ==> out@[old(out)@.len() + t] == be_bytes4(a.hi)[t],
        decreases 4 - j,
    {
        let shift: u32 = ((3 - j) * 8) as u32;
        let y: u32 = a.hi >> shift;
        proof {
            assert((y & 0xff) < 256) by (bit_vector);
        }
        out.push((y & 0xff) as u8);
        j = j + 1;
    }
    push_be_bytes16(out, a.lo);
    proof {
        assert(out@ =~= old(out)@ + addr_bytes(*a));
    }
}

/// The address held in the trailing 20 bytes of a 32-byte digest.
pub open spec fn addr_of_digest_spec(s: Seq<u8>) -> Addr {
    Addr { hi: be_val(s, 12, 4) as u32, lo: be_val(s, 16, 16) as u128 }
}

/// Takes the trailing 20 bytes of a 32-byte digest as an address.
pub fn addr_of_digest(d: &Vec<u8>) -> (r: Addr)
    requires
        d@.len() == 32,
    ensures
        r == addr_of_digest_spec(d@),
{
    let hi128: u128 = read_be128(d, 12, 4);
    let lo: u128 = read_be128(d, 16, 16);
    proof {
        lemma_be_val_bound(d@, 12, 4nat);
        reveal_with_fuel(pow256, 5);
        assert(pow256(4) == 0x100000000);
        lemma_be_val_bound(d@, 16, 16nat);
    }
    Addr { hi: hi128 as u32, lo }
}

/// The address held in the low 20 bytes of a word.
pub open spec fn addr_of_word_spec(w: W256) -> Addr {
    Addr { hi: (w.hi & 0xffff_ffff) as u32, lo: w.lo }
}

pub fn addr_of_word(w: &W256) -> (r: Addr)
    ensures
        r == addr_of_word_spec(*w),
{
    let h: u128 = w.hi;
    proof {
        assert((h & 0xffff_ffff) <= 0xffff_ffffu128) by (bit_vector);
    }
    Addr { hi: (h & 0xffff_ffff) as u32, lo: w.lo }
}

/// The word whose low 20 bytes are the address and whose high 12 bytes are zero.
pub open spec fn word_of_addr_spec(a: Addr) -> W256 {
    W256 { hi: a.hi as u128, lo: a.lo }
}

pub fn word_of_addr(a: &Addr) -> (r: W256)
    ensures
        r == word_of_addr_spec(*a),
{
    W256 { hi: a.hi as u128, lo: a.lo }
}

} // verus!
