use vstd::prelude::*;

verus! {

/// The ABI signature `roll(uint256)` as its ASCII bytes.
pub open spec fn sig_roll_sig() -> Seq<u8> {
    seq![114u8, 111u8, 108u8, 108u8, 40u8, 117u8, 105u8, 110u8, 116u8, 50u8, 53u8, 54u8, 41u8]
}

pub(crate) fn sig_roll() -> (r: Vec<u8>)
    ensures
        r@ == sig_roll_sig(),
{
    let mut v: Vec<u8> = Vec::new();
    v.push(114u8);
    v.push(111u8);
    v.push(108u8);
    v.push(108u8);
    v.push(40u8);
    v.push(117u8);
    v.push(105u8);
    v.push(110u8);
    v.push(116u8);
    v.push(50u8);
    v.push(53u8);
    v.push(54u8);
    v.push(41u8);
    proof {
        assert(v@ =~= sig_roll_sig());
    }
    v
}

/// The ABI signature `warp(uint256)` as its ASCII bytes.
pub open spec fn sig_warp_sig() -> Seq<u8> {
    seq![119u8, 97u8, 114u8, 112u8, 40u8, 117u8, 105u8, 110u8, 116u8, 50u8, 53u8, 54u8, 41u8]
}

pub(crate) fn sig_warp() -> (r: Vec<u8>)
    ensures
        r@ == sig_warp_sig(),
{
    let mut v: Vec<u8> = Vec::new();
    v.push(119u8);
    v.push(97u8);
    v.push(114u8);
    v.push(112u8);
    v.push(40u8);
    v.push(117u8);
    v.push(105u8);
    v.push(110u8);
    v.push(116u8);
    v.push(50u8);
    v.push(53u8);
    v.push(54u8);
    v.push(41u8);
    proof {
        assert(v@ =~= sig_warp_sig());
    }
    v
}

/// The ABI signature `store(address,bytes32,bytes32)` as its ASCII bytes.
pub open spec fn sig_store_sig() -> Seq<u8> {
    seq![115u8, 116u8, 111u8, 114u8, 101u8, 40u8, 97u8, 100u8, 100u8, 114u8, 101u8, 115u8, 115u8, 44u8, 98u8, 121u8, 116u8, 101u8, 115u8, 51u8, 50u8, 44u8, 98u8, 121u8, 116u8, 101u8, 115u8, 51u8, 50u8, 41u8]
}

pub(crate) fn sig_store() -> (r: Vec<u8>)
    ensures
        r@ == sig_store_sig(),
{
    let mut v: Vec<u8> = Vec::new();
    v.push(115u8);
    v.push(116u8);
    v.push(111u8);
    v.push(114u8);
    v.push(101u8);
    v.push(40u8);
    v.push(97u8);
    v.push(100u8);
    v.push(100u8);
    v.push(114u8);
    v.push(101u8);
    v.push(115u8);
    v.push(115u8);
    v.push(44u8);
    v.push(98u8);
    v.push(121u8);
    v.push(116u8);
    v.push(101u8);
    v.push(115u8);
    v.push(51u8);
    v.push(50u8);
    v.push(44u8);
    v.push(98u8);
    v.push(121u8);
    v.push(116u8);
    v.push(101u8);
    v.push(115u8);
    v.push(51u8);
    v.push(50u8);
    v.push(41u8);
    proof {
        assert(v@ =~= sig_store_sig());
    }
    v
}

/// The ABI signature `load(address,bytes32)` as its ASCII bytes.
pub open spec fn sig_load_sig() -> Seq<u8> {
    seq![108u8, 111u8, 97u8, 100u8, 40u8, 97u8, 100u8, 100u8, 114u8, 101u8, 115u8, 115u8, 44u8, 98u8, 121u8, 116u8, 101u8, 115u8, 51u8, 50u8, 41u8]
}

pub(crate) fn sig_load() -> (r: Vec<u8>)
    ensures
        r@ == sig_load_sig(),
{
    let mut v: Vec<u8> = Vec::new();
    v.push(108u8);
    v.push(111u8);
    v.push(97u8);
    v.push(100u8);
    v.push(40u8);
    v.push(97u8);
    v.push(100u8);
    v.push(100u8);
    v.push(114u8);
    v.push(101u8);
    v.push(115u8);
    v.push(115u8);
    v.push(44u8);
    v.push(98u8);
    v.push(121u8);
    v.push(116u8);
    v.push(101u8);
    v.push(115u8);
    v.push(51u8);
    v.push(50u8);
    v.push(41u8);
    proof {
        assert(v@ =~= sig_load_sig());
    }
    v
}

/// The ABI signature `ffi(string[])` as its ASCII bytes.
pub open spec fn sig_ffi_sig() -> Seq<u8> {
    seq![102u8, 102u8, 105u8, 40u8, 115u8, 116u8, 114u8, 105u8, 110u8, 103u8, 91u8, 93u8, 41u8]
}

pub(crate) fn sig_ffi() -> (r: Vec<u8>)
    ensures
        r@ == sig_ffi_sig(),
{
    let mut v: Vec<u8> = Vec::new();
    v.push(102u8);
    v.push(102u8);
    v.push(105u8);
    v.push(40u8);
    v.push(115u8);
    v.push(116u8);
    v.push(114u8);
    v.push(105u8);
    v.push(110u8);
    v.push(103u8);
    v.push(91u8);
    v.push(93u8);
    v.push(41u8);
    proof {
        assert(v@ =~= sig_ffi_sig());
    }
    v
}

/// The ABI signature `log(string)` as its ASCII bytes.
pub open spec fn ev_log_sig() -> Seq<u8> {
    seq![108u8, 111u8, 103u8, 40u8, 115u8, 116u8, 114u8, 105u8, 110u8, 103u8, 41u8]
}

pub(crate) fn ev_log() -> (r: Vec<u8>)
    ensures
        r@ == ev_log_sig(),
{
    let mut v: Vec<u8> = Vec::new();
    v.push(108u8);
    v.push(111u8);
    v.push(103u8);
    v.push(40u8);
    v.push(115u8);
    v.push(116u8);
    v.push(114u8);
    v.push(105u8);
    v.push(110u8);
    v.push(103u8);
    v.push(41u8);
    proof {
        assert(v@ =~= ev_log_sig());
    }
    v
}

/// The ABI signature `logs(bytes)` as its ASCII bytes.
pub open spec fn ev_logs_sig() -> Seq<u8> {
    seq![108u8, 111u8, 103u8, 115u8, 40u8, 98u8, 121u8, 116u8, 101u8, 115u8, 41u8]
}

pub(crate) fn ev_logs() -> (r: Vec<u8>)
    ensures
        r@ == ev_logs_sig(),
{
    let mut v: Vec<u8> = Vec::new();
    v.push(108u8);
    v.push(111u8);
    v.push(103u8);
    v.push(115u8);
    v.push(40u8);
    v.push(98u8);
    v.push(121u8);
    v.push(116u8);
    v.push(101u8);
    v.push(115u8);
    v.push(41u8);
    proof {
        assert(v@ =~= ev_logs_sig());
    }
    v
}

/// The ABI signature `log_address(address)` as its ASCII bytes.
pub open spec fn ev_log_address_sig() -> Seq<u8> {
    seq![108u8, 111u8, 103u8, 95u8, 97u8, 100u8, 100u8, 114u8, 101u8, 115u8, 115u8, 40u8, 97u8, 100u8, 100u8, 114u8, 101u8, 115u8, 115u8, 41u8]
}

pub(crate) fn ev_log_address() -> (r: Vec<u8>)
    ensures
        r@ == ev_log_address_sig(),
{
    let mut v: Vec<u8> = Vec::new();
    v.push(108u8);
    v.push(111u8);
    v.push(103u8);
    v.push(95u8);
    v.push(97u8);
    v.push(100u8);
    v.push(100u8);
    v.push(114u8);
    v.push(101u8);
    v.push(115u8);
    v.push(115u8);
    v.push(40u8);
    v.push(97u8);
    v.push(100u8);
    v.push(100u8);
    v.push(114u8);
    v.push(101u8);
    v.push(115u8);
    v.push(115u8);
    v.push(41u8);
    proof {
        assert(v@ =~= ev_log_address_sig());
    }
    v
}

/// The ABI signature `log_bytes32(bytes32)` as its ASCII bytes.
pub open spec fn ev_log_bytes32_sig() -> Seq<u8> {
    seq![108u8, 111u8, 103u8, 95u8, 98u8, 121u8, 116u8, 101u8, 115u8, 51u8, 50u8, 40u8, 98u8, 121u8, 116u8, 101u8, 115u8, 51u8, 50u8, 41u8]
}

pub(crate) fn ev_log_bytes32() -> (r: Vec<u8>)
    ensures
        r@ == ev_log_bytes32_sig(),
{
    let mut v: Vec<u8> = Vec::new();
    v.push(108u8);
    v.push(111u8);
    v.push(103u8);
    v.push(95u8);
    v.push(98u8);
    v.push(121u8);
    v.push(116u8);
    v.push(101u8);
    v.push(115u8);
    v.push(51u8);
    v.push(50u8);
    v.push(40u8);
    v.push(98u8);
    v.push(121u8);
    v.push(116u8);
    v.push(101u8);
    v.push(115u8);
    v.push(51u8);
    v.push(50u8);
    v.push(41u8);
    proof {
        assert(v@ =~= ev_log_bytes32_sig());
    }
    v
}

/// The ABI signature `log_int(int256)` as its ASCII bytes.
pub open spec fn ev_log_int_sig() -> Seq<u8> {
    seq![108u8, 111u8, 103u8, 95u8, 105u8, 110u8, 116u8, 40u8, 105u8, 110u8, 116u8, 50u8, 53u8, 54u8, 41u8]
}

pub(crate) fn ev_log_int() -> (r: Vec<u8>)
    ensures
        r@ == ev_log_int_sig(),
{
    let mut v: Vec<u8> = Vec::new();
    v.push(108u8);
    v.push(111u8);
    v.push(103u8);
    v.push(95u8);
    v.push(105u8);
    v.push(110u8);
    v.push(116u8);
    v.push(40u8);
    v.push(105u8);
    v.push(110u8);
    v.push(116u8);
    v.push(50u8);
    v.push(53u8);
    v.push(54u8);
    v.push(41u8);
    proof {
        assert(v@ =~= ev_log_int_sig());
    }
    v
}

/// The ABI signature `log_uint(uint256)` as its ASCII bytes.
pub open spec fn ev_log_uint_sig() -> Seq<u8> {
    seq![108u8, 111u8, 103u8, 95u8, 117u8, 105u8, 110u8, 116u8, 40u8, 117u8, 105u8, 110u8, 116u8, 50u8, 53u8, 54u8, 41u8]
}

pub(crate) fn ev_log_uint() -> (r: Vec<u8>)
    ensures
        r@ == ev_log_uint_sig(),
{
    let mut v: Vec<u8> = Vec::new();
    v.push(108u8);
    v.push(111u8);
    v.push(103u8);
    v.push(95u8);
    v.push(117u8);
    v.push(105u8);
    v.push(110u8);
    v.push(116u8);
    v.push(40u8);
    v.push(117u8);
    v.push(105u8);
    v.push(110u8);
    v.push(116u8);
    v.push(50u8);
    v.push(53u8);
    v.push(54u8);
    v.push(41u8);
    proof {
        assert(v@ =~= ev_log_uint_sig());
    }
    v
}

/// The ABI signature `log_bytes(bytes)` as its ASCII bytes.
pub open spec fn ev_log_bytes_sig() -> Seq<u8> {
    seq![108u8, 111u8, 103u8, 95u8, 98u8, 121u8, 116u8, 101u8, 115u8, 40u8, 98u8, 121u8, 116u8, 101u8, 115u8, 41u8]
}

pub(crate) fn ev_log_bytes() -> (r: Vec<u8>)
    ensures
        r@ == ev_log_bytes_sig(),
{
    let mut v: Vec<u8> = Vec::new();
    v.push(108u8);
    v.push(111u8);
    v.push(103u8);
    v.push(95u8);
    v.push(98u8);
    v.push(121u8);
    v.push(116u8);
    v.push(101u8);
    v.push(115u8);
    v.push(40u8);
    v.push(98u8);
    v.push(121u8);
    v.push(116u8);
    v.push(101u8);
    v.push(115u8);
    v.push(41u8);
    proof {
        assert(v@ =~= ev_log_bytes_sig());
    }
    v
}

/// The ABI signature `log_string(string)` as its ASCII bytes.
pub open spec fn ev_log_string_sig() -> Seq<u8> {
    seq![108u8, 111u8, 103u8, 95u8, 115u8, 116u8, 114u8, 105u8, 110u8, 103u8, 40u8, 115u8, 116u8, 114u8, 105u8, 110u8, 103u8, 41u8]
}

pub(crate) fn ev_log_string() -> (r: Vec<u8>)
    ensures
        r@ == ev_log_string_sig(),
{
    let mut v: Vec<u8> = Vec::new();
    v.push(108u8);
    v.push(111u8);
    v.push(103u8);
    v.push(95u8);
    v.push(115u8);
    v.push(116u8);
    v.push(114u8);
    v.push(105u8);
    v.push(110u8);
    v.push(103u8);
    v.push(40u8);
    v.push(115u8);
    v.push(116u8);
    v.push(114u8);
    v.push(105u8);
    v.push(110u8);
    v.push(103u8);
    v.push(41u8);
    proof {
        assert(v@ =~= ev_log_string_sig());
    }
    v
}

/// The ABI signature `log_named_address(string,address)` as its ASCII bytes.
pub open spec fn ev_log_named_address_sig() -> Seq<u8> {
    seq![108u8, 111u8, 103u8, 95u8, 110u8, 97u8, 109u8, 101u8, 100u8, 95u8, 97u8, 100u8, 100u8, 114u8, 101u8, 115u8, 115u8, 40u8, 115u8, 116u8, 114u8, 105u8, 110u8, 103u8, 44u8, 97u8, 100u8, 100u8, 114u8, 101u8, 115u8, 115u8, 41u8]
}

pub(crate) fn ev_log_named_address() -> (r: Vec<u8>)
    ensures
        r@ == ev_log_named_address_sig(),
{
    let mut v: Vec<u8> = Vec::new();
    v.push(108u8);
    v.push(111u8);
    v.push(103u8);
    v.push(95u8);
    v.push(110u8);
    v.push(97u8);
    v.push(109u8);
    v.push(101u8);
    v.push(100u8);
    v.push(95u8);
    v.push(97u8);
    v.push(100u8);
    v.push(100u8);
    v.push(114u8);
    v.push(101u8);
    v.push(115u8);
    v.push(115u8);
    v.push(40u8);
    v.push(115u8);
    v.push(116u8);
    v.push(114u8);
    v.push(105u8);
    v.push(110u8);
    v.push(103u8);
    v.push(44u8);
    v.push(97u8);
    v.push(100u8);
    v.push(100u8);
    v.push(114u8);
    v.push(101u8);
    v.push(115u8);
    v.push(115u8);
    v.push(41u8);
    proof {
        assert(v@ =~= ev_log_named_address_sig());
    }
    v
}

/// The ABI signature `log_named_bytes32(string,bytes32)` as its ASCII bytes.
pub open spec fn ev_log_named_bytes32_sig() -> Seq<u8> {
    seq![108u8, 111u8, 103u8, 95u8, 110u8, 97u8, 109u8, 101u8, 100u8, 95u8, 98u8, 121u8, 116u8, 101u8, 115u8, 51u8, 50u8, 40u8, 115u8, 116u8, 114u8, 105u8, 110u8, 103u8, 44u8, 98u8, 121u8, 116u8, 101u8, 115u8, 51u8, 50u8, 41u8]
}

pub(crate) fn ev_log_named_bytes32() -> (r: Vec<u8>)
    ensures
        r@ == ev_log_named_bytes32_sig(),
{
    let mut v: Vec<u8> = Vec::new();
    v.push(108u8);
    v.push(111u8);
    v.push(103u8);
    v.push(95u8);
    v.push(110u8);
    v.push(97u8);
    v.push(109u8);
    v.push(101u8);
    v.push(100u8);
    v.push(95u8);
    v.push(98u8);
    v.push(121u8);
    v.push(116u8);
    v.push(101u8);
    v.push(115u8);
    v.push(51u8);
    v.push(50u8);
    v.push(40u8);
    v.push(115u8);
    v.push(116u8);
    v.push(114u8);
    v.push(105u8);
    v.push(110u8);
    v.push(103u8);
    v.push(44u8);
    v.push(98u8);
    v.push(121u8);
    v.push(116u8);
    v.push(101u8);
    v.push(115u8);
    v.push(51u8);
    v.push(50u8);
    v.push(41u8);
    proof {
        assert(v@ =~= ev_log_named_bytes32_sig());
    }
    v
}

/// The ABI signature `log_named_decimal_int(string,int256,uint256)` as its ASCII bytes.
pub open spec fn ev_log_named_decimal_int_sig() -> Seq<u8> {
    seq![108u8, 111u8, 103u8, 95u8, 110u8, 97u8, 109u8, 101u8, 100u8, 95u8, 100u8, 101u8, 99u8, 105u8, 109u8, 97u8, 108u8, 95u8, 105u8, 110u8, 116u8, 40u8, 115u8, 116u8, 114u8, 105u8, 110u8, 103u8, 44u8, 105u8, 110u8, 116u8, 50u8, 53u8, 54u8, 44u8, 117u8, 105u8, 110u8, 116u8, 50u8, 53u8, 54u8, 41u8]
}

pub(crate) fn ev_log_named_decimal_int() -> (r: Vec<u8>)
    ensures
        r@ == ev_log_named_decimal_int_sig(),
{
    let mut v: Vec<u8> = Vec::new();
    v.push(108u8);
    v.push(111u8);
    v.push(103u8);
    v.push(95u8);
    v.push(110u8);
    v.push(97u8);
    v.push(109u8);
    v.push(101u8);
    v.push(100u8);
    v.push(95u8);
    v.push(100u8);
    v.push(101u8);
    v.push(99u8);
    v.push(105u8);
    v.push(109u8);
    v.push(97u8);
    v.push(108u8);
    v.push(95u8);
    v.push(105u8);
    v.push(110u8);
    v.push(116u8);
    v.push(40u8);
    v.push(115u8);
    v.push(116u8);
    v.push(114u8);
    v.push(105u8);
    v.push(110u8);
    v.push(103u8);
    v.push(44u8);
    v.push(105u8);
    v.push(110u8);
    v.push(116u8);
    v.push(50u8);
    v.push(53u8);
    v.push(54u8);
    v.push(44u8);
    v.push(117u8);
    v.push(105u8);
    v.push(110u8);
    v.push(116u8);
    v.push(50u8);
    v.push(53u8);
    v.push(54u8);
    v.push(41u8);
    proof {
        assert(v@ =~= ev_log_named_decimal_int_sig());
    }
    v
}

/// The ABI signature `log_named_decimal_uint(string,uint256,uint256)` as its ASCII bytes.
pub open spec fn ev_log_named_decimal_uint_sig() -> Seq<u8> {
    seq![108u8, 111u8, 103u8, 95u8, 110u8, 97u8, 109u8, 101u8, 100u8, 95u8, 100u8, 101u8, 99u8, 105u8, 109u8, 97u8, 108u8, 95u8, 117u8, 105u8, 110u8, 116u8, 40u8, 115u8, 116u8, 114u8, 105u8, 110u8, 103u8, 44u8, 117u8, 105u8, 110u8, 116u8, 50u8, 53u8, 54u8, 44u8, 117u8, 105u8, 110u8, 116u8, 50u8, 53u8, 54u8, 41u8]
}

pub(crate) fn ev_log_named_decimal_uint() -> (r: Vec<u8>)
    ensures
        r@ == ev_log_named_decimal_uint_sig(),
{
    let mut v: Vec<u8> = Vec::new();
    v.push(108u8);
    v.push(111u8);
    v.push(103u8);
    v.push(95u8);
    v.push(110u8);
    v.push(97u8);
    v.push(109u8);
    v.push(101u8);
    v.push(100u8);
    v.push(95u8);
    v.push(100u8);
    v.push(101u8);
    v.push(99u8);
    v.push(105u8);
    v.push(109u8);
    v.push(97u8);
    v.push(108u8);
    v.push(95u8);
    v.push(117u8);
    v.push(105u8);
    v.push(110u8);
    v.push(116u8);
    v.push(40u8);
    v.push(115u8);
    v.push(116u8);
    v.push(114u8);
    v.push(105u8);
    v.push(110u8);
    v.push(103u8);
    v.push(44u8);
    v.push(117u8);
    v.push(105u8);
    v.push(110u8);
    v.push(116u8);
    v.push(50u8);
    v.push(53u8);
    v.push(54u8);
    v.push(44u8);
    v.push(117u8);
    v.push(105u8);
    v.push(110u8);
    v.push(116u8);
    v.push(50u8);
    v.push(53u8);
    v.push(54u8);
    v.push(41u8);
    proof {
        assert(v@ =~= ev_log_named_decimal_uint_sig());
    }
    v
}

/// The ABI signature `log_named_int(string,int256)` as its ASCII bytes.
pub open spec fn ev_log_named_int_sig() -> Seq<u8> {
    seq![108u8, 111u8, 103u8, 95u8, 110u8, 97u8, 109u8, 101u8, 100u8, 95u8, 105u8, 110u8, 116u8, 40u8, 115u8, 116u8, 114u8, 105u8, 110u8, 103u8, 44u8, 105u8, 110u8, 116u8, 50u8, 53u8, 54u8, 41u8]
}

pub(crate) fn ev_log_named_int() -> (r: Vec<u8>)
    ensures
        r@ == ev_log_named_int_sig(),
{
    let mut v: Vec<u8> = Vec::new();
    v.push(108u8);
    v.push(111u8);
    v.push(103u8);
    v.push(95u8);
    v.push(110u8);
    v.push(97u8);
    v.push(109u8);
    v.push(101u8);
    v.push(100u8);
    v.push(95u8);
    v.push(105u8);
    v.push(110u8);
    v.push(116u8);
    v.push(40u8);
    v.push(115u8);
    v.push(116u8);
    v.push(114u8);
    v.push(105u8);
    v.push(110u8);
    v.push(103u8);
    v.push(44u8);
    v.push(105u8);
    v.push(110u8);
    v.push(116u8);
    v.push(50u8);
    v.push(53u8);
    v.push(54u8);
    v.push(41u8);
    proof {
        assert(v@ =~= ev_log_named_int_sig());
    }
    v
}

/// The ABI signature `log_named_uint(string,uint256)` as its ASCII bytes.
pub open spec fn ev_log_named_uint_sig() -> Seq<u8> {
    seq![108u8, 111u8, 103u8, 95u8, 110u8, 97u8, 109u8, 101u8, 100u8, 95u8, 117u8, 105u8, 110u8, 116u8, 40u8, 115u8, 116u8, 114u8, 105u8, 110u8, 103u8, 44u8, 117u8, 105u8, 110u8, 116u8, 50u8, 53u8, 54u8, 41u8]
}

pub(crate) fn ev_log_named_uint() -> (r: Vec<u8>)
    ensures
        r@ == ev_log_named_uint_sig(),
{
    let mut v: Vec<u8> = Vec::new();
    v.push(108u8);
    v.push(111u8);
    v.push(103u8);
    v.push(95u8);
    v.push(110u8);
    v.push(97u8);
    v.push(109u8);
    v.push(101u8);
    v.push(100u8);
    v.push(95u8);
    v.push(117u8);
    v.push(105u8);
    v.push(110u8);
    v.push(116u8);
    v.push(40u8);
    v.push(115u8);
    v.push(116u8);
    v.push(114u8);
    v.push(105u8);
    v.push(110u8);
    v.push(103u8);
    v.push(44u8);
    v.push(117u8);
    v.push(105u8);
    v.push(110u8);
    v.push(116u8);
    v.push(50u8);
    v.push(53u8);
    v.push(54u8);
    v.push(41u8);
    proof {
        assert(v@ =~= ev_log_named_uint_sig());
    }
    v
}

/// The ABI signature `log_named_bytes(string,bytes)` as its ASCII bytes.
pub open spec fn ev_log_named_bytes_sig() -> Seq<u8> {
    seq![108u8, 111u8, 103u8, 95u8, 110u8, 97u8, 109u8, 101u8, 100u8, 95u8, 98u8, 121u8, 116u8, 101u8, 115u8, 40u8, 115u8, 116u8, 114u8, 105u8, 110u8, 103u8, 44u8, 98u8, 121u8, 116u8, 101u8, 115u8, 41u8]
}

pub(crate) fn ev_log_named_bytes() -> (r: Vec<u8>)
    ensures
        r@ == ev_log_named_bytes_sig(),
{
    let mut v: Vec<u8> = Vec::new();
    v.push(108u8);
    v.push(111u8);
    v.push(103u8);
    v.push(95u8);
    v.push(110u8);
    v.push(97u8);
    v.push(109u8);
    v.push(101u8);
    v.push(100u8);
    v.push(95u8);
    v.push(98u8);
    v.push(121u8);
    v.push(116u8);
    v.push(101u8);
    v.push(115u8);
    v.push(40u8);
    v.push(115u8);
    v.push(116u8);
    v.push(114u8);
    v.push(105u8);
    v.push(110u8);
    v.push(103u8);
    v.push(44u8);
    v.push(98u8);
    v.push(121u8);
    v.push(116u8);
    v.push(101u8);
    v.push(115u8);
    v.push(41u8);
    proof {
        assert(v@ =~= ev_log_named_bytes_sig());
    }
    v
}

/// The ABI signature `log_named_string(string,string)` as its ASCII bytes.
pub open spec fn ev_log_named_string_sig() -> Seq<u8> {
    seq![108u8, 111u8, 103u8, 95u8, 110u8, 97u8, 109u8, 101u8, 100u8, 95u8, 115u8, 116u8, 114u8, 105u8, 110u8, 103u8, 40u8, 115u8, 116u8, 114u8, 105u8, 110u8, 103u8, 44u8, 115u8, 116u8, 114u8, 105u8, 110u8, 103u8, 41u8]
}

pub(crate) fn ev_log_named_string() -> (r: Vec<u8>)
    ensures
        r@ == ev_log_named_string_sig(),
{
    let mut v: Vec<u8> = Vec::new();
    v.push(108u8);
    v.push(111u8);
    v.push(103u8);
    v.push(95u8);
    v.push(110u8);
    v.push(97u8);
    v.push(109u8);
    v.push(101u8);
    v.push(100u8);
    v.push(95u8);
    v.push(115u8);
    v.push(116u8);
    v.push(114u8);
    v.push(105u8);
    v.push(110u8);
    v.push(103u8);
    v.push(40u8);
    v.push(115u8);
    v.push(116u8);
    v.push(114u8);
    v.push(105u8);
    v.push(110u8);
    v.push(103u8);
    v.push(44u8);
    v.push(115u8);
    v.push(116u8);
    v.push(114u8);
    v.push(105u8);
    v.push(110u8);
    v.push(103u8);
    v.push(41u8);
    proof {
        assert(v@ =~= ev_log_named_string_sig());
    }
    v
}

} // verus!
