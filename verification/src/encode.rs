//! Decimal-text encoding of readings.
//!
//! A published payload is the decimal text of an integer reading,
//! exactly: an optional leading minus sign, then the digits with no
//! leading zeros and no other formatting.

use vstd::prelude::*;

verus! {

/// ASCII byte of one decimal digit.
pub open spec fn digit_byte(d: int) -> u8
    recommends
        0 <= d < 10,
{
    (0x30 + d) as u8
}

/// Decimal digits of a non-negative integer, most significant first.
pub open spec fn dec_bytes_nat(n: nat) -> Seq<u8>
    decreases n,
{
    if n < 10 {
        seq![digit_byte(n as int)]
    } else {
        dec_bytes_nat(n / 10).push(digit_byte((n % 10) as int))
    }
}

/// Decimal text of an integer: a minus sign before the digits of the
/// magnitude when negative, the bare digits otherwise.
pub open spec fn dec_bytes(v: int) -> Seq<u8> {
    if v < 0 {
        seq![0x2du8] + dec_bytes_nat((-v) as nat)
    } else {
        dec_bytes_nat(v as nat)
    }
}

/// Encode a reading as its exact decimal text.
pub fn encode_decimal(v: i64) -> (out: Vec<u8>)
    ensures
        out@ == dec_bytes(v as int),
{
    let neg: bool = v < 0;
    let mut mag: u64 = if neg {
        (-(v as i128)) as u64
    } else {
        v as u64
    };
    let ghost m0: nat = mag as nat;
    let mut rev: Vec<u8> = Vec::new();
    while mag >= 10
        invariant
            dec_bytes_nat(m0) =~= dec_bytes_nat(mag as nat) + rev@.reverse(),
        decreases mag,
    {
        let d: u8 = (mag % 10) as u8 + 0x30;
        proof {
            assert((dec_bytes_nat((mag / 10) as nat) + rev@.push(d).reverse()) =~= dec_bytes_nat(
                mag as nat,
            ) + rev@.reverse());
        }
        rev.push(d);
        mag = mag / 10;
    }
    let lead: u8 = mag as u8 + 0x30;
    let mut out: Vec<u8> = Vec::new();
    if neg {
        out.push(0x2d);
    }
    out.push(lead);
    let ghost prefix: Seq<u8> = out@;
    let ghost total: int = rev@.len() as int;
    let mut i: usize = rev.len();
    while i > 0
        invariant
            i <= rev@.len(),
            total == rev@.len(),
            out@ =~= prefix + rev@.subrange(i as int, total).reverse(),
        decreases i,
    {
        i = i - 1;
        let b: u8 = rev[i];
        proof {
            assert((prefix + rev@.subrange(i as int, total).reverse()) =~= (prefix + rev@.subrange(
                i as int + 1,
                total,
            ).reverse()).push(b));
        }
        out.push(b);
    }
    proof {
        assert(rev@.subrange(0, total) =~= rev@);
        assert(out@ =~= prefix + rev@.reverse());
        assert(dec_bytes_nat(m0) =~= seq![lead] + rev@.reverse());
        if neg {
            assert(out@ =~= seq![0x2du8] + dec_bytes_nat(m0));
        } else {
            assert(out@ =~= dec_bytes_nat(m0));
        }
    }
    out
}

} // verus!
