//! The network address the readiness gate yields, and its text form for the
//! display and the log: `IP: a.b.c.d` with each octet in plain decimal.

use vstd::prelude::*;
use crate::bytes::append_bytes;

verus! {

/// An assigned IPv4 address, one octet per field.
#[derive(Clone, Copy, PartialEq, Eq, Structural, Debug)]
pub struct NetAddress {
    pub o0: u8,
    pub o1: u8,
    pub o2: u8,
    pub o3: u8,
}

/// The decimal digits of `n`, most significant first, without leading zeros
/// (a single `0` for zero). 48 is ASCII `0`.
pub open spec fn dec_digits(n: nat) -> Seq<u8>
    decreases n,
{
    if n < 10 {
        seq![(48 + n) as u8]
    } else {
        dec_digits(n / 10).push((48 + n % 10) as u8)
    }
}

/// The text of an address line: `IP: ` (73 80 58 32 in ASCII) followed by the
/// four octets in decimal, separated by `.` (ASCII 46).
pub open spec fn ip_line(a: NetAddress) -> Seq<u8> {
    seq![73u8, 80u8, 58u8, 32u8] + dec_digits(a.o0 as nat) + seq![46u8] + dec_digits(a.o1 as nat)
        + seq![46u8] + dec_digits(a.o2 as nat) + seq![46u8] + dec_digits(a.o3 as nat)
}

/// Formats one octet in decimal.
pub fn fmt_octet(n: u8) -> (r: Vec<u8>)
    ensures
        r@ == dec_digits(n as nat),
{
    let mut r: Vec<u8> = Vec::new();
    if n < 10 {
        r.push(48 + n);
        proof {
            assert(r@ =~= dec_digits(n as nat));
        }
    } else if n < 100 {
        r.push(48 + n / 10);
        r.push(48 + n % 10);
        proof {
            assert(dec_digits((n / 10) as nat) == seq![(48 + n as nat / 10) as u8]);
            assert(r@ =~= dec_digits(n as nat));
        }
    } else {
        r.push(48 + n / 100);
        r.push(48 + (n / 10) % 10);
        r.push(48 + n % 10);
        proof {
            assert(n as nat / 10 / 10 == n as nat / 100) by (nonlinear_arith);
            assert(dec_digits((n / 100) as nat) == seq![(48 + n as nat / 100) as u8]);
            assert(dec_digits((n / 10) as nat) == dec_digits(n as nat / 10 / 10).push(
                (48 + (n as nat / 10) % 10) as u8,
            ));
            assert(r@ =~= dec_digits(n as nat));
        }
    }
    r
}

/// Formats the whole address line shown on the display and written to the
/// log once the address is known.
pub fn format_ip_line(a: &NetAddress) -> (r: Vec<u8>)
    ensures
        r@ == ip_line(*a),
{
    let mut r: Vec<u8> = Vec::new();
    r.push(73);
    r.push(80);
    r.push(58);
    r.push(32);
    let d0 = fmt_octet(a.o0);
    append_bytes(&mut r, &d0);
    r.push(46);
    let d1 = fmt_octet(a.o1);
    append_bytes(&mut r, &d1);
    r.push(46);
    let d2 = fmt_octet(a.o2);
    append_bytes(&mut r, &d2);
    r.push(46);
    let d3 = fmt_octet(a.o3);
    append_bytes(&mut r, &d3);
    proof {
        assert(r@ =~= ip_line(*a));
    }
    r
}

} // verus!
