use vstd::prelude::*;

verus! {

/// The decimal digits of `n`, most significant first, with no padding:
/// `0` is `"0"`, `2026` is `"2026"`.
pub open spec fn dec_seq(n: nat) -> Seq<u8>
    decreases n,
{
    if n < 10 {
        seq![(48 + n) as u8]
    } else {
        dec_seq(n / 10).push((48 + n % 10) as u8)
    }
}

/// The decimal digits of `n`, zero-padded on the left to at least four
/// places, as `%Y` pads a year.
pub open spec fn padded4(n: nat) -> Seq<u8> {
    if n < 10 {
        seq![48u8, 48, 48] + dec_seq(n)
    } else if n < 100 {
        seq![48u8, 48] + dec_seq(n)
    } else if n < 1000 {
        seq![48u8] + dec_seq(n)
    } else {
        dec_seq(n)
    }
}

/// Two decimal digits for `n < 100`, zero-padded.
pub open spec fn pad2(n: nat) -> Seq<u8>
    recommends
        n < 100,
{
    seq![(48 + n / 10) as u8, (48 + n % 10) as u8]
}

/// A year as `%Y` renders it: at least four digits, with a leading `-` (45)
/// when the year is negative.
pub open spec fn year_seq(y: int) -> Seq<u8> {
    if y < 0 {
        seq![45u8] + padded4((-y) as nat)
    } else {
        padded4(y as nat)
    }
}

/// A local time rendered as `YYYYMMDD_HHMMSS` (95 is `_`).
pub open spec fn timestamp_seq(y: int, mo: nat, d: nat, h: nat, mi: nat, s: nat) -> Seq<u8> {
    year_seq(y) + pad2(mo) + pad2(d) + seq![95u8] + pad2(h) + pad2(mi) + pad2(s)
}

/// Joining a file or directory name onto a base path: a separator is
/// inserted only where the base is non-empty and does not already end in one.
pub open spec fn join_path(base: Seq<u8>, name: Seq<u8>) -> Seq<u8> {
    if base.len() == 0 {
        name
    } else if base[base.len() - 1] == 47 {
        base + name
    } else {
        base + seq![47u8] + name
    }
}

/// Appends the unpadded decimal digits of `n`.
fn push_decimal(v: &mut Vec<u8>, n: u64)
    ensures
        final(v)@ == old(v)@ + dec_seq(n as nat),
    decreases n,
{
    if n < 10 {
        v.push(48 + n as u8);
        proof {
            assert(v@ =~= old(v)@ + dec_seq(n as nat));
        }
    } else {
        push_decimal(v, n / 10);
        v.push(48 + (n % 10) as u8);
        proof {
            assert(v@ =~= old(v)@ + dec_seq(n as nat));
        }
    }
}

/// Appends the decimal digits of `n`, zero-padded to at least four places.
fn push_padded4(v: &mut Vec<u8>, n: u64)
    ensures
        final(v)@ == old(v)@ + padded4(n as nat),
{
    if n < 10 {
        v.push(48);
        v.push(48);
        v.push(48);
    } else if n < 100 {
        v.push(48);
        v.push(48);
    } else if n < 1000 {
        v.push(48);
    }
    push_decimal(v, n);
    proof {
        assert(v@ =~= old(v)@ + padded4(n as nat));
    }
}

/// Appends two zero-padded decimal digits for `n < 100`.
fn push_pad2(v: &mut Vec<u8>, n: u32)
    requires
        n < 100,
    ensures
        final(v)@ == old(v)@ + pad2(n as nat),
{
    v.push(48 + (n / 10) as u8);
    v.push(48 + (n % 10) as u8);
    proof {
        assert(v@ =~= old(v)@ + pad2(n as nat));
    }
}

/// Renders a local time as the `YYYYMMDD_HHMMSS` directory name.
pub fn format_timestamp(y: i32, mo: u32, d: u32, h: u32, mi: u32, s: u32) -> (r: Vec<u8>)
    requires
        mo < 100,
        d < 100,
        h < 100,
        mi < 100,
        s < 100,
    ensures
        r@ == timestamp_seq(y as int, mo as nat, d as nat, h as nat, mi as nat, s as nat),
{
    let mut v: Vec<u8> = Vec::new();
    if y < 0 {
        v.push(45);
        let n: u64 = (-(y as i64)) as u64;
        proof {
            assert(n as nat == (-(y as int)) as nat);
        }
        push_padded4(&mut v, n);
    } else {
        push_padded4(&mut v, y as u64);
    }
    push_pad2(&mut v, mo);
    push_pad2(&mut v, d);
    v.push(95);
    push_pad2(&mut v, h);
    push_pad2(&mut v, mi);
    push_pad2(&mut v, s);
    proof {
        assert(v@ =~= timestamp_seq(y as int, mo as nat, d as nat, h as nat, mi as nat, s as nat));
    }
    v
}

/// Relies on chrono::Local::now and chrono's Datelike / Timelike accessors:
/// month is 1 to 12, day of month 1 to 31, hour 0 to 23, minute and second
/// 0 to 59, as their documentation states.  Nothing relates the result to
/// anything else: it is whatever the local clock showed.
#[verifier::external_body]
fn local_now_fields() -> (r: (i32, u32, u32, u32, u32, u32))
    ensures
        1 <= r.1 <= 12,
        1 <= r.2 <= 31,
        r.3 <= 23,
        r.4 <= 59,
        r.5 <= 59,
{
    let now = chrono::Local::now();
    (now.year(), now.month(), now.day(), now.hour(), now.minute(), now.second())
}

/// Resolves the directory a run writes into: the base directory as given,
/// or, when the timestamp flag is set, a subdirectory of it named after the
/// local time at the moment of the call, rendered `YYYYMMDD_HHMMSS`.
/// Creating the directory is the caller's to do.
pub fn resolve_backup_dir(base: &[u8], with_timestamp: bool) -> (r: Vec<u8>)
    ensures
        !with_timestamp ==> r@ == base@,
        with_timestamp ==> exists|y: int, mo: nat, d: nat, h: nat, mi: nat, s: nat|
            1 <= mo <= 12 && 1 <= d <= 31 && h <= 23 && mi <= 59 && s <= 59
                && r@ == join_path(base@, timestamp_seq(y, mo, d, h, mi, s)),
{
    if !with_timestamp {
        crate::client::copy_bytes(base)
    } else {
        let (y, mo, d, h, mi, s) = local_now_fields();
        let ts = format_timestamp(y, mo, d, h, mi, s);
        let mut r = crate::client::copy_bytes(base);
        if r.len() > 0 && r[r.len() - 1] != 47 {
            r.push(47);
        }
        crate::client::append_bytes(&mut r, ts.as_slice());
        proof {
            assert(r@ == join_path(base@, timestamp_seq(
                y as int, mo as nat, d as nat, h as nat, mi as nat, s as nat)));
        }
        r
    }
}

} // verus!

use chrono::Datelike;
use chrono::Timelike;
