//! Parsing of sysfs thermal-zone readings. A zone's `temp` file holds an
//! integer number of millidegrees Celsius, possibly surrounded by
//! whitespace; a zone whose file is non-numeric (or out of range) is
//! skipped. Hardware-monitor components arrive already split into label,
//! temperature and optional critical threshold.

use vstd::prelude::*;

use crate::types::{ThermalInfo, ThermalInfoV};

verus! {

/// ASCII whitespace as trimmed from a sysfs reading.
pub open spec fn is_space(b: u8) -> bool {
    b == 32 || b == 9 || b == 10 || b == 13
}

/// ASCII decimal digit.
pub open spec fn is_digit(b: u8) -> bool {
    48 <= b <= 57
}

pub open spec fn all_digits(s: Seq<u8>) -> bool {
    forall|k: int| 0 <= k < s.len() ==> is_digit(s[k])
}

/// The bytes with leading whitespace removed.
pub open spec fn trim_front(s: Seq<u8>) -> Seq<u8>
    decreases s.len(),
{
    if s.len() > 0 && is_space(s[0]) {
        trim_front(s.drop_first())
    } else {
        s
    }
}

/// The bytes with trailing whitespace removed.
pub open spec fn trim_back(s: Seq<u8>) -> Seq<u8>
    decreases s.len(),
{
    if s.len() > 0 && is_space(s.last()) {
        trim_back(s.drop_last())
    } else {
        s
    }
}

pub open spec fn trimmed(s: Seq<u8>) -> Seq<u8> {
    trim_back(trim_front(s))
}

/// The number denoted by a string of decimal digits, most significant first.
pub open spec fn digits_val(s: Seq<u8>) -> int
    decreases s.len(),
{
    if s.len() == 0 {
        0
    } else {
        digits_val(s.drop_last()) * 10 + (s.last() - 48)
    }
}

/// The millidegree reading denoted by a sysfs `temp` file: an optional minus
/// sign followed by at least one digit, surrounded by optional whitespace.
/// Anything else, and any value whose magnitude exceeds `i64::MAX`, is
/// rejected.
pub open spec fn parse_millideg_spec(s: Seq<u8>) -> Option<int> {
    let t = trimmed(s);
    if t.len() > 0 && t[0] == 45 {
        let d = t.drop_first();
        if d.len() > 0 && all_digits(d) && digits_val(d) <= i64::MAX {
            Some(-digits_val(d))
        } else {
            None
        }
    } else {
        if t.len() > 0 && all_digits(t) && digits_val(t) <= i64::MAX {
            Some(digits_val(t))
        } else {
            None
        }
    }
}

proof fn lemma_trim_front_skip(s: Seq<u8>, lo: int)
    requires
        0 <= lo <= s.len(),
        forall|k: int| 0 <= k < lo ==> is_space(s[k]),
        lo < s.len() ==> !is_space(s[lo]),
    ensures
        trim_front(s) == s.skip(lo),
    decreases lo,
{
    if lo == 0 {
        assert(s.skip(0) =~= s);
    } else {
        lemma_trim_front_skip(s.drop_first(), lo - 1);
        assert(s.drop_first().skip(lo - 1) =~= s.skip(lo));
    }
}

proof fn lemma_trim_back_take(s: Seq<u8>, hi: int)
    requires
        0 <= hi <= s.len(),
        forall|k: int| hi <= k < s.len() ==> is_space(s[k]),
        hi > 0 ==> !is_space(s[hi - 1]),
    ensures
        trim_back(s) == s.take(hi),
    decreases s.len() - hi,
{
    if hi == s.len() {
        assert(s.take(hi) =~= s);
    } else {
        lemma_trim_back_take(s.drop_last(), hi);
        assert(s.drop_last().take(hi) =~= s.take(hi));
    }
}

proof fn lemma_digits_val_nonneg(s: Seq<u8>)
    requires
        all_digits(s),
    ensures
        digits_val(s) >= 0,
    decreases s.len(),
{
    if s.len() > 0 {
        assert(all_digits(s.drop_last()));
        lemma_digits_val_nonneg(s.drop_last());
    }
}

proof fn lemma_digits_val_prefix(s: Seq<u8>, i: int)
    requires
        all_digits(s),
        0 <= i <= s.len(),
    ensures
        digits_val(s.take(i)) <= digits_val(s),
    decreases s.len() - i,
{
    if i == s.len() {
        assert(s.take(i) =~= s);
    } else {
        lemma_digits_val_prefix(s, i + 1);
        let t = s.take(i + 1);
        assert(t.drop_last() =~= s.take(i));
        assert(all_digits(s.take(i)));
        lemma_digits_val_nonneg(s.take(i));
        assert(digits_val(t) == digits_val(s.take(i)) * 10 + (s[i] - 48));
        assert(digits_val(s.take(i)) * 10 >= digits_val(s.take(i))) by (nonlinear_arith)
            requires
                digits_val(s.take(i)) >= 0,
        ;
    }
}

/// Parse the contents of a sysfs `temp` file as millidegrees Celsius.
pub fn parse_millideg(bytes: &[u8]) -> (r: Option<i64>)
    ensures
        match r {
            Some(v) => parse_millideg_spec(bytes@) == Some(v as int),
            None => parse_millideg_spec(bytes@) is None,
        },
{
    let len: usize = bytes.len();
    // Leading whitespace.
    let mut lo: usize = 0;
    while lo < len && is_space_byte(bytes[lo])
        invariant
            lo <= len,
            len == bytes@.len(),
            forall|k: int| 0 <= k < lo ==> is_space(bytes@[k]),
        decreases len - lo,
    {
        lo = lo + 1;
    }
    // Trailing whitespace.
    let mut hi: usize = len;
    while hi > lo && is_space_byte(bytes[hi - 1])
        invariant
            lo <= hi <= len,
            len == bytes@.len(),
            forall|k: int| 0 <= k < lo ==> is_space(bytes@[k]),
            forall|k: int| hi <= k < len ==> is_space(bytes@[k]),
        decreases hi,
    {
        hi = hi - 1;
    }
    proof {
        lemma_trim_front_skip(bytes@, lo as int);
        let u = bytes@.skip(lo as int);
        lemma_trim_back_take(u, hi - lo);
        assert(u.take(hi - lo) =~= bytes@.subrange(lo as int, hi as int));
        assert(trimmed(bytes@) == bytes@.subrange(lo as int, hi as int));
    }
    let ghost t = bytes@.subrange(lo as int, hi as int);
    if lo == hi {
        return None;
    }
    proof {
        assert(t.len() == hi - lo);
        assert(t[0] == bytes@[lo as int]);
    }
    // Optional sign.
    let neg: bool = bytes[lo] == 45;
    let start: usize = if neg {
        lo + 1
    } else {
        lo
    };
    let ghost d = bytes@.subrange(start as int, hi as int);
    proof {
        if neg {
            assert(t.drop_first() =~= d);
        } else {
            assert(t =~= d);
        }
    }
    if start == hi {
        return None;
    }
    // Digits, most significant first, with an exact overflow check.
    let limit: u64 = 0x7fff_ffff_ffff_ffff;
    let mut acc: u64 = 0;
    let mut i: usize = start;
    while i < hi
        invariant
            lo <= start <= i <= hi <= len,
            len == bytes@.len(),
            start < hi,
            t == bytes@.subrange(lo as int, hi as int),
            trimmed(bytes@) == t,
            d == bytes@.subrange(start as int, hi as int),
            t.len() > 0,
            neg ==> t[0] == 45 && d == t.drop_first(),
            !neg ==> t[0] != 45 && d == t,
            limit == i64::MAX as u64,
            acc <= limit,
            all_digits(d.take(i - start)),
            acc == digits_val(d.take(i - start)),
        decreases hi - i,
    {
        let b: u8 = bytes[i];
        if b < 48 || b > 57 {
            proof {
                assert(d[i - start] == bytes@[i as int]);
                assert(!all_digits(d));
            }
            return None;
        }
        let dv: u64 = (b - 48) as u64;
        proof {
            assert(d.take(i + 1 - start).drop_last() =~= d.take(i - start));
        }
        if acc > (limit - dv) / 10 {
            proof {
                let pre = digits_val(d.take(i + 1 - start));
                assert(acc * 10 + dv > limit) by (nonlinear_arith)
                    requires
                        acc > (limit - dv) / 10,
                        0 <= dv <= 9,
                        limit >= 9,
                ;
                assert(pre == acc * 10 + dv);
                if all_digits(d) {
                    lemma_digits_val_prefix(d, i + 1 - start);
                    assert(digits_val(d) > i64::MAX);
                }
            }
            return None;
        }
        proof {
            assert(acc * 10 + dv <= limit) by (nonlinear_arith)
                requires
                    acc <= (limit - dv) / 10,
                    0 <= dv <= 9,
                    limit >= 9,
            ;
        }
        acc = acc * 10 + dv;
        i = i + 1;
    }
    proof {
        assert(d.take(hi - start) =~= d);
        lemma_digits_val_nonneg(d);
    }
    if neg {
        let v: i64 = -(acc as i64);
        Some(v)
    } else {
        Some(acc as i64)
    }
}

/// Exec mirror of [`is_space`].
fn is_space_byte(b: u8) -> (r: bool)
    ensures
        r == is_space(b),
{
    b == 32 || b == 9 || b == 10 || b == 13
}

/// The thermal entry contributed by one sysfs zone, if its `temp` file
/// parses.
pub open spec fn zone_thermal_spec(label: Seq<char>, raw: Seq<u8>) -> Option<ThermalInfoV> {
    match parse_millideg_spec(raw) {
        Some(v) => Some(
            (ThermalInfoV { label: label, temp_millic: v as i64, critical_millic: None }),
        ),
        None => None,
    }
}

/// Build the thermal entry for one sysfs zone; a zone whose `temp` file does
/// not parse yields nothing and is skipped by the caller.
pub fn parse_thermal_zone(label: String, temp_raw: &[u8]) -> (r: Option<ThermalInfo>)
    ensures
        match r {
            Some(ti) => zone_thermal_spec(label@, temp_raw@) == Some(ti@),
            None => zone_thermal_spec(label@, temp_raw@) is None,
        },
{
    match parse_millideg(temp_raw) {
        Some(v) => Some(ThermalInfo { label, temp_millic: v, critical_millic: None }),
        None => None,
    }
}

} // verus!
