//! Clock calibration: resolving the CPU frequency from an optional
//! textual override, deriving the fixed-point calibration constant, and
//! converting hardware cycle counts into nanoseconds.
//!
//! The calibration constant `qhz` is the frequency in cycles per
//! nanosecond scaled by 1024, kept as an integer: tick deltas are
//! multiplied by 1024 and divided by `qhz`, so no per-record frequency
//! division in fractions is needed.  All arithmetic here is integer
//! arithmetic with truncating division; narrowing saturates instead of
//! wrapping or aborting.

use vstd::arithmetic::div_mod::{
    lemma_basic_div, lemma_div_is_ordered_by_denominator, lemma_div_multiples_vanish,
    lemma_div_multiples_vanish_fancy, lemma_div_pos_is_pos,
};
use vstd::arithmetic::mul::lemma_mul_inequality;
use vstd::arithmetic::power::{
    lemma_pow_adds, lemma_pow_positive, pow,
};
use vstd::prelude::*;
use vstd::string::StringSliceAdditionalSpecFns;

verus! {

/// The frequency assumed when no override is given or the override does
/// not parse: 2.4 GHz.
pub const DEFAULT_CPU_HZ: u64 = 2_400_000_000;

/// Ten to the given power.
pub open spec fn pow10(k: nat) -> int {
    pow(10, k)
}

/// The values of the small powers of ten this module computes with.
proof fn lemma_pow10_values()
    ensures
        pow10(0) == 1,
        pow10(1) == 10,
        pow10(2) == 100,
        pow10(3) == 1000,
        pow10(4) == 10000,
        pow10(5) == 100000,
        pow10(6) == 1000000,
        pow10(7) == 10000000,
        pow10(8) == 100000000,
        pow10(9) == 1000000000,
{
    reveal(pow);
    assert(pow10(0) == 1);
    assert(pow10(1) == 10);
    assert(pow10(2) == 100);
    assert(pow10(3) == 1000);
    assert(pow10(4) == 10000);
    assert(pow10(5) == 100000);
    assert(pow10(6) == 1000000);
    assert(pow10(7) == 10000000);
    assert(pow10(8) == 100000000);
    assert(pow10(9) == 1000000000);
}

/// Whether a byte is an ASCII decimal digit.
pub open spec fn spec_is_digit(b: u8) -> bool {
    48 <= b <= 57
}

/// Whether every byte of a sequence is an ASCII decimal digit.
pub open spec fn spec_all_digits(s: Seq<u8>) -> bool {
    forall|i: int| 0 <= i < s.len() ==> spec_is_digit(#[trigger] s[i])
}

/// The number a sequence of decimal digits denotes, most significant
/// digit first.
pub open spec fn spec_digits_val(s: Seq<u8>) -> int
    decreases s.len(),
{
    if s.len() == 0 {
        0
    } else {
        spec_digits_val(s.drop_last()) * 10 + (s.last() - 48)
    }
}

/// The value of a digit sequence is non-negative and below ten to its
/// length.
proof fn lemma_digits_val_bounds(s: Seq<u8>)
    requires
        spec_all_digits(s),
    ensures
        0 <= spec_digits_val(s) < pow10(s.len()),
    decreases s.len(),
{
    reveal(pow);
    if s.len() == 0 {
    } else {
        assert(spec_all_digits(s.drop_last()));
        lemma_digits_val_bounds(s.drop_last());
        let v = spec_digits_val(s.drop_last());
        let d = s.last() - 48;
        assert(spec_is_digit(s.last()));
        assert(pow10(s.len()) == 10 * pow10((s.len() - 1) as nat)) by {
            lemma_pow_adds(10, 1nat, (s.len() - 1) as nat);
            vstd::arithmetic::power::lemma_pow1(10);
        }
        assert(0 <= v * 10 + d < 10 * pow10((s.len() - 1) as nat)) by (nonlinear_arith)
            requires
                0 <= v < pow10((s.len() - 1) as nat),
                0 <= d <= 9,
        {}
    }
}

/// Splitting a digit sequence at an index splits its value at the
/// corresponding power of ten.
proof fn lemma_digits_val_split(s: Seq<u8>, k: int)
    requires
        spec_all_digits(s),
        0 <= k <= s.len(),
    ensures
        spec_digits_val(s) == spec_digits_val(s.take(k)) * pow10((s.len() - k) as nat)
            + spec_digits_val(s.skip(k)),
    decreases s.len() - k,
{
    reveal(pow);
    if k == s.len() {
        assert(s.take(k) =~= s);
        assert(s.skip(k) =~= Seq::<u8>::empty());
        assert(spec_digits_val(s) * pow10(0nat) == spec_digits_val(s));
    } else {
        let l = s.len() as int;
        assert(spec_all_digits(s.drop_last()));
        lemma_digits_val_split(s.drop_last(), k);
        assert(s.drop_last().take(k) =~= s.take(k));
        assert(s.skip(k).drop_last() =~= s.drop_last().skip(k));
        assert(s.skip(k).last() == s.last());
        assert(s.skip(k).len() > 0);
        let a = spec_digits_val(s.take(k));
        let b = spec_digits_val(s.drop_last().skip(k));
        let d = s.last() - 48;
        let p = pow10((l - 1 - k) as nat);
        assert(spec_digits_val(s.drop_last()) == a * p + b);
        assert(spec_digits_val(s) == (a * p + b) * 10 + d);
        assert(spec_digits_val(s.skip(k)) == b * 10 + d);
        assert(pow10((l - k) as nat) == 10 * p) by {
            lemma_pow_adds(10, 1nat, (l - 1 - k) as nat);
            vstd::arithmetic::power::lemma_pow1(10);
        }
        assert((a * p + b) * 10 + d == a * (10 * p) + (b * 10 + d)) by (nonlinear_arith) {}
    }
}

/// Where a string of the form `digits '.' digits` splits: the index of
/// its dot, which is unique because the digits on either side cannot be
/// a dot themselves.
pub open spec fn spec_number_parts(s: Seq<u8>) -> Option<(Seq<u8>, Seq<u8>)> {
    if spec_all_digits(s) && s.len() > 0 {
        Some((s, Seq::empty()))
    } else if exists|i: int|
        0 <= i < s.len() && s[i] == 46 && spec_all_digits(s.take(i)) && spec_all_digits(
            s.skip(i + 1),
        ) {
        let i = choose|i: int|
            0 <= i < s.len() && s[i] == 46 && spec_all_digits(s.take(i)) && spec_all_digits(
                s.skip(i + 1),
            );
        Some((s.take(i), s.skip(i + 1)))
    } else {
        None
    }
}

/// A well-formed number with a dot splits exactly at that dot.
proof fn lemma_number_parts_dot(s: Seq<u8>, d: int)
    requires
        0 <= d < s.len(),
        s[d] == 46,
        spec_all_digits(s.take(d)),
        spec_all_digits(s.skip(d + 1)),
    ensures
        spec_number_parts(s) == Some((s.take(d), s.skip(d + 1))),
{
    assert(!spec_is_digit(s[d]));
    assert(!spec_all_digits(s));
    assert(exists|i: int|
        0 <= i < s.len() && s[i] == 46 && spec_all_digits(s.take(i)) && spec_all_digits(
            s.skip(i + 1),
        ));
    let c = choose|i: int|
        0 <= i < s.len() && s[i] == 46 && spec_all_digits(s.take(i)) && spec_all_digits(
            s.skip(i + 1),
        );
    if c < d {
        assert(s.take(d)[c] == s[c]);
        assert(spec_is_digit(s[c]));
        assert(false);
    }
    if c > d {
        assert(s.take(c)[d] == s[d]);
        assert(spec_is_digit(s[d]));
        assert(false);
    }
}

/// A string that holds a byte that is neither a digit nor a dot is not a
/// well-formed number.
proof fn lemma_number_parts_bad_byte(s: Seq<u8>, bad: int)
    requires
        0 <= bad < s.len(),
        s[bad] != 46,
        !spec_is_digit(s[bad]),
    ensures
        spec_number_parts(s) is None,
{
    assert(!spec_all_digits(s));
    assert forall|i: int|
        !(0 <= i < s.len() && s[i] == 46 && spec_all_digits(s.take(i)) && spec_all_digits(
            s.skip(i + 1),
        )) by {
        if 0 <= i < s.len() && s[i] == 46 {
            if bad < i {
                assert(s.take(i)[bad] == s[bad]);
            } else if bad > i {
                assert(s.skip(i + 1)[bad - i - 1] == s[bad]);
            }
        }
    }
}

/// A string with two dots is not a well-formed number.
proof fn lemma_number_parts_two_dots(s: Seq<u8>, d1: int, d2: int)
    requires
        0 <= d1 < d2 < s.len(),
        s[d1] == 46,
        s[d2] == 46,
    ensures
        spec_number_parts(s) is None,
{
    assert(!spec_is_digit(s[d1]));
    assert(!spec_all_digits(s));
    assert forall|i: int|
        !(0 <= i < s.len() && s[i] == 46 && spec_all_digits(s.take(i)) && spec_all_digits(
            s.skip(i + 1),
        )) by {
        if 0 <= i < s.len() && s[i] == 46 {
            if i < d2 {
                assert(s.skip(i + 1)[d2 - i - 1] == s[d2]);
            } else {
                assert(s.take(i)[d1] == s[d1]);
            }
        }
    }
}

/// The frequency in hertz denoted by integer digits, fraction digits and
/// a decimal magnitude exponent, truncated to a whole number of hertz.
pub open spec fn spec_freq_value(ip: Seq<u8>, fp: Seq<u8>, mexp: nat) -> int {
    spec_digits_val(ip) * pow10(mexp) + spec_digits_val(fp) * pow10(mexp) / pow10(fp.len())
}

/// The body and decimal magnitude exponent of an override string: a
/// trailing `G`, `M` or `K` is stripped and scales by 10^9, 10^6 or
/// 10^3; a trailing digit means the value is already in hertz; any
/// other trailing byte makes the override invalid.
pub open spec fn spec_suffix_split(s: Seq<u8>) -> Option<(Seq<u8>, nat)> {
    if s.len() == 0 {
        None
    } else if s.last() == 71 {
        Some((s.drop_last(), 9nat))
    } else if s.last() == 77 {
        Some((s.drop_last(), 6nat))
    } else if s.last() == 75 {
        Some((s.drop_last(), 3nat))
    } else if spec_is_digit(s.last()) {
        Some((s, 0nat))
    } else {
        None
    }
}

/// The frequency in hertz an override string denotes, if it is a decimal
/// number (digits with at most one dot, at least one digit) followed by
/// an optional magnitude suffix.
pub open spec fn spec_parsed_hz(s: Seq<u8>) -> Option<int> {
    match spec_suffix_split(s) {
        None => None,
        Some((body, mexp)) => match spec_number_parts(body) {
            None => None,
            Some((ip, fp)) => if ip.len() + fp.len() == 0 {
                None
            } else {
                Some(spec_freq_value(ip, fp, mexp))
            },
        },
    }
}

/// The frequency used for calibration: the parsed override where one is
/// given and parses, saturated to the representable range, and the
/// default frequency otherwise.
pub open spec fn spec_resolved_hz(o: Option<Seq<u8>>) -> u64 {
    match o {
        None => DEFAULT_CPU_HZ,
        Some(s) => match spec_parsed_hz(s) {
            None => DEFAULT_CPU_HZ,
            Some(v) => if v > u64::MAX {
                u64::MAX
            } else {
                v as u64
            },
        },
    }
}

/// The UTF-8 bytes of an optional override string.
pub open spec fn spec_opt_bytes(o: Option<&str>) -> Option<Seq<u8>> {
    match o {
        Some(s) => Some(s.spec_bytes()),
        None => None,
    }
}

/// Ten to a small power, as a machine integer.
fn pow10_small(k: usize) -> (r: u64)
    requires
        k <= 9,
    ensures
        r == pow10(k as nat),
{
    proof {
        lemma_pow10_values();
    }
    if k == 0 {
        1
    } else if k == 1 {
        10
    } else if k == 2 {
        100
    } else if k == 3 {
        1000
    } else if k == 4 {
        10000
    } else if k == 5 {
        100000
    } else if k == 6 {
        1000000
    } else if k == 7 {
        10000000
    } else if k == 8 {
        100000000
    } else {
        1000000000
    }
}

/// Parses a frequency override, given as its UTF-8 bytes.  Returns the
/// frequency in hertz, saturated to the representable range, or `None`
/// where the override is not a decimal number with an optional magnitude
/// suffix.
#[verifier::loop_isolation(false)]
#[verifier::rlimit(60)]
pub fn parse_override_hz(b: &[u8]) -> (r: Option<u64>)
    ensures
        r is Some <==> spec_parsed_hz(b@) is Some,
        spec_parsed_hz(b@) matches Some(v) ==> r == Some(
            if v > u64::MAX {
                u64::MAX
            } else {
                v as u64
            },
        ),
{
    proof {
        lemma_pow10_values();
    }
    let blen = b.len();
    if blen == 0 {
        return None;
    }
    let last = b[blen - 1];
    let (body_len, mexp): (usize, usize) = if last == 71 {
        (blen - 1, 9)
    } else if last == 77 {
        (blen - 1, 6)
    } else if last == 75 {
        (blen - 1, 3)
    } else if 48 <= last && last <= 57 {
        (blen, 0)
    } else {
        return None;
    };
    let ghost body = b@.take(body_len as int);
    proof {
        assert(spec_suffix_split(b@) == Some((body, mexp as nat)));
        assert(b@.take(blen as int) =~= b@);
        assert(b@.take(blen - 1 as int) =~= b@.drop_last());
    }

    // One scan finds the dot, if any, and checks every other byte is a
    // digit.
    let mut dot: usize = body_len;
    let mut i: usize = 0;
    while i < body_len
        invariant
            i <= body_len,
            body_len <= b@.len(),
            body == b@.take(body_len as int),
            dot == body_len || (dot < i && body[dot as int] == 46),
            forall|j: int| 0 <= j < i && j != dot ==> spec_is_digit(#[trigger] body[j]),
        decreases body_len - i,
    {
        let c = b[i];
        if c == 46 {
            if dot != body_len {
                proof {
                    lemma_number_parts_two_dots(body, dot as int, i as int);
                }
                return None;
            }
            dot = i;
        } else if !(48 <= c && c <= 57) {
            proof {
                lemma_number_parts_bad_byte(body, i as int);
            }
            return None;
        }
        i = i + 1;
    }

    // The split the scan found, matched against the declarative split.
    let ghost ip = if dot == body_len {
        body
    } else {
        body.take(dot as int)
    };
    let ghost fp = if dot == body_len {
        Seq::<u8>::empty()
    } else {
        body.skip(dot as int + 1)
    };
    let int_len: usize = dot;
    let frac_len: usize = if dot == body_len {
        0
    } else {
        body_len - dot - 1
    };
    proof {
        if dot == body_len {
            if body_len == 0 {
                assert(spec_number_parts(body) is None);
            } else {
                assert(spec_all_digits(body));
                assert(spec_number_parts(body) == Some((body, Seq::<u8>::empty())));
            }
        } else {
            assert(spec_all_digits(body.take(dot as int)));
            assert(spec_all_digits(body.skip(dot as int + 1)));
            lemma_number_parts_dot(body, dot as int);
        }
        assert(ip.len() == int_len && fp.len() == frac_len);
    }
    if int_len + frac_len == 0 {
        return None;
    }
    let ghost hz = spec_freq_value(ip, fp, mexp as nat);

    // Integer part, clamped at 2^64: anything at least that large
    // saturates whatever follows.
    let cap: u128 = 0x1_0000_0000_0000_0000;
    let mut acc: u128 = 0;
    let mut j: usize = 0;
    while j < int_len
        invariant
            j <= int_len,
            spec_digits_val(ip.take(j as int)) >= 0,
            acc == if spec_digits_val(ip.take(j as int)) >= cap {
                cap as int
            } else {
                spec_digits_val(ip.take(j as int))
            },
        decreases int_len - j,
    {
        let ghost pref = ip.take(j as int);
        let ghost v = spec_digits_val(pref);
        proof {
            assert(ip[j as int] == body[j as int]);
            assert(spec_is_digit(body[j as int]));
            assert(body[j as int] == b@[j as int]);
        }
        let d = (b[j] - 48) as u128;
        proof {
            assert(ip.take(j + 1 as int).drop_last() =~= pref);
            assert(ip.take(j + 1 as int).last() == ip[j as int]);
            assert(spec_digits_val(ip.take(j + 1 as int)) == v * 10 + d);
            assert(v * 10 + d >= v) by (nonlinear_arith)
                requires
                    v >= 0,
                    d >= 0,
            {}
        }
        let next = acc * 10 + d;
        if next >= cap {
            acc = cap;
        } else {
            acc = next;
        }
        j = j + 1;
    }
    proof {
        assert(ip.take(int_len as int) =~= ip);
    }

    // Fraction contribution: only the first digits up to the magnitude
    // exponent can contribute whole hertz; the rest truncates away.
    let take_n: usize = if frac_len < mexp {
        frac_len
    } else {
        mexp
    };
    let mut fv: u64 = 0;
    let mut t: usize = 0;
    while t < take_n
        invariant
            t <= take_n,
            fv == spec_digits_val(fp.take(t as int)),
        decreases take_n - t,
    {
        let ghost pref = fp.take(t as int);
        proof {
            assert(spec_all_digits(fp));
            assert(spec_all_digits(pref));
            lemma_digits_val_bounds(pref);
            assert(pow10(t as nat) <= pow10(9nat)) by {
                vstd::arithmetic::power::lemma_pow_increases(10nat, t as nat, 9nat);
            }
            assert(fp[t as int] == body[dot + 1 + t]);
            assert(spec_is_digit(body[dot + 1 + t]));
            assert(body[dot + 1 + t] == b@[dot + 1 + t]);
            assert(fp.take(t + 1 as int).drop_last() =~= pref);
            assert(fp.take(t + 1 as int).last() == fp[t as int]);
        }
        let d = (b[dot + 1 + t] - 48) as u64;
        fv = fv * 10 + d;
        t = t + 1;
    }
    let ghost frac_contrib = spec_digits_val(fp) * pow10(mexp as nat) / pow10(fp.len());
    let fc: u64 = if frac_len <= mexp {
        proof {
            assert(fp.take(take_n as int) =~= fp);
            lemma_digits_val_bounds(fp);
            lemma_pow_positive(10, (mexp - frac_len) as nat);
            lemma_pow_positive(10, frac_len as nat);
            lemma_pow_adds(10, (mexp - frac_len) as nat, frac_len as nat);
            // digits * (p * q) / q == digits * p
            let dv = spec_digits_val(fp);
            let p = pow10((mexp - frac_len) as nat);
            let q = pow10(frac_len as nat);
            assert(dv * (p * q) == q * (dv * p)) by (nonlinear_arith) {}
            lemma_div_multiples_vanish(dv * p, q);
            assert(frac_contrib == dv * p);
            assert(dv * p < pow10(mexp as nat)) by (nonlinear_arith)
                requires
                    0 <= dv < q,
                    p > 0,
                    pow10(mexp as nat) == p * q,
            {}
            lemma_pow10_values();
            assert(pow10(mexp as nat) <= 1000000000) by {
                vstd::arithmetic::power::lemma_pow_increases(10nat, mexp as nat, 9nat);
            }
            assert(dv * p >= 0) by (nonlinear_arith)
                requires
                    dv >= 0,
                    p > 0,
            {}
        }
        fv * pow10_small(mexp - frac_len)
    } else {
        proof {
            let dv = spec_digits_val(fp);
            let a = spec_digits_val(fp.take(mexp as int));
            let rest = spec_digits_val(fp.skip(mexp as int));
            let pm = pow10(mexp as nat);
            let pr = pow10((frac_len - mexp) as nat);
            lemma_digits_val_split(fp, mexp as int);
            assert(spec_all_digits(fp.skip(mexp as int)));
            lemma_digits_val_bounds(fp.skip(mexp as int));
            assert(spec_all_digits(fp.take(mexp as int)));
            lemma_digits_val_bounds(fp.take(mexp as int));
            lemma_pow_positive(10, mexp as nat);
            lemma_pow_positive(10, (frac_len - mexp) as nat);
            lemma_pow_adds(10, (frac_len - mexp) as nat, mexp as nat);
            // dv * pm == (pr * pm) * a + rest * pm, and rest * pm is below
            // the denominator pr * pm, so the division leaves exactly a.
            assert(dv * pm == (pr * pm) * a + rest * pm) by (nonlinear_arith)
                requires
                    dv == a * pr + rest,
            {}
            assert(0 <= rest * pm < pr * pm) by (nonlinear_arith)
                requires
                    0 <= rest < pr,
                    pm > 0,
            {}
            lemma_div_multiples_vanish_fancy(a, rest * pm, pr * pm);
            assert(pow10(fp.len()) == pr * pm);
            assert(frac_contrib == a);
        }
        fv
    };

    // Combine: a clamped integer part already saturates the result.
    proof {
        lemma_pow_positive(10, mexp as nat);
        lemma_digits_val_bounds(ip);
        lemma_div_pos_is_pos(spec_digits_val(fp) * pow10(mexp as nat), pow10(fp.len()));
        lemma_pow_positive(10, fp.len());
        assert(spec_digits_val(fp) * pow10(mexp as nat) >= 0) by (nonlinear_arith)
            requires
                spec_digits_val(fp) >= 0,
                pow10(mexp as nat) > 0,
        {}
    }
    if acc >= cap {
        proof {
            let iv = spec_digits_val(ip);
            assert(iv * pow10(mexp as nat) >= iv) by (nonlinear_arith)
                requires
                    iv >= 0,
                    pow10(mexp as nat) >= 1,
            {}
        }
        return Some(u64::MAX);
    }
    let mult = pow10_small(mexp) as u128;
    proof {
        assert(mult <= 1000000000) by {
            vstd::arithmetic::power::lemma_pow_increases(10nat, mexp as nat, 9nat);
        }
        vstd::arithmetic::mul::lemma_mul_upper_bound(
            acc as int,
            0x1_0000_0000_0000_0000,
            mult as int,
            1000000000,
        );
    }
    let total = acc * mult + fc as u128;
    proof {
        assert(acc * mult == spec_digits_val(ip) * pow10(mexp as nat));
        assert(total == hz);
    }
    if total > u64::MAX as u128 {
        Some(u64::MAX)
    } else {
        Some(total as u64)
    }
}

/// Resolves the CPU frequency from an optional textual override: a
/// decimal number with an optional case-sensitive magnitude suffix `G`,
/// `M` or `K`.  A missing or unparsable override silently falls back to
/// the default frequency; calibration failure never blocks opening a
/// stream.
pub fn resolve_frequency(env_value: Option<&str>) -> (hz: u64)
    ensures
        hz == spec_resolved_hz(spec_opt_bytes(env_value)),
{
    match env_value {
        None => DEFAULT_CPU_HZ,
        Some(s) => {
            let b = s.as_bytes();
            match parse_override_hz(b) {
                Some(v) => v,
                None => DEFAULT_CPU_HZ,
            }
        },
    }
}

/// The fixed-point calibration constant: the frequency in cycles per
/// nanosecond, scaled by 1024 and truncated.
pub open spec fn spec_qhz(hz: u64) -> u64 {
    (hz * 1024 / 1_000_000_000) as u64
}

/// Derives the fixed-point calibration constant from a frequency in
/// hertz.
pub fn make_calibration_constant(hz: u64) -> (q: u64)
    ensures
        q == spec_qhz(hz),
{
    proof {
        lemma_div_is_ordered_by_denominator(hz * 1024, 1024, 1_000_000_000);
        lemma_div_multiples_vanish(hz as int, 1024);
        assert(hz * 1024 == 1024 * hz);
    }
    let q = (hz as u128) * 1024 / 1_000_000_000;
    q as u64
}

/// The scaled tick delta a conversion divides: with an origin, the
/// wrapped 64-bit difference from the origin times 1024; without one,
/// the raw tick value itself.
pub open spec fn spec_delta(tsc: u64, first_tsc: Option<u64>) -> int {
    match first_tsc {
        Some(first) => vstd::wrapping::u64_specs::wrapping_sub(tsc, first) * 1024,
        None => tsc as int,
    }
}

/// The nanosecond timestamp of a tick value: the scaled delta divided by
/// the calibration constant, truncated, and saturated to the signed
/// 64-bit range.  A zero calibration constant maps a zero delta to zero
/// and anything else to the saturation bound.
pub open spec fn spec_tsc_to_ns(tsc: u64, cpu_qhz: u64, first_tsc: Option<u64>) -> i64 {
    let d = spec_delta(tsc, first_tsc);
    if cpu_qhz == 0 {
        if d == 0 {
            0
        } else {
            i64::MAX
        }
    } else if d / (cpu_qhz as int) > i64::MAX {
        i64::MAX
    } else {
        (d / (cpu_qhz as int)) as i64
    }
}

/// Converts a hardware cycle count into nanoseconds relative to the
/// trace origin.  Total for every input: counter wraparound surfaces as
/// a large delta rather than an abort, and the result saturates instead
/// of overflowing.
pub fn tsc_to_ns(tsc: u64, cpu_qhz: u64, first_tsc: Option<u64>) -> (ns: i64)
    ensures
        ns == spec_tsc_to_ns(tsc, cpu_qhz, first_tsc),
{
    let d: u128 = match first_tsc {
        Some(first) => (tsc.wrapping_sub(first) as u128) * 1024,
        None => tsc as u128,
    };
    if cpu_qhz == 0 {
        if d == 0 {
            0
        } else {
            i64::MAX
        }
    } else {
        let q = d / (cpu_qhz as u128);
        if q > i64::MAX as u128 {
            i64::MAX
        } else {
            q as i64
        }
    }
}

/// The origin tick converts to the zero timestamp, whatever the
/// calibration constant.
pub proof fn lemma_origin_maps_to_zero(origin: u64, cpu_qhz: u64)
    ensures
        spec_tsc_to_ns(origin, cpu_qhz, Some(origin)) == 0,
{
    assert(spec_delta(origin, Some(origin)) == 0);
    if cpu_qhz != 0 {
        lemma_basic_div(0, cpu_qhz as int);
    }
}

} // verus!
