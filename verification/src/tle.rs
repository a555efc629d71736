//! Two-Line Element (TLE) set support for satellite tracking.
//!
//! TLE sets are the standard fixed-column format for distributing satellite
//! orbital elements. The parser works on the raw bytes of the two lines;
//! every numeric field is an exactly scaled integer, so the parsed values
//! and the epoch arithmetic carry exact contracts.

use vstd::prelude::*;

use chrono::TimeZone;

use crate::errors::{CelestialError, CelestialResult};
use crate::orbital::KeplerianElements;
use crate::time_scales::{year_start_unix_seconds, UtcInstant};

verus! {

use vstd::string::StringExecFns;
use vstd::string::StringSliceAdditionalSpecFns;

/// ASCII whitespace, as trimmed from numeric fields before parsing.
pub open spec fn is_space(b: u8) -> bool {
    b == 32 || b == 9 || b == 10 || b == 11 || b == 12 || b == 13
}

/// ASCII decimal digit.
pub open spec fn is_digit(b: u8) -> bool {
    48 <= b <= 57
}

/// Value of an ASCII decimal digit.
pub open spec fn digit_val(b: u8) -> int {
    b - 48
}

/// Whether every byte of `s` is an ASCII digit.
pub open spec fn digits_only(s: Seq<u8>) -> bool {
    forall|i: int| 0 <= i < s.len() ==> is_digit(#[trigger] s[i])
}

/// Numeric value of a digit run, most significant digit first.
pub open spec fn digits_val(s: Seq<u8>) -> int
    decreases s.len(),
{
    if s.len() == 0 {
        0
    } else {
        digits_val(s.drop_last()) * 10 + digit_val(s.last())
    }
}

/// `s` with leading ASCII whitespace removed.
pub open spec fn trim_start(s: Seq<u8>) -> Seq<u8>
    decreases s.len(),
{
    if s.len() > 0 && is_space(s[0]) {
        trim_start(s.drop_first())
    } else {
        s
    }
}

/// `s` with trailing ASCII whitespace removed.
pub open spec fn trim_end(s: Seq<u8>) -> Seq<u8>
    decreases s.len(),
{
    if s.len() > 0 && is_space(s.last()) {
        trim_end(s.drop_last())
    } else {
        s
    }
}

/// `s` with surrounding ASCII whitespace removed.
pub open spec fn trim(s: Seq<u8>) -> Seq<u8> {
    trim_end(trim_start(s))
}

/// Powers of ten up to 10¹⁴, for digit-run bounds and decimal scaling.
pub open spec fn spec_pow10(k: int) -> int {
    if k <= 0 {
        1
    } else if k == 1 {
        10
    } else if k == 2 {
        100
    } else if k == 3 {
        1000
    } else if k == 4 {
        10000
    } else if k == 5 {
        100000
    } else if k == 6 {
        1000000
    } else if k == 7 {
        10000000
    } else if k == 8 {
        100000000
    } else if k == 9 {
        1000000000
    } else if k == 10 {
        10000000000
    } else if k == 11 {
        100000000000
    } else if k == 12 {
        1000000000000
    } else if k == 13 {
        10000000000000
    } else {
        100000000000000
    }
}

/// A digit run of length `n ≤ 14` has value below 10ⁿ.
pub proof fn lemma_digits_val_bound(s: Seq<u8>)
    requires
        digits_only(s),
        s.len() <= 14,
    ensures
        0 <= digits_val(s) < spec_pow10(s.len() as int),
    decreases s.len(),
{
    if s.len() > 0 {
        lemma_digits_val_bound(s.drop_last());
    }
}

/// Index of the first `.` in `s`, or `s.len()` if there is none.
pub open spec fn dot_index(s: Seq<u8>) -> int
    decreases s.len(),
{
    if s.len() == 0 {
        0
    } else if s[0] == 46 {
        0
    } else {
        1 + dot_index(s.drop_first())
    }
}

/// `dot_index` is the unique position with no dot before it and either a dot
/// at it or the end of the sequence.
pub proof fn lemma_dot_index_at(s: Seq<u8>, k: int)
    requires
        0 <= k <= s.len(),
        forall|j: int| 0 <= j < k ==> #[trigger] s[j] != 46,
        k == s.len() || s[k] == 46,
    ensures
        dot_index(s) == k,
    decreases s.len(),
{
    if s.len() > 0 && s[0] != 46 {
        lemma_dot_index_at(s.drop_first(), k - 1);
    }
}

/// The sign factor of a numeric field: −1 for a leading `-`, else +1.
pub open spec fn num_sign(s: Seq<u8>) -> int {
    if s.len() > 0 && s[0] == 45 {
        -1
    } else {
        1
    }
}

/// The field with a leading `+` or `-` removed.
pub open spec fn num_body(s: Seq<u8>) -> Seq<u8> {
    if s.len() > 0 && (s[0] == 43 || s[0] == 45) {
        s.drop_first()
    } else {
        s
    }
}

/// Whether a field is a valid (optionally signed) digit run.
pub open spec fn is_valid_int(s: Seq<u8>) -> bool {
    num_body(s).len() > 0 && digits_only(num_body(s))
}

/// Value of an (optionally signed) digit run.
pub open spec fn int_val(s: Seq<u8>) -> int {
    num_sign(s) * digits_val(num_body(s))
}

/// Whether a field is a valid unsigned digit run (a `+` is allowed, as the
/// standard library's unsigned parse allows it).
pub open spec fn is_valid_uint(s: Seq<u8>) -> bool {
    is_valid_int(s) && !(s.len() > 0 && s[0] == 45)
}

/// Integer part of a decimal field body (the digits before the first dot).
pub open spec fn dec_int_part(body: Seq<u8>) -> Seq<u8> {
    body.subrange(0, dot_index(body))
}

/// Fractional part of a decimal field body (the digits after the first dot).
pub open spec fn dec_frac_part(body: Seq<u8>) -> Seq<u8> {
    if dot_index(body) < body.len() {
        body.subrange(dot_index(body) + 1, body.len() as int)
    } else {
        Seq::empty()
    }
}

/// Value of a decimal field, scaled by 10⁸, assuming at most eight
/// fractional digits.
pub open spec fn dec_val_e8(s: Seq<u8>) -> int {
    num_sign(s) * (digits_val(dec_int_part(num_body(s))) * 100_000_000 + digits_val(
        dec_frac_part(num_body(s)),
    ) * spec_pow10(8 - dec_frac_part(num_body(s)).len() as int))
}

/// Whether a field is a decimal number this crate can carry exactly at
/// scale 10⁸ in a 64-bit integer: an optional sign, digits with at most one
/// dot and at least one digit, at most eight fractional digits, and a scaled
/// magnitude that fits.
pub open spec fn is_valid_decimal_e8(s: Seq<u8>) -> bool {
    &&& digits_only(dec_int_part(num_body(s)))
    &&& digits_only(dec_frac_part(num_body(s)))
    &&& dec_int_part(num_body(s)).len() + dec_frac_part(num_body(s)).len() > 0
    &&& dec_frac_part(num_body(s)).len() <= 8
    &&& -i64::MAX <= dec_val_e8(s) <= i64::MAX
}

/// Scan a digit run and return its value, or `None` if any byte is not a
/// digit. An empty run is the value 0.
fn scan_digits(bytes: &[u8], start: usize, end: usize) -> (r: Option<u64>)
    requires
        start <= end <= bytes@.len(),
        end - start <= 14,
    ensures
        match r {
            Some(v) => digits_only(bytes@.subrange(start as int, end as int)) && v
                == digits_val(bytes@.subrange(start as int, end as int)) && v < spec_pow10(
                end - start,
            ),
            None => !digits_only(bytes@.subrange(start as int, end as int)),
        },
{
    let ghost whole: Seq<u8> = bytes@.subrange(start as int, end as int);
    let mut acc: u64 = 0;
    let mut i: usize = start;
    while i < end
        invariant
            start <= i <= end <= bytes@.len(),
            end - start <= 14,
            whole == bytes@.subrange(start as int, end as int),
            digits_only(bytes@.subrange(start as int, i as int)),
            acc == digits_val(bytes@.subrange(start as int, i as int)),
            acc < spec_pow10(i - start),
        decreases end - i,
    {
        let b: u8 = bytes[i];
        if b < 48 || b > 57 {
            proof {
                assert(whole[i - start] == bytes@[i as int]);
            }
            return None;
        }
        proof {
            assert(bytes@.subrange(start as int, i + 1).drop_last() =~= bytes@.subrange(
                start as int,
                i as int,
            ));
            assert(bytes@.subrange(start as int, i + 1).last() == bytes@[i as int]);
            assert(forall|j: int|
                0 <= j < i + 1 - start ==> #[trigger] bytes@.subrange(start as int, i + 1)[j]
                    == bytes@.subrange(start as int, i as int + 1)[j]);
        }
        acc = acc * 10 + (b - 48) as u64;
        i = i + 1;
    }
    proof {
        assert(whole =~= bytes@.subrange(start as int, end as int));
    }
    Some(acc)
}

/// Whether a byte is ASCII whitespace.
fn is_space_byte(b: u8) -> (r: bool)
    ensures
        r == is_space(b),
{
    b == 32 || b == 9 || b == 10 || b == 11 || b == 12 || b == 13
}

/// Narrow a field to its content without surrounding ASCII whitespace.
fn trim_range(bytes: &[u8], start: usize, end: usize) -> (r: (usize, usize))
    requires
        start <= end <= bytes@.len(),
    ensures
        start <= r.0 <= r.1 <= end,
        bytes@.subrange(r.0 as int, r.1 as int) == trim(
            bytes@.subrange(start as int, end as int),
        ),
{
    let mut s: usize = start;
    let mut e: usize = end;
    while s < e && is_space_byte(bytes[s])
        invariant
            start <= s <= e <= end <= bytes@.len(),
            trim_start(bytes@.subrange(start as int, end as int)) == trim_start(
                bytes@.subrange(s as int, e as int),
            ),
        decreases e - s,
    {
        proof {
            assert(bytes@.subrange(s as int, e as int).drop_first() =~= bytes@.subrange(
                s + 1,
                e as int,
            ));
        }
        s = s + 1;
    }
    proof {
        assert(trim_start(bytes@.subrange(s as int, e as int)) == bytes@.subrange(
            s as int,
            e as int,
        ));
    }
    while s < e && is_space_byte(bytes[e - 1])
        invariant
            start <= s <= e <= end <= bytes@.len(),
            trim(bytes@.subrange(start as int, end as int)) == trim_end(
                bytes@.subrange(s as int, e as int),
            ),
        decreases e - s,
    {
        proof {
            assert(bytes@.subrange(s as int, e as int).drop_last() =~= bytes@.subrange(
                s as int,
                e - 1,
            ));
        }
        e = e - 1;
    }
    proof {
        assert(trim_end(bytes@.subrange(s as int, e as int)) == bytes@.subrange(
            s as int,
            e as int,
        ));
    }
    (s, e)
}

/// Powers of ten up to 10⁸, executable.
fn pow10_u64(k: usize) -> (r: u64)
    requires
        k <= 8,
    ensures
        r == spec_pow10(k as int),
{
    if k == 0 {
        1
    } else if k == 1 {
        10
    } else if k == 2 {
        100
    } else if k == 3 {
        1000
    } else if k == 4 {
        10000
    } else if k == 5 {
        100000
    } else if k == 6 {
        1000000
    } else if k == 7 {
        10000000
    } else {
        100000000
    }
}

/// Parse an unsigned integer field (digits with an optional leading `+`),
/// as the standard library's unsigned parse would.
fn parse_uint_u32(bytes: &[u8], start: usize, end: usize) -> (r: Option<u32>)
    requires
        start <= end <= bytes@.len(),
        end - start <= 14,
    ensures
        match r {
            Some(v) => is_valid_uint(bytes@.subrange(start as int, end as int)) && v == int_val(
                bytes@.subrange(start as int, end as int),
            ),
            None => !(is_valid_uint(bytes@.subrange(start as int, end as int)) && int_val(
                bytes@.subrange(start as int, end as int),
            ) <= u32::MAX),
        },
{
    let ghost field: Seq<u8> = bytes@.subrange(start as int, end as int);
    let mut s: usize = start;
    if s < end && bytes[s] == 43 {
        s = s + 1;
        proof {
            assert(num_body(field) =~= bytes@.subrange(s as int, end as int));
        }
    } else {
        proof {
            assert(num_body(field) =~= bytes@.subrange(s as int, end as int) || (field.len() > 0
                && field[0] == 45));
        }
    }
    if s == end {
        return None;
    }
    match scan_digits(bytes, s, end) {
        None => {
            proof {
                if field.len() > 0 && field[0] == 45 {
                    assert(!is_valid_uint(field));
                }
            }
            None
        },
        Some(v) => {
            if v <= 0xFFFF_FFFF {
                proof {
                    if field.len() > 0 && field[0] == 45 {
                        assert(bytes@.subrange(s as int, end as int)[0] == 45);
                        assert(!is_digit(45));
                        assert(false);
                    }
                }
                Some(v as u32)
            } else {
                None
            }
        },
    }
}

/// Parse a signed integer field (digits with an optional leading sign),
/// as the standard library's signed parse would.
fn parse_int_i64(bytes: &[u8], start: usize, end: usize) -> (r: Option<i64>)
    requires
        start <= end <= bytes@.len(),
        end - start <= 14,
    ensures
        match r {
            Some(v) => is_valid_int(bytes@.subrange(start as int, end as int)) && v == int_val(
                bytes@.subrange(start as int, end as int),
            ),
            None => !is_valid_int(bytes@.subrange(start as int, end as int)),
        },
{
    let ghost field: Seq<u8> = bytes@.subrange(start as int, end as int);
    let mut s: usize = start;
    let mut neg: bool = false;
    if s < end && (bytes[s] == 43 || bytes[s] == 45) {
        neg = bytes[s] == 45;
        s = s + 1;
    }
    proof {
        assert(num_body(field) =~= bytes@.subrange(s as int, end as int));
    }
    if s == end {
        return None;
    }
    match scan_digits(bytes, s, end) {
        None => None,
        Some(v) => {
            if neg {
                Some(-(v as i64))
            } else {
                Some(v as i64)
            }
        },
    }
}

/// Parse a decimal field into its value scaled by 10⁸.
#[verifier::rlimit(50)]
fn parse_decimal_e8(bytes: &[u8], start: usize, end: usize) -> (r: Option<i64>)
    requires
        start <= end <= bytes@.len(),
        end - start <= 14,
    ensures
        match r {
            Some(v) => is_valid_decimal_e8(bytes@.subrange(start as int, end as int)) && v
                == dec_val_e8(bytes@.subrange(start as int, end as int)),
            None => !is_valid_decimal_e8(bytes@.subrange(start as int, end as int)),
        },
{
    let ghost field: Seq<u8> = bytes@.subrange(start as int, end as int);
    let mut s: usize = start;
    let mut neg: bool = false;
    if s < end && (bytes[s] == 43 || bytes[s] == 45) {
        neg = bytes[s] == 45;
        s = s + 1;
    }
    let ghost body: Seq<u8> = bytes@.subrange(s as int, end as int);
    proof {
        assert(num_body(field) =~= body);
        assert(num_sign(field) == if neg {
            -1int
        } else {
            1int
        });
    }
    let mut di: usize = s;
    while di < end && bytes[di] != 46
        invariant
            s <= di <= end <= bytes@.len(),
            forall|j: int| s <= j < di ==> #[trigger] bytes@[j] != 46,
        decreases end - di,
    {
        di = di + 1;
    }
    proof {
        assert(forall|j: int| 0 <= j < di - s ==> #[trigger] body[j] != 46);
        if di < end {
            assert(body[di - s] == 46);
        }
        lemma_dot_index_at(body, di - s);
        assert(dec_int_part(body) =~= bytes@.subrange(s as int, di as int));
    }
    let iv: u64 = match scan_digits(bytes, s, di) {
        None => {
            return None;
        },
        Some(v) => v,
    };
    let fv: u64;
    let flen: usize;
    if di < end {
        proof {
            assert(dec_frac_part(body) =~= bytes@.subrange(di + 1, end as int));
        }
        fv = match scan_digits(bytes, di + 1, end) {
            None => {
                return None;
            },
            Some(v) => v,
        };
        flen = end - di - 1;
    } else {
        proof {
            assert(dec_frac_part(body) =~= Seq::<u8>::empty());
        }
        fv = 0;
        flen = 0;
    }
    if di - s == 0 && flen == 0 {
        return None;
    }
    if flen > 8 {
        return None;
    }
    let scale: u64 = pow10_u64(8 - flen);
    proof {
        assert(iv <= 100_000_000_000_000 && fv <= 100_000_000_000_000 && scale
            <= 100_000_000);
        assert(0 <= fv as int * scale as int <= 10_000_000_000_000_000_000_000int)
            by (nonlinear_arith)
            requires
                fv <= 100_000_000_000_000u64,
                scale <= 100_000_000u64,
        ;
    }
    let combined: i128 = iv as i128 * 100_000_000 + fv as i128 * scale as i128;
    if combined > 0x7FFF_FFFF_FFFF_FFFFi128 {
        return None;
    }
    if neg {
        Some(-(combined as i64))
    } else {
        Some(combined as i64)
    }
}

/// Catalog-number field of line 1 (characters 2..7, trimmed).
pub open spec fn tle_catalog_field(l1: Seq<u8>) -> Seq<u8> {
    trim(l1.subrange(2, 7))
}

/// Two-digit epoch-year field of line 1 (characters 18..20, untrimmed).
pub open spec fn tle_year_field(l1: Seq<u8>) -> Seq<u8> {
    l1.subrange(18, 20)
}

/// Fractional day-of-year field of line 1 (characters 20..32, untrimmed).
pub open spec fn tle_day_field(l1: Seq<u8>) -> Seq<u8> {
    l1.subrange(20, 32)
}

/// Inclination field of line 2 (characters 8..16, trimmed), in degrees.
pub open spec fn tle_inclination_field(l2: Seq<u8>) -> Seq<u8> {
    trim(l2.subrange(8, 16))
}

/// Right-ascension-of-ascending-node field of line 2 (characters 17..25,
/// trimmed), in degrees.
pub open spec fn tle_raan_field(l2: Seq<u8>) -> Seq<u8> {
    trim(l2.subrange(17, 25))
}

/// Eccentricity field of line 2 (characters 26..33): seven digits with an
/// implied leading `0.`.
pub open spec fn tle_eccentricity_field(l2: Seq<u8>) -> Seq<u8> {
    l2.subrange(26, 33)
}

/// Argument-of-perigee field of line 2 (characters 34..42, trimmed), in
/// degrees.
pub open spec fn tle_arg_perigee_field(l2: Seq<u8>) -> Seq<u8> {
    trim(l2.subrange(34, 42))
}

/// Mean-anomaly field of line 2 (characters 43..51, trimmed), in degrees.
pub open spec fn tle_mean_anomaly_field(l2: Seq<u8>) -> Seq<u8> {
    trim(l2.subrange(43, 51))
}

/// Mean-motion field of line 2 (characters 52..63, trimmed), in revolutions
/// per day.
pub open spec fn tle_mean_motion_field(l2: Seq<u8>) -> Seq<u8> {
    trim(l2.subrange(52, 63))
}

/// The full epoch year: two-digit years below 57 lie in the 2000s, the rest
/// in the 1900s.
pub open spec fn tle_full_year(l1: Seq<u8>) -> int {
    let yy = int_val(tle_year_field(l1));
    if yy < 57 {
        2000 + yy
    } else {
        1900 + yy
    }
}

/// Unix seconds of a TLE epoch: the start of `year`, plus the whole
/// days of the (one-based) fractional day-of-year, plus the fractional
/// day scaled to seconds and rounded half-up.
pub open spec fn spec_tle_epoch_unix(year: int, day_e8: int) -> int {
    year_start_unix_seconds(year) + (day_e8 / 100_000_000 - 1) * 86400 + (day_e8 % 100_000_000
        * 86400 + 50_000_000) / 100_000_000
}

/// Both lines hold the 69 characters of the fixed-column format.
pub open spec fn tle_lines_long_enough(l1: Seq<u8>, l2: Seq<u8>) -> bool {
    l1.len() >= 69 && l2.len() >= 69
}

/// The lines begin with their line numbers `1` and `2`.
pub open spec fn tle_line_numbers_ok(l1: Seq<u8>, l2: Seq<u8>) -> bool {
    l1[0] == 49 && l2[0] == 50
}

/// The catalog-number field parses as an unsigned 32-bit integer.
pub open spec fn tle_catalog_ok(l1: Seq<u8>) -> bool {
    is_valid_uint(tle_catalog_field(l1)) && int_val(tle_catalog_field(l1)) <= u32::MAX
}

/// The epoch-year field parses as a (signed) integer.
pub open spec fn tle_year_ok(l1: Seq<u8>) -> bool {
    is_valid_int(tle_year_field(l1))
}

/// The day-of-year field parses as a decimal of at most eight fractional
/// digits.
pub open spec fn tle_day_ok(l1: Seq<u8>) -> bool {
    is_valid_decimal_e8(tle_day_field(l1))
}

/// The inclination field parses as a decimal.
pub open spec fn tle_inclination_ok(l2: Seq<u8>) -> bool {
    is_valid_decimal_e8(tle_inclination_field(l2))
}

/// The right-ascension field parses as a decimal.
pub open spec fn tle_raan_ok(l2: Seq<u8>) -> bool {
    is_valid_decimal_e8(tle_raan_field(l2))
}

/// The eccentricity field is seven digits.
pub open spec fn tle_eccentricity_ok(l2: Seq<u8>) -> bool {
    digits_only(tle_eccentricity_field(l2))
}

/// The argument-of-perigee field parses as a decimal.
pub open spec fn tle_arg_perigee_ok(l2: Seq<u8>) -> bool {
    is_valid_decimal_e8(tle_arg_perigee_field(l2))
}

/// The mean-anomaly field parses as a decimal.
pub open spec fn tle_mean_anomaly_ok(l2: Seq<u8>) -> bool {
    is_valid_decimal_e8(tle_mean_anomaly_field(l2))
}

/// The mean-motion field parses as a decimal.
pub open spec fn tle_mean_motion_ok(l2: Seq<u8>) -> bool {
    is_valid_decimal_e8(tle_mean_motion_field(l2))
}

/// All conditions under which two lines parse into a `TleElements`.
pub open spec fn tle_parse_ok(l1: Seq<u8>, l2: Seq<u8>) -> bool {
    &&& tle_lines_long_enough(l1, l2)
    &&& tle_line_numbers_ok(l1, l2)
    &&& tle_catalog_ok(l1)
    &&& tle_year_ok(l1)
    &&& tle_day_ok(l1)
    &&& tle_inclination_ok(l2)
    &&& tle_raan_ok(l2)
    &&& tle_eccentricity_ok(l2)
    &&& tle_arg_perigee_ok(l2)
    &&& tle_mean_anomaly_ok(l2)
    &&& tle_mean_motion_ok(l2)
}

/// The reason reported for the first failing parse condition.
pub open spec fn spec_tle_error_reason(l1: Seq<u8>, l2: Seq<u8>) -> Seq<char> {
    if !tle_lines_long_enough(l1, l2) {
        "TLE lines must be 69 characters"@
    } else if !tle_line_numbers_ok(l1, l2) {
        "Invalid TLE line numbers"@
    } else if !tle_catalog_ok(l1) {
        "Invalid catalog number"@
    } else if !tle_year_ok(l1) {
        "Invalid epoch year"@
    } else if !tle_day_ok(l1) {
        "Invalid epoch day"@
    } else if !tle_inclination_ok(l2) {
        "Invalid inclination"@
    } else if !tle_raan_ok(l2) {
        "Invalid RAAN"@
    } else if !tle_eccentricity_ok(l2) {
        "Invalid eccentricity"@
    } else if !tle_arg_perigee_ok(l2) {
        "Invalid argument of perigee"@
    } else if !tle_mean_anomaly_ok(l2) {
        "Invalid mean anomaly"@
    } else {
        "Invalid mean motion"@
    }
}

/// First year for which the calendar backend constructs 1 January.
pub const MIN_CALENDAR_YEAR: i32 = -262143;

/// Last year for which the calendar backend constructs 1 January.
pub const MAX_CALENDAR_YEAR: i32 = 262142;

/// Relies on chrono's `TimeZone::with_ymd_and_hms` on `Utc` together with
/// `DateTime::timestamp`: the Unix seconds of 1 January of `year` at
/// midnight in the proleptic Gregorian calendar, for every year chrono's
/// dates cover; those timestamps stay within ±8.4·10¹² seconds.
#[verifier::external_body]
fn start_of_year_timestamp(year: i32) -> (r: i64)
    requires
        MIN_CALENDAR_YEAR <= year <= MAX_CALENDAR_YEAR,
    ensures
        r == year_start_unix_seconds(year as int),
        -8_400_000_000_000 <= r <= 8_310_000_000_000,
{
    match chrono::Utc.with_ymd_and_hms(year, 1, 1, 0, 0, 0).single() {
        Some(d) => d.timestamp(),
        // Unreachable: chrono constructs every date in the accepted years.
        None => 0,
    }
}

/// Convert a TLE epoch (year plus one-based fractional day-of-year, the day
/// scaled by 10⁸) to a UTC instant: the start of the year, plus the whole
/// days less one, plus the day fraction as seconds rounded half-up.
///
/// A year outside the calendar backend's range is rejected; every other
/// year yields the exact instant.
pub fn tle_epoch_to_datetime(year: i32, day_e8: i64) -> (r: CelestialResult<UtcInstant>)
    ensures
        r is Ok <==> MIN_CALENDAR_YEAR <= year <= MAX_CALENDAR_YEAR,
        r matches Ok(e) ==> e.unix_seconds == spec_tle_epoch_unix(year as int, day_e8 as int),
        r matches Err(e) ==> e matches CelestialError::InvalidCoordinates { reason }
            && reason@ == "Invalid year"@,
{
    if year < MIN_CALENDAR_YEAR || year > MAX_CALENDAR_YEAR {
        return Err(CelestialError::InvalidCoordinates {
            reason: String::from_str("Invalid year"),
        });
    }
    let jan1: i64 = start_of_year_timestamp(year);
    let whole_minus1: i128 = crate::math::div_floor_i128(day_e8 as i128, 100_000_000) - 1;
    proof {
        vstd::arithmetic::div_mod::lemma_div_is_ordered(
            -0x8000_0000_0000_0000i128 as int,
            day_e8 as int,
            100_000_000,
        );
        vstd::arithmetic::div_mod::lemma_div_is_ordered(
            day_e8 as int,
            0x7FFF_FFFF_FFFF_FFFFi128 as int,
            100_000_000,
        );
    }
    let frac_e8: i128 = crate::math::mod_floor_i128(day_e8 as i128, 100_000_000);
    let numer: i128 = frac_e8 * 86400 + 50_000_000;
    let secs: i128 = crate::math::div_floor_i128(numer, 100_000_000);
    proof {
        vstd::arithmetic::div_mod::lemma_div_is_ordered(0, numer as int, 100_000_000);
        vstd::arithmetic::div_mod::lemma_div_is_ordered(
            numer as int,
            8_640_050_000_000,
            100_000_000,
        );
    }
    let total: i128 = jan1 as i128 + whole_minus1 * 86400 + secs;
    Ok(UtcInstant { unix_seconds: total as i64 })
}

/// A Two-Line Element set representing satellite orbital parameters.
///
/// TLE format is standardised by NORAD/Space Track and consists of two
/// 69-character lines encoding orbital elements and metadata. Angles are
/// held in degrees scaled by 10⁸, the eccentricity as its value scaled by
/// 10⁸, and the mean motion in revolutions per day scaled by 10⁸ — all
/// exactly as written in the element set.
#[derive(Clone, Copy, Debug, PartialEq, Eq, Structural)]
pub struct TleElements {
    /// Satellite catalog number.
    pub catalog_number: u32,
    /// Epoch (time of the element set).
    pub epoch: UtcInstant,
    /// Inclination, degrees scaled by 10⁸.
    pub inclination_deg_e8: i64,
    /// Right ascension of the ascending node, degrees scaled by 10⁸.
    pub raan_deg_e8: i64,
    /// Eccentricity scaled by 10⁸.
    pub eccentricity_e8: i64,
    /// Argument of perigee, degrees scaled by 10⁸.
    pub arg_perigee_deg_e8: i64,
    /// Mean anomaly, degrees scaled by 10⁸.
    pub mean_anomaly_deg_e8: i64,
    /// Mean motion, revolutions per day scaled by 10⁸.
    pub mean_motion_rev_per_day_e8: i64,
}

impl TleElements {
    /// Parse a TLE from its two lines.
    ///
    /// Returns `CelestialError::InvalidCoordinates` naming the first
    /// offending field if the format is invalid; otherwise every element is
    /// the exact decimal value written in its fixed columns.
    pub fn from_lines(line1: &str, line2: &str) -> (r: CelestialResult<TleElements>)
        ensures
            r is Ok <==> tle_parse_ok(line1.spec_bytes(), line2.spec_bytes()),
            r matches Ok(t) ==> {
                &&& t.catalog_number == int_val(tle_catalog_field(line1.spec_bytes()))
                &&& t.epoch.unix_seconds == spec_tle_epoch_unix(
                    tle_full_year(line1.spec_bytes()),
                    dec_val_e8(tle_day_field(line1.spec_bytes())),
                )
                &&& t.inclination_deg_e8 == dec_val_e8(
                    tle_inclination_field(line2.spec_bytes()),
                )
                &&& t.raan_deg_e8 == dec_val_e8(tle_raan_field(line2.spec_bytes()))
                &&& t.eccentricity_e8 == digits_val(tle_eccentricity_field(line2.spec_bytes()))
                    * 10
                &&& t.arg_perigee_deg_e8 == dec_val_e8(
                    tle_arg_perigee_field(line2.spec_bytes()),
                )
                &&& t.mean_anomaly_deg_e8 == dec_val_e8(
                    tle_mean_anomaly_field(line2.spec_bytes()),
                )
                &&& t.mean_motion_rev_per_day_e8 == dec_val_e8(
                    tle_mean_motion_field(line2.spec_bytes()),
                )
            },
            r matches Err(e) ==> e matches CelestialError::InvalidCoordinates { reason }
                && reason@ == spec_tle_error_reason(line1.spec_bytes(), line2.spec_bytes()),
    {
        let b1: &[u8] = line1.as_bytes();
        let b2: &[u8] = line2.as_bytes();
        if b1.len() < 69 || b2.len() < 69 {
            return Err(CelestialError::InvalidCoordinates {
                reason: String::from_str("TLE lines must be 69 characters"),
            });
        }
        if b1[0] != 49 || b2[0] != 50 {
            return Err(CelestialError::InvalidCoordinates {
                reason: String::from_str("Invalid TLE line numbers"),
            });
        }
        let cat_range: (usize, usize) = trim_range(b1, 2, 7);
        let catalog_number: u32 = match parse_uint_u32(b1, cat_range.0, cat_range.1) {
            None => {
                return Err(CelestialError::InvalidCoordinates {
                    reason: String::from_str("Invalid catalog number"),
                });
            },
            Some(v) => v,
        };
        let yy: i64 = match parse_int_i64(b1, 18, 20) {
            None => {
                return Err(CelestialError::InvalidCoordinates {
                    reason: String::from_str("Invalid epoch year"),
                });
            },
            Some(v) => v,
        };
        proof {
            lemma_digits_val_bound(num_body(tle_year_field(line1.spec_bytes())));
        }
        let year: i64 = if yy < 57 {
            2000 + yy
        } else {
            1900 + yy
        };
        let day_e8: i64 = match parse_decimal_e8(b1, 20, 32) {
            None => {
                return Err(CelestialError::InvalidCoordinates {
                    reason: String::from_str("Invalid epoch day"),
                });
            },
            Some(v) => v,
        };
        let epoch: UtcInstant = match tle_epoch_to_datetime(year as i32, day_e8) {
            Ok(e) => e,
            Err(e) => {
                return Err(e);
            },
        };
        let inc_range: (usize, usize) = trim_range(b2, 8, 16);
        let inclination_deg_e8: i64 = match parse_decimal_e8(b2, inc_range.0, inc_range.1) {
            None => {
                return Err(CelestialError::InvalidCoordinates {
                    reason: String::from_str("Invalid inclination"),
                });
            },
            Some(v) => v,
        };
        let raan_range: (usize, usize) = trim_range(b2, 17, 25);
        let raan_deg_e8: i64 = match parse_decimal_e8(b2, raan_range.0, raan_range.1) {
            None => {
                return Err(CelestialError::InvalidCoordinates {
                    reason: String::from_str("Invalid RAAN"),
                });
            },
            Some(v) => v,
        };
        let ecc_digits: u64 = match scan_digits(b2, 26, 33) {
            None => {
                return Err(CelestialError::InvalidCoordinates {
                    reason: String::from_str("Invalid eccentricity"),
                });
            },
            Some(v) => v,
        };
        let eccentricity_e8: i64 = (ecc_digits * 10) as i64;
        let argp_range: (usize, usize) = trim_range(b2, 34, 42);
        let arg_perigee_deg_e8: i64 = match parse_decimal_e8(b2, argp_range.0, argp_range.1) {
            None => {
                return Err(CelestialError::InvalidCoordinates {
                    reason: String::from_str("Invalid argument of perigee"),
                });
            },
            Some(v) => v,
        };
        let ma_range: (usize, usize) = trim_range(b2, 43, 51);
        let mean_anomaly_deg_e8: i64 = match parse_decimal_e8(b2, ma_range.0, ma_range.1) {
            None => {
                return Err(CelestialError::InvalidCoordinates {
                    reason: String::from_str("Invalid mean anomaly"),
                });
            },
            Some(v) => v,
        };
        let mm_range: (usize, usize) = trim_range(b2, 52, 63);
        let mean_motion_rev_per_day_e8: i64 = match parse_decimal_e8(b2, mm_range.0, mm_range.1) {
            None => {
                return Err(CelestialError::InvalidCoordinates {
                    reason: String::from_str("Invalid mean motion"),
                });
            },
            Some(v) => v,
        };
        Ok(TleElements {
            catalog_number,
            epoch,
            inclination_deg_e8,
            raan_deg_e8,
            eccentricity_e8,
            arg_perigee_deg_e8,
            mean_anomaly_deg_e8,
            mean_motion_rev_per_day_e8,
        })
    }

    /// The satellite catalog number.
    pub fn catalog_number(&self) -> (r: u32)
        ensures
            r == self.catalog_number,
    {
        self.catalog_number
    }

    /// The epoch of the element set.
    pub fn epoch(&self) -> (r: UtcInstant)
        ensures
            r == self.epoch,
    {
        self.epoch
    }

    /// The inclination, in degrees scaled by 10⁸.
    pub fn inclination(&self) -> (r: i64)
        ensures
            r == self.inclination_deg_e8,
    {
        self.inclination_deg_e8
    }

    /// The right ascension of the ascending node, in degrees scaled by 10⁸.
    pub fn raan(&self) -> (r: i64)
        ensures
            r == self.raan_deg_e8,
    {
        self.raan_deg_e8
    }

    /// The eccentricity, scaled by 10⁸.
    pub fn eccentricity(&self) -> (r: i64)
        ensures
            r == self.eccentricity_e8,
    {
        self.eccentricity_e8
    }

    /// The argument of perigee, in degrees scaled by 10⁸.
    pub fn arg_perigee(&self) -> (r: i64)
        ensures
            r == self.arg_perigee_deg_e8,
    {
        self.arg_perigee_deg_e8
    }

    /// The mean anomaly, in degrees scaled by 10⁸.
    pub fn mean_anomaly(&self) -> (r: i64)
        ensures
            r == self.mean_anomaly_deg_e8,
    {
        self.mean_anomaly_deg_e8
    }

    /// The mean motion, in revolutions per day scaled by 10⁸.
    pub fn mean_motion(&self) -> (r: i64)
        ensures
            r == self.mean_motion_rev_per_day_e8,
    {
        self.mean_motion_rev_per_day_e8
    }

    /// Convert the element set to Keplerian elements.
    ///
    /// The semi-major axis is recovered from the mean motion through
    /// n² a³ = μ with Earth's gravitational parameter; the result is the
    /// integer cube root of μ/n² in metres, with n² carried to the full
    /// precision of a 64-bit quantity. The remaining elements are copied,
    /// the mean anomaly standing in for the true anomaly.
    ///
    /// The mean motion must be positive and at most 100 revolutions per
    /// day, the range in which the fixed-point inversion is exact.
    pub fn to_keplerian(&self) -> (r: KeplerianElements)
        requires
            100 <= self.mean_motion_rev_per_day_e8 <= 10_000_000_000,
        ensures
            is_cube_root_of(
                r.semi_major_axis_m as int,
                spec_orbit_cube_m3(self.mean_motion_rev_per_day_e8 as int),
            ),
            r.eccentricity_e8 == self.eccentricity_e8,
            r.inclination_deg_e8 == self.inclination_deg_e8,
            r.raan_deg_e8 == self.raan_deg_e8,
            r.argument_of_periapsis_deg_e8 == self.arg_perigee_deg_e8,
            r.true_anomaly_deg_e8 == self.mean_anomaly_deg_e8,
            r.mu == crate::constants::MU_EARTH,
    {
        let m: i128 = self.mean_motion_rev_per_day_e8 as i128;
        proof {
            assert(10_000 <= m * m <= 100_000_000_000_000_000_000i128) by (nonlinear_arith)
                requires
                    100 <= m <= 10_000_000_000i128,
            ;
        }
        let msq: i128 = m * m;
        proof {
            assert(39_478_417_604_357 * msq == 39_478_417_604_357 * m * m) by (nonlinear_arith)
                requires
                    msq == m * m,
            ;
        }
        let n2_e22: i128 = crate::math::mul_div_floor(
            39_478_417_604_357,
            msq,
            7_464_960_000_000_000,
        );
        proof {
            vstd::arithmetic::div_mod::lemma_div_is_ordered(
                39_478_417_604_357 * 10_000int,
                39_478_417_604_357 * msq,
                7_464_960_000_000_000,
            );
            vstd::arithmetic::div_mod::lemma_div_is_ordered(
                39_478_417_604_357 * msq,
                39_478_417_604_357 * 100_000_000_000_000_000_000int,
                7_464_960_000_000_000,
            );
        }
        proof {
            vstd::arithmetic::div_mod::lemma_div_is_ordered_by_denominator(
                3_986_004_418_000_000_000_000_000_000_000_000_000int,
                1,
                n2_e22 as int,
            );
            vstd::arithmetic::div_mod::lemma_div_is_ordered(
                0,
                3_986_004_418_000_000_000_000_000_000_000_000_000int,
                n2_e22 as int,
            );
        }
        let q: i128 = crate::math::div_floor_i128(
            3_986_004_418_000_000_000_000_000_000_000_000_000,
            n2_e22,
        );
        let a: u64 = crate::math::icbrt_u128(q as u128);
        proof {
            assert(a < 2_000_000_000_000u64) by (nonlinear_arith)
                requires
                    (a as int) * (a as int) * (a as int)
                        <= 3_986_004_418_000_000_000_000_000_000_000_000_000int,
            ;
        }
        KeplerianElements {
            semi_major_axis_m: a as i64,
            eccentricity_e8: self.eccentricity_e8,
            inclination_deg_e8: self.inclination_deg_e8,
            raan_deg_e8: self.raan_deg_e8,
            argument_of_periapsis_deg_e8: self.arg_perigee_deg_e8,
            true_anomaly_deg_e8: self.mean_anomaly_deg_e8,
            mu: crate::constants::MU_EARTH,
        }
    }
}

/// Whether `r` is the integer cube root of `x`.
pub open spec fn is_cube_root_of(r: int, x: int) -> bool {
    r * r * r <= x < (r + 1) * (r + 1) * (r + 1)
}

/// The square of the mean motion in radians per second, scaled by 10²²:
/// 4π²·m² / 86 400² for a mean motion of m revolutions per day, with 4π²
/// taken at a precision of 10⁻¹².
pub open spec fn spec_mean_motion_sq_e22(m_e8: int) -> int {
    39_478_417_604_357 * m_e8 * m_e8 / 7_464_960_000_000_000
}

/// The cube of the semi-major axis in cubic metres: μ_Earth / n², carried
/// as μ_Earth·10²² over the scaled square of the mean motion.
pub open spec fn spec_orbit_cube_m3(m_e8: int) -> int {
    3_986_004_418_000_000_000_000_000_000_000_000_000int / spec_mean_motion_sq_e22(m_e8)
}

} // verus!
