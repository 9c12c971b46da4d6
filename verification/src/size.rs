//! The human-readable byte-size converter. Thresholds are 1024-based and
//! inclusive: a value exactly at a power-of-1024 boundary belongs to the
//! larger unit, so no byte count falls between brackets. The scaled magnitude
//! is kept in tenths (one decimal place), rounded half away from zero. Zero
//! bytes are rendered as `0 B` rather than a placeholder.

use vstd::prelude::*;

use crate::digits::{
    all_digits, digit_char, digit_to_str, digit_val, is_digit, parse_dec_prefix, spec_dec,
    spec_dec_val, u64_to_dec,
};
use vstd::string::StrSliceExecFns;
use vstd::string::StringExecFns;

verus! {

/// One kibibyte.
pub const KB: u64 = 1024;

/// One mebibyte.
pub const MB: u64 = 1024 * 1024;

/// One gibibyte.
pub const GB: u64 = 1024 * 1024 * 1024;

/// One tebibyte.
pub const TB: u64 = 1024 * 1024 * 1024 * 1024;

/// The scale a byte count is displayed in.
#[derive(Clone, Copy, Debug, PartialEq, Eq, Structural)]
pub enum SizeUnit {
    B,
    K,
    M,
    G,
    T,
}

/// A human-scaled size: a magnitude in tenths of a unit, and the unit.
#[derive(Clone, Copy, Debug, PartialEq, Eq, Structural)]
pub struct SizeDisplay {
    /// Ten times the displayed magnitude, so one decimal place is exact.
    pub tenths: u64,
    /// The displayed unit.
    pub unit: SizeUnit,
}

/// The unit bracket of a byte count: the largest unit whose threshold the
/// count reaches, bytes below one kibibyte staying in `B`.
pub open spec fn spec_size_unit(bytes: u64) -> SizeUnit {
    if bytes >= TB {
        SizeUnit::T
    } else if bytes >= GB {
        SizeUnit::G
    } else if bytes >= MB {
        SizeUnit::M
    } else if bytes >= KB {
        SizeUnit::K
    } else {
        SizeUnit::B
    }
}

/// How many bytes one whole step of a unit stands for.
pub open spec fn spec_unit_divisor(u: SizeUnit) -> int {
    match u {
        SizeUnit::B => 1,
        SizeUnit::K => KB as int,
        SizeUnit::M => MB as int,
        SizeUnit::G => GB as int,
        SizeUnit::T => TB as int,
    }
}

/// The displayed magnitude in tenths: the byte count scaled by the unit's
/// divisor, rounded half away from zero to one decimal place. In the `B`
/// bracket the divisor is one, so the magnitude is the exact byte count.
pub open spec fn spec_size_tenths(bytes: u64) -> int {
    let d = spec_unit_divisor(spec_size_unit(bytes));
    (bytes * 10 + d / 2) / d
}

/// Scales a byte count into a magnitude and unit for display.
pub fn humanize_size(bytes: u64) -> (r: SizeDisplay)
    ensures
        r.unit == spec_size_unit(bytes),
        r.tenths == spec_size_tenths(bytes),
{
    if bytes >= TB {
        let t = ((bytes as u128 * 10 + (TB as u128) / 2) / (TB as u128)) as u64;
        proof {
            lemma_scaled_fits(bytes as int, TB as int);
        }
        SizeDisplay { tenths: t, unit: SizeUnit::T }
    } else if bytes >= GB {
        let t = ((bytes as u128 * 10 + (GB as u128) / 2) / (GB as u128)) as u64;
        proof {
            lemma_scaled_fits(bytes as int, GB as int);
        }
        SizeDisplay { tenths: t, unit: SizeUnit::G }
    } else if bytes >= MB {
        let t = ((bytes as u128 * 10 + (MB as u128) / 2) / (MB as u128)) as u64;
        proof {
            lemma_scaled_fits(bytes as int, MB as int);
        }
        SizeDisplay { tenths: t, unit: SizeUnit::M }
    } else if bytes >= KB {
        let t = ((bytes as u128 * 10 + (KB as u128) / 2) / (KB as u128)) as u64;
        proof {
            lemma_scaled_fits(bytes as int, KB as int);
        }
        SizeDisplay { tenths: t, unit: SizeUnit::K }
    } else {
        SizeDisplay { tenths: bytes * 10, unit: SizeUnit::B }
    }
}

/// The scaled magnitude of any sixty-four-bit byte count fits back into
/// sixty-four bits for every unit divisor from one kibibyte up.
proof fn lemma_scaled_fits(bytes: int, d: int)
    requires
        0 <= bytes <= u64::MAX,
        KB <= d <= TB,
    ensures
        0 <= (bytes * 10 + d / 2) / d <= u64::MAX,
{
    let x = bytes * 10 + d / 2;
    vstd::arithmetic::div_mod::lemma_div_pos_is_pos(x, d);
    vstd::arithmetic::div_mod::lemma_div_is_ordered_by_denominator(x, KB as int, d);
    vstd::arithmetic::div_mod::lemma_div_is_ordered(d, TB as int, 2);
    let bound = u64::MAX * 10 + (TB as int) / 2;
    vstd::arithmetic::div_mod::lemma_div_is_ordered(x, bound, KB as int);
    assert(bound / (KB as int) <= u64::MAX);
}

/// The order of the units, smallest first.
pub open spec fn size_unit_rank(u: SizeUnit) -> int {
    match u {
        SizeUnit::B => 0,
        SizeUnit::K => 1,
        SizeUnit::M => 2,
        SizeUnit::G => 3,
        SizeUnit::T => 4,
    }
}

/// Unit selection is monotonic in the byte count: a count no larger than
/// another is never displayed in a larger unit.
pub proof fn lemma_size_unit_monotonic(b1: u64, b2: u64)
    requires
        b1 <= b2,
    ensures
        size_unit_rank(spec_size_unit(b1)) <= size_unit_rank(spec_size_unit(b2)),
{
}

/// The letter a unit is displayed as.
pub open spec fn unit_char(u: SizeUnit) -> char {
    match u {
        SizeUnit::B => 'B',
        SizeUnit::K => 'K',
        SizeUnit::M => 'M',
        SizeUnit::G => 'G',
        SizeUnit::T => 'T',
    }
}

/// The unit a letter stands for, if any.
pub open spec fn char_unit(c: char) -> Option<SizeUnit> {
    if c == 'B' {
        Some(SizeUnit::B)
    } else if c == 'K' {
        Some(SizeUnit::K)
    } else if c == 'M' {
        Some(SizeUnit::M)
    } else if c == 'G' {
        Some(SizeUnit::G)
    } else if c == 'T' {
        Some(SizeUnit::T)
    } else {
        None
    }
}

/// The display form of a size: the magnitude with one decimal place (omitted
/// when it is zero), a space, and the unit letter.
pub open spec fn spec_render_size(d: SizeDisplay) -> Seq<char> {
    let whole = spec_dec((d.tenths / 10) as nat);
    let frac = (d.tenths % 10) as int;
    let num = if frac == 0 {
        whole
    } else {
        whole + seq!['.', digit_char(frac)]
    };
    num + seq![' '] + seq![unit_char(d.unit)]
}

/// What a displayed size reads back as: a digit string with at most one
/// decimal place, a space, and a unit letter. Values past the
/// sixty-four-bit range of tenths are rejected.
pub open spec fn spec_parse_size(s: Seq<char>) -> Option<SizeDisplay> {
    if s.len() < 3 {
        None
    } else {
        match char_unit(s.last()) {
            None => None,
            Some(unit) => {
                if s[s.len() - 2] != ' ' {
                    None
                } else {
                    let num = s.take(s.len() - 2);
                    let k = num.len() as int;
                    if k >= 3 && num[k - 2] == '.' {
                        let whole = num.take(k - 2);
                        let fd = num[k - 1];
                        if all_digits(whole) && is_digit(fd) {
                            let t = spec_dec_val(whole) * 10 + digit_val(fd);
                            if t <= u64::MAX {
                                Some(SizeDisplay { tenths: t as u64, unit })
                            } else {
                                None
                            }
                        } else {
                            None
                        }
                    } else {
                        if all_digits(num) {
                            let t = spec_dec_val(num) * 10;
                            if t <= u64::MAX {
                                Some(SizeDisplay { tenths: t as u64, unit })
                            } else {
                                None
                            }
                        } else {
                            None
                        }
                    }
                }
            },
        }
    }
}

/// The unit letter as a borrowed string.
fn unit_to_str(u: SizeUnit) -> (s: &'static str)
    ensures
        s@ == seq![unit_char(u)],
{
    proof {
        reveal_strlit("B");
        reveal_strlit("K");
        reveal_strlit("M");
        reveal_strlit("G");
        reveal_strlit("T");
    }
    match u {
        SizeUnit::B => "B",
        SizeUnit::K => "K",
        SizeUnit::M => "M",
        SizeUnit::G => "G",
        SizeUnit::T => "T",
    }
}

/// Renders a scaled size for display.
pub fn render_size(d: &SizeDisplay) -> (s: String)
    ensures
        s@ == spec_render_size(*d),
{
    let mut s = u64_to_dec(d.tenths / 10);
    let frac = d.tenths % 10;
    if frac != 0 {
        proof {
            reveal_strlit(".");
        }
        s.append(".");
        s.append(digit_to_str(frac));
    }
    proof {
        reveal_strlit(" ");
    }
    s.append(" ");
    s.append(unit_to_str(d.unit));
    proof {
        assert(s@ =~= spec_render_size(*d));
    }
    s
}

/// The unit a letter stands for, if any.
pub fn char_to_unit(c: char) -> (r: Option<SizeUnit>)
    ensures
        r == char_unit(c),
{
    if c == 'B' {
        Some(SizeUnit::B)
    } else if c == 'K' {
        Some(SizeUnit::K)
    } else if c == 'M' {
        Some(SizeUnit::M)
    } else if c == 'G' {
        Some(SizeUnit::G)
    } else if c == 'T' {
        Some(SizeUnit::T)
    } else {
        None
    }
}

/// Reads a displayed size back into its magnitude and unit.
pub fn parse_size(s: &str) -> (r: Option<SizeDisplay>)
    ensures
        r == spec_parse_size(s@),
{
    let n = s.unicode_len();
    if n < 3 {
        return None;
    }
    let unit = match char_to_unit(s.get_char(n - 1)) {
        None => {
            return None;
        },
        Some(u) => u,
    };
    if s.get_char(n - 2) != ' ' {
        return None;
    }
    let k = n - 2;
    proof {
        assert(s@.take(k as int).len() == k);
        assert(forall|j: int| 0 <= j < k ==> s@.take(k as int)[j] == s@[j]);
    }
    if k >= 3 && s.get_char(k - 2) == '.' {
        let fd = s.get_char(k - 1);
        let fu = fd as u32;
        if fu < 48 || fu > 57 {
            proof {
                crate::digits::lemma_digit_char_code(fd);
            }
            return None;
        }
        let d: u64 = (fu - 48) as u64;
        proof {
            crate::digits::lemma_digit_char_code(fd);
            assert(s@.take(k as int).take(k - 2) =~= s@.take(k - 2));
        }
        match parse_dec_prefix(s, k - 2) {
            None => None,
            Some(w) => {
                if w > (u64::MAX - d) / 10 {
                    proof {
                        vstd::arithmetic::div_mod::lemma_fundamental_div_mod(
                            (u64::MAX - d) as int,
                            10,
                        );
                    }
                    None
                } else {
                    proof {
                        vstd::arithmetic::div_mod::lemma_fundamental_div_mod(
                            (u64::MAX - d) as int,
                            10,
                        );
                    }
                    Some(SizeDisplay { tenths: w * 10 + d, unit })
                }
            },
        }
    } else {
        match parse_dec_prefix(s, k) {
            None => None,
            Some(w) => {
                if w > u64::MAX / 10 {
                    proof {
                        vstd::arithmetic::div_mod::lemma_fundamental_div_mod(u64::MAX as int, 10);
                    }
                    None
                } else {
                    proof {
                        vstd::arithmetic::div_mod::lemma_fundamental_div_mod(u64::MAX as int, 10);
                    }
                    Some(SizeDisplay { tenths: w * 10, unit })
                }
            },
        }
    }
}

/// Reading a rendered size back recovers the magnitude and unit exactly, for
/// every scaled size, so a round trip through the display loses nothing.
pub proof fn lemma_size_round_trip(d: SizeDisplay)
    ensures
        spec_parse_size(spec_render_size(d)) == Some(d),
{
    let t = d.tenths;
    let whole = spec_dec((t / 10) as nat);
    let frac = (t % 10) as int;
    crate::digits::lemma_dec_digits((t / 10) as nat);
    crate::digits::lemma_dec_val_round_trip((t / 10) as nat);
    vstd::arithmetic::div_mod::lemma_fundamental_div_mod(t as int, 10);
    let s = spec_render_size(d);
    if frac == 0 {
        let num = whole;
        assert(s == num + seq![' '] + seq![unit_char(d.unit)]);
        assert(s.len() == num.len() + 2);
        assert(s.last() == unit_char(d.unit));
        assert(char_unit(unit_char(d.unit)) == Some(d.unit));
        assert(s[s.len() - 2] == ' ');
        assert(s.take(s.len() - 2) =~= num);
        let k = num.len() as int;
        if k >= 3 {
            assert(is_digit(num[k - 2]));
            assert(num[k - 2] != '.');
        }
        assert(spec_dec_val(num) * 10 == t);
    } else {
        let num = whole + seq!['.', digit_char(frac)];
        assert(s == num + seq![' '] + seq![unit_char(d.unit)]);
        assert(s.len() == num.len() + 2);
        assert(s.last() == unit_char(d.unit));
        assert(char_unit(unit_char(d.unit)) == Some(d.unit));
        assert(s[s.len() - 2] == ' ');
        assert(s.take(s.len() - 2) =~= num);
        let k = num.len() as int;
        assert(k == whole.len() + 2);
        assert(k >= 3);
        assert(num[k - 2] == '.');
        assert(num.take(k - 2) =~= whole);
        assert(num[k - 1] == digit_char(frac));
        assert(is_digit(digit_char(frac)));
        assert(digit_val(digit_char(frac)) == frac);
        assert(spec_dec_val(whole) * 10 + digit_val(num[k - 1]) == t);
    }
}

} // verus!
