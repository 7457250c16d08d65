//! Reading the text of a range input as a number.
//!
//! The browser hands a slider's value over as text. The dashboard reads it the
//! way `str::parse` reads an integer (`u8::from_str`, `i16::from_str`): an
//! optional sign, then one or more ASCII digits, and nothing else; a value out
//! of the type's range is refused. A refused text counts as zero.
use vstd::prelude::*;
use vstd::string::StringSliceAdditionalSpecFns;

verus! {

/// `b` is an ASCII decimal digit.
pub open spec fn is_digit(b: u8) -> bool {
    48 <= b <= 57
}

/// Every byte of `s` is an ASCII decimal digit.
pub open spec fn all_digits(s: Seq<u8>) -> bool {
    forall|i: int| 0 <= i < s.len() ==> #[trigger] is_digit(s[i])
}

/// The number that the decimal digits `s` denote (most significant first).
pub open spec fn digits_value(s: Seq<u8>) -> nat
    decreases s.len(),
{
    if s.len() == 0 {
        0
    } else {
        digits_value(s.drop_last()) * 10 + (s.last() - 48) as nat
    }
}

/// `s` with one leading `+` removed, if it has one.
pub open spec fn without_plus(s: Seq<u8>) -> Seq<u8> {
    if s.len() > 0 && s[0] == 43u8 {
        s.drop_first()
    } else {
        s
    }
}

/// The digits `d` denote a number of at most `bound`.
pub open spec fn number_within(d: Seq<u8>, bound: nat) -> bool {
    d.len() > 0 && all_digits(d) && digits_value(d) <= bound
}

/// What `u8::from_str` gives for the text whose UTF-8 bytes are `s`:
/// an optional `+`, then at least one digit, with a value of at most 255.
pub open spec fn spec_parse_u8(s: Seq<u8>) -> Option<u8> {
    let d = without_plus(s);
    if number_within(d, 255) {
        Some(digits_value(d) as u8)
    } else {
        None
    }
}

/// What `i16::from_str` gives for the text whose UTF-8 bytes are `s`:
/// an optional `+` or `-`, then at least one digit, with a value in
/// `-32768 ..= 32767`.
pub open spec fn spec_parse_i16(s: Seq<u8>) -> Option<i16> {
    if s.len() > 0 && s[0] == 45u8 {
        let d = s.drop_first();
        if number_within(d, 32768) {
            Some((0 - digits_value(d)) as i16)
        } else {
            None
        }
    } else {
        let d = without_plus(s);
        if number_within(d, 32767) {
            Some(digits_value(d) as i16)
        } else {
            None
        }
    }
}

/// The value a slider's text stands for: its number, or zero when it is no
/// number of the type.
pub open spec fn spec_u8_or_zero(s: Seq<u8>) -> u8 {
    match spec_parse_u8(s) {
        Some(v) => v,
        None => 0,
    }
}

/// As [`spec_u8_or_zero`], for a signed 16-bit value.
pub open spec fn spec_i16_or_zero(s: Seq<u8>) -> i16 {
    match spec_parse_i16(s) {
        Some(v) => v,
        None => 0,
    }
}

/// The decimal digits of `n`, as `to_string` writes them: no sign and no
/// leading zero.
pub open spec fn decimal_digits(n: nat) -> Seq<u8>
    decreases n,
{
    if n < 10 {
        seq![(48 + n) as u8]
    } else {
        decimal_digits(n / 10).push((48 + n % 10) as u8)
    }
}

/// The text `to_string` writes for a signed number: a `-` before the digits of
/// a negative one.
pub open spec fn signed_decimal(n: int) -> Seq<u8> {
    if n < 0 {
        seq![45u8] + decimal_digits((0 - n) as nat)
    } else {
        decimal_digits(n as nat)
    }
}

/// A longer run of digits never denotes a smaller number than its prefix.
proof fn lemma_prefix_value_le(d: Seq<u8>, k: int)
    requires
        all_digits(d),
        0 <= k <= d.len(),
    ensures
        digits_value(d.take(k)) <= digits_value(d),
    decreases d.len(),
{
    if k < d.len() {
        let shorter = d.drop_last();
        assert(all_digits(shorter)) by {
            assert forall|i: int| 0 <= i < shorter.len() implies #[trigger] is_digit(shorter[i]) by {
                assert(is_digit(d[i]));
            }
        }
        lemma_prefix_value_le(shorter, k);
        assert(shorter.take(k) =~= d.take(k));
    } else {
        assert(d.take(k) =~= d);
    }
}

/// The digits that [`decimal_digits`] writes denote the number written.
proof fn lemma_decimal_digits(n: nat)
    ensures
        decimal_digits(n).len() > 0,
        all_digits(decimal_digits(n)),
        digits_value(decimal_digits(n)) == n,
    decreases n,
{
    let d = decimal_digits(n);
    if n < 10 {
        assert(d.drop_last() =~= Seq::<u8>::empty());
        assert(is_digit(d[0]));
        assert(digits_value(d) == digits_value(d.drop_last()) * 10 + (d.last() - 48) as nat);
    } else {
        let q = n / 10;
        lemma_decimal_digits(q);
        let front = decimal_digits(q);
        assert(d.drop_last() =~= front);
        assert(all_digits(d)) by {
            assert forall|i: int| 0 <= i < d.len() implies #[trigger] is_digit(d[i]) by {
                if i < front.len() {
                    assert(is_digit(front[i]));
                }
            }
        }
        assert(q * 10 + n % 10 == n);
        assert(d.last() == (48 + n % 10) as u8);
        assert(digits_value(d) == digits_value(front) * 10 + (d.last() - 48) as nat);
    }
}

/// Reads the bytes of `bytes` from `start` on as a decimal number of at most
/// `bound`; `None` when one of them is no digit or the number is larger.
fn read_digits(bytes: &[u8], start: usize, bound: u32) -> (r: Option<u32>)
    requires
        start <= bytes@.len(),
        bound <= 65535,
    ensures
        ({
            let d = bytes@.subrange(start as int, bytes@.len() as int);
            match r {
                Some(v) => all_digits(d) && digits_value(d) <= bound && v == digits_value(d),
                None => !(all_digits(d) && digits_value(d) <= bound),
            }
        }),
{
    let ghost whole = bytes@.subrange(start as int, bytes@.len() as int);
    let mut acc: u32 = 0;
    let mut i: usize = start;
    assert(bytes@.subrange(start as int, start as int) =~= Seq::<u8>::empty());
    while i < bytes.len()
        invariant
            start <= i <= bytes@.len(),
            bound <= 65535,
            acc <= bound,
            whole == bytes@.subrange(start as int, bytes@.len() as int),
            all_digits(bytes@.subrange(start as int, i as int)),
            acc == digits_value(bytes@.subrange(start as int, i as int)),
        decreases bytes@.len() - i,
    {
        let b = bytes[i];
        if b < 48 || b > 57 {
            assert(whole[i - start] == b);
            assert(!is_digit(whole[i - start]));
            return None;
        }
        let ghost before = bytes@.subrange(start as int, i as int);
        let ghost after = bytes@.subrange(start as int, i + 1);
        assert(after.drop_last() =~= before);
        assert(after.last() == b);
        assert(all_digits(after)) by {
            assert forall|j: int| 0 <= j < after.len() implies #[trigger] is_digit(after[j]) by {
                if j < before.len() {
                    assert(is_digit(before[j]));
                }
            }
        }
        acc = acc * 10 + (b - 48) as u32;
        if acc > bound {
            proof {
                if all_digits(whole) {
                    assert(whole.take(i + 1 - start) =~= after);
                    lemma_prefix_value_le(whole, i + 1 - start);
                }
            }
            return None;
        }
        i = i + 1;
    }
    assert(bytes@.subrange(start as int, i as int) =~= whole);
    Some(acc)
}

/// Reads `text` as `u8::from_str` does.
pub fn parse_u8(text: &str) -> (r: Option<u8>)
    ensures
        r == spec_parse_u8(text.spec_bytes()),
{
    let bytes = text.as_bytes();
    let start: usize = if bytes.len() > 0 && bytes[0] == 43u8 {
        1
    } else {
        0
    };
    assert(without_plus(bytes@) =~= bytes@.subrange(start as int, bytes@.len() as int));
    if start == bytes.len() {
        return None;
    }
    match read_digits(bytes, start, 255) {
        Some(v) => Some(v as u8),
        None => None,
    }
}

/// Reads `text` as `i16::from_str` does.
pub fn parse_i16(text: &str) -> (r: Option<i16>)
    ensures
        r == spec_parse_i16(text.spec_bytes()),
{
    let bytes = text.as_bytes();
    let negative = bytes.len() > 0 && bytes[0] == 45u8;
    let start: usize = if bytes.len() > 0 && (bytes[0] == 43u8 || bytes[0] == 45u8) {
        1
    } else {
        0
    };
    assert(negative ==> bytes@.drop_first() =~= bytes@.subrange(1, bytes@.len() as int));
    assert(!negative ==> without_plus(bytes@) =~= bytes@.subrange(
        start as int,
        bytes@.len() as int,
    ));
    if start == bytes.len() {
        return None;
    }
    let bound: u32 = if negative {
        32768
    } else {
        32767
    };
    match read_digits(bytes, start, bound) {
        Some(v) => {
            if negative {
                Some((0 - (v as i32)) as i16)
            } else {
                Some(v as i16)
            }
        },
        None => None,
    }
}

/// The contraction a controller slider's text sets: its number, or zero when
/// the text is no `u8` (`parse::<u8>().unwrap_or(0)`).
pub fn slider_value(text: &str) -> (v: u8)
    ensures
        v == spec_u8_or_zero(text.spec_bytes()),
{
    match parse_u8(text) {
        Some(v) => v,
        None => 0,
    }
}

/// The rotation the rotation slider's text sets: its number, or zero when the
/// text is no `i16` (`parse::<i16>().unwrap_or(0)`).
pub fn rotation_value(text: &str) -> (v: i16)
    ensures
        v == spec_i16_or_zero(text.spec_bytes()),
{
    match parse_i16(text) {
        Some(v) => v,
        None => 0,
    }
}

/// Every `u8`, written in decimal as `to_string` writes it, reads back as
/// itself.
pub proof fn law_u8_text_round_trip(n: u8)
    ensures
        spec_parse_u8(decimal_digits(n as nat)) == Some(n),
{
    let d = decimal_digits(n as nat);
    lemma_decimal_digits(n as nat);
    assert(is_digit(d[0]));
    assert(without_plus(d) == d);
}

/// Every `i16`, written in decimal as `to_string` writes it, reads back as
/// itself.
pub proof fn law_i16_text_round_trip(n: i16)
    ensures
        spec_parse_i16(signed_decimal(n as int)) == Some(n),
{
    let s = signed_decimal(n as int);
    if n < 0 {
        let m = (0 - n) as nat;
        lemma_decimal_digits(m);
        let d = decimal_digits(m);
        assert(s[0] == 45u8);
        assert(s.drop_first() =~= d);
    } else {
        lemma_decimal_digits(n as nat);
        assert(is_digit(s[0]));
        assert(without_plus(s) == s);
    }
}

/// The slider value of a text is the number the text reads as, and zero
/// exactly when the text reads as no number: reading never alters a number.
pub proof fn law_slider_value_is_read_number(s: Seq<u8>)
    ensures
        spec_parse_u8(s) matches Some(v) ==> spec_u8_or_zero(s) == v,
        spec_parse_u8(s) is None ==> spec_u8_or_zero(s) == 0,
        spec_parse_i16(s) matches Some(v) ==> spec_i16_or_zero(s) == v,
        spec_parse_i16(s) is None ==> spec_i16_or_zero(s) == 0,
{
}

/// A slider set to any `u8` hands over that number's decimal text, and the
/// contraction it sets is that very number.
pub proof fn law_slider_value_of_decimal_text(n: u8)
    ensures
        spec_u8_or_zero(decimal_digits(n as nat)) == n,
{
    law_u8_text_round_trip(n);
}

/// A rotation slider set to any `i16` hands over that number's decimal text
/// (with `-` when negative), and the rotation it sets is that very number.
pub proof fn law_rotation_value_of_decimal_text(n: i16)
    ensures
        spec_i16_or_zero(signed_decimal(n as int)) == n,
{
    law_i16_text_round_trip(n);
}

/// Empty text, text with a byte other than a digit anywhere after its first,
/// and text whose first byte is neither a digit nor `+` read as no `u8`; the
/// same holds for `i16`, where a first `-` is also allowed.
pub proof fn law_parse_refuses(s: Seq<u8>, i: int)
    ensures
        s.len() == 0 ==> spec_parse_u8(s) is None && spec_parse_i16(s) is None,
        0 < i < s.len() && !is_digit(s[i]) ==> spec_parse_u8(s) is None && spec_parse_i16(s) is None,
        s.len() > 0 && !is_digit(s[0]) && s[0] != 43u8 ==> spec_parse_u8(s) is None,
        s.len() > 0 && !is_digit(s[0]) && s[0] != 43u8 && s[0] != 45u8 ==> spec_parse_i16(s) is None,
{
    if 0 < i < s.len() && !is_digit(s[i]) {
        if s[0] == 43u8 || s[0] == 45u8 {
            assert(s.drop_first()[i - 1] == s[i]);
        }
    }
    if s.len() > 0 && !is_digit(s[0]) && s[0] != 43u8 {
        assert(without_plus(s) == s);
        assert(!is_digit(without_plus(s)[0]));
    }
}

/// A leading zero does not change what a run of digits denotes.
proof fn lemma_leading_zero(d: Seq<u8>)
    ensures
        digits_value(seq![48u8] + d) == digits_value(d),
    decreases d.len(),
{
    let z = seq![48u8] + d;
    if d.len() == 0 {
        assert(z.drop_last() =~= Seq::<u8>::empty());
        assert(z.last() == 48u8);
        assert(digits_value(z) == digits_value(z.drop_last()) * 10 + (z.last() - 48) as nat);
    } else {
        lemma_leading_zero(d.drop_last());
        assert(z.drop_last() =~= seq![48u8] + d.drop_last());
        assert(z.last() == d.last());
        assert(digits_value(z) == digits_value(z.drop_last()) * 10 + (z.last() - 48) as nat);
        assert(digits_value(d) == digits_value(d.drop_last()) * 10 + (d.last() - 48) as nat);
    }
}

/// Writing a zero before the digits of a number does not change the number
/// that is read.
pub proof fn law_leading_zero_keeps_value(d: Seq<u8>)
    requires
        d.len() > 0,
        all_digits(d),
    ensures
        spec_parse_u8(seq![48u8] + d) == spec_parse_u8(d),
        spec_parse_i16(seq![48u8] + d) == spec_parse_i16(d),
{
    let z = seq![48u8] + d;
    lemma_leading_zero(d);
    assert(is_digit(d[0]));
    assert(without_plus(d) == d);
    assert(without_plus(z) == z);
    assert(all_digits(z)) by {
        assert forall|j: int| 0 <= j < z.len() implies #[trigger] is_digit(z[j]) by {
            if j > 0 {
                assert(z[j] == d[j - 1]);
            }
        }
    }
}

} // verus!
