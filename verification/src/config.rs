//! Settings read from the environment: the secret key mixed into password hashes and the
//! cost parameters of password hashing, each with its default.
use vstd::prelude::*;

verus! {

/// Hashing iterations where none (or no valid number) is configured.
pub const DEFAULT_HASHING_ITERATIONS: u32 = 192;

/// Hashing memory size (in kibibytes) where none (or no valid number) is configured.
pub const DEFAULT_HASHING_MEMORY_SIZE: u32 = 4096;

/// One of `0-9`.
pub open spec fn is_ascii_digit(c: char) -> bool {
    '0' <= c && c <= '9'
}

/// The number that a string of decimal digits denotes.
pub open spec fn decimal_value(digits: Seq<char>) -> int
    decreases digits.len(),
{
    if digits.len() == 0 {
        0
    } else {
        decimal_value(digits.drop_last()) * 10 + (digits.last() as int - '0' as int)
    }
}

/// The digits of an unsigned number as written, without its optional leading `+`.
pub open spec fn unsigned_digits(text: Seq<char>) -> Seq<char> {
    if text.len() > 0 && text[0] == '+' {
        text.drop_first()
    } else {
        text
    }
}

/// What std's `u32::from_str` accepts: an optional `+`, then one or more decimal digits
/// denoting a number that fits in a `u32`. No other character, not even a space.
pub open spec fn parse_u32_spec(text: Seq<char>) -> Option<u32> {
    let digits = unsigned_digits(text);
    if digits.len() > 0 && (forall|i: int| 0 <= i < digits.len() ==> is_ascii_digit(#[trigger] digits[i]))
        && decimal_value(digits) <= u32::MAX {
        Some(decimal_value(digits) as u32)
    } else {
        None
    }
}

/// A numeric setting: the configured text where it is a valid `u32`, else the default.
pub open spec fn u32_setting_spec(value: Option<Seq<char>>, default: u32) -> u32 {
    match value {
        Some(text) => match parse_u32_spec(text) {
            Some(n) => n,
            None => default,
        },
        None => default,
    }
}

/// The secret key where none is configured: `0123` eight times over.
pub open spec fn default_secret_key() -> Seq<char> {
    Seq::new(32, |i: int| (48 + i % 4) as char)
}

/// A string of digits is worth at least as much as any prefix of it, and never less than 0.
proof fn lemma_decimal_value_prefix(digits: Seq<char>, k: int)
    requires
        0 <= k <= digits.len(),
        forall|i: int| 0 <= i < digits.len() ==> is_ascii_digit(#[trigger] digits[i]),
    ensures
        0 <= decimal_value(digits.subrange(0, k)) <= decimal_value(digits),
    decreases digits.len(),
{
    if digits.len() > 0 {
        let shorter = digits.drop_last();
        if k < digits.len() {
            lemma_decimal_value_prefix(shorter, k);
            assert(shorter.subrange(0, k) =~= digits.subrange(0, k));
        } else {
            lemma_decimal_value_prefix(shorter, shorter.len() as int);
            assert(shorter.subrange(0, shorter.len() as int) =~= shorter);
            assert(digits.subrange(0, k) =~= digits);
        }
    } else {
        assert(digits.subrange(0, k) =~= digits);
    }
}

/// Parses `text` as std's `u32::from_str` does: an optional `+`, then decimal digits
/// whose value fits in a `u32`.
pub fn parse_u32(text: &str) -> (value: Option<u32>)
    ensures
        value == parse_u32_spec(text@),
{
    let len = text.unicode_len();
    let start: usize = if len > 0 && text.get_char(0) == '+' {
        1
    } else {
        0
    };
    let ghost digits = unsigned_digits(text@);
    assert(digits =~= text@.subrange(start as int, len as int));
    if start >= len {
        return None;
    }
    let mut acc: u64 = 0;
    let mut j: usize = start;
    while j < len
        invariant
            start <= j <= len,
            len == text@.len(),
            digits == text@.subrange(start as int, len as int),
            digits == unsigned_digits(text@),
            forall|i: int| start <= i < j ==> is_ascii_digit(#[trigger] text@[i]),
            acc == decimal_value(text@.subrange(start as int, j as int)),
            acc <= u32::MAX,
        decreases len - j,
    {
        let c = text.get_char(j);
        if !('0' <= c && c <= '9') {
            assert(!is_ascii_digit(digits[j - start]));
            return None;
        }
        let d = (c as u32 - '0' as u32) as u64;
        let ghost prefix = text@.subrange(start as int, j + 1);
        assert(prefix.drop_last() =~= text@.subrange(start as int, j as int));
        assert(prefix.last() == c);
        let next = acc * 10 + d;
        assert(next == decimal_value(prefix));
        if next > u32::MAX as u64 {
            proof {
                if forall|i: int| 0 <= i < digits.len() ==> is_ascii_digit(#[trigger] digits[i]) {
                    lemma_decimal_value_prefix(digits, (j + 1 - start) as int);
                    assert(digits.subrange(0, (j + 1 - start) as int) =~= prefix);
                }
            }
            return None;
        }
        acc = next;
        j = j + 1;
    }
    assert(text@.subrange(start as int, j as int) =~= digits);
    assert forall|i: int| 0 <= i < digits.len() implies is_ascii_digit(#[trigger] digits[i]) by {
        assert(digits[i] == text@[start + i]);
    }
    Some(acc as u32)
}

/// A numeric setting: `value` where it parses as a `u32`, else `default`.
pub fn u32_setting(value: Option<String>, default: u32) -> (setting: u32)
    ensures
        setting == u32_setting_spec(
            match value {
                Some(text) => Some(text@),
                None => None,
            },
            default,
        ),
        (value is None) ==> setting == default,
        (value is Some) && (parse_u32_spec(value->Some_0@) is Some) ==> setting == parse_u32_spec(value->Some_0@)->Some_0,
        (value is Some) && (parse_u32_spec(value->Some_0@) is None) ==> setting == default,
{
    match value {
        Some(text) => match parse_u32(text.as_str()) {
            Some(n) => n,
            None => default,
        },
        None => default,
    }
}

/// The number of password hashing iterations: the configured value where it parses as
/// a `u32`, else 192.
pub fn hashing_iterations(value: Option<String>) -> (iterations: u32)
    ensures
        iterations == u32_setting_spec(
            match value {
                Some(text) => Some(text@),
                None => None,
            },
            DEFAULT_HASHING_ITERATIONS,
        ),
        (value is None) ==> iterations == DEFAULT_HASHING_ITERATIONS,
        (value is Some) && (parse_u32_spec(value->Some_0@) is Some) ==> iterations == parse_u32_spec(value->Some_0@)->Some_0,
        (value is Some) && (parse_u32_spec(value->Some_0@) is None) ==> iterations == DEFAULT_HASHING_ITERATIONS,
{
    u32_setting(value, DEFAULT_HASHING_ITERATIONS)
}

/// The memory size of password hashing: the configured value where it parses as a
/// `u32`, else 4096.
pub fn hashing_memory_size(value: Option<String>) -> (memory_size: u32)
    ensures
        memory_size == u32_setting_spec(
            match value {
                Some(text) => Some(text@),
                None => None,
            },
            DEFAULT_HASHING_MEMORY_SIZE,
        ),
        (value is None) ==> memory_size == DEFAULT_HASHING_MEMORY_SIZE,
        (value is Some) && (parse_u32_spec(value->Some_0@) is Some) ==> memory_size == parse_u32_spec(value->Some_0@)->Some_0,
        (value is Some) && (parse_u32_spec(value->Some_0@) is None) ==> memory_size == DEFAULT_HASHING_MEMORY_SIZE,
{
    u32_setting(value, DEFAULT_HASHING_MEMORY_SIZE)
}

/// The secret key: the configured one, else `0123` repeated eight times.
pub fn secret_key(value: Option<String>) -> (key: String)
    ensures
        match value {
            Some(text) => key == text,
            None => key@ == default_secret_key(),
        },
        (value is None) ==> key@.len() == 32,
        (value is None) ==> forall|i: int| 0 <= i < 32 ==> #[trigger] key@[i] == seq!['0', '1', '2', '3'][i % 4],
{
    match value {
        Some(text) => text,
        None => {
            let mut key = String::new();
            let mut k: usize = 0;
            proof {
                reveal_strlit("0123");
            }
            while k < 8
                invariant
                    k <= 8,
                    key@ =~= Seq::new((4 * k) as nat, |i: int| (48 + i % 4) as char),
                    "0123"@ =~= seq!['0', '1', '2', '3'],
                decreases 8 - k,
            {
                key.append("0123");
                k = k + 1;
            }
            key
        },
    }
}

// ---------------------------------------------------------------------------
// Laws of settings.

/// A configured text that parses as a `u32` is the setting, whatever the default; the
/// default is taken only where the text is absent or does not parse.
pub proof fn lemma_setting_is_the_parsed_value(text: Seq<char>, default: u32, other_default: u32)
    ensures
        parse_u32_spec(text) is Some ==> u32_setting_spec(Some(text), default) == parse_u32_spec(text)->Some_0,
        parse_u32_spec(text) is Some ==> u32_setting_spec(Some(text), default)
            == u32_setting_spec(Some(text), other_default),
        parse_u32_spec(text) is None ==> u32_setting_spec(Some(text), default) == default,
        u32_setting_spec(None, default) == default,
{
}

/// How numbers are read, digit by digit: a single digit is its own value; appending a
/// digit to a number multiplies it by ten and adds the digit, as long as the result fits;
/// a number that would not fit, or any character that is not a digit, does not parse; a
/// single leading `+` changes nothing, and `+` alone or nothing at all does not parse.
pub proof fn lemma_parse_u32_digit_by_digit(text: Seq<char>, c: char, n: u32)
    ensures
        is_ascii_digit(c) ==> parse_u32_spec(seq![c]) == Some((c as int - '0' as int) as u32),
        parse_u32_spec(text) == Some(n) && is_ascii_digit(c) && n * 10 + (c as int - '0' as int) <= u32::MAX
            ==> parse_u32_spec(text.push(c)) == Some((n * 10 + (c as int - '0' as int)) as u32),
        parse_u32_spec(text) == Some(n) && is_ascii_digit(c) && n * 10 + (c as int - '0' as int) > u32::MAX
            ==> parse_u32_spec(text.push(c)) is None,
        text.len() > 0 && !is_ascii_digit(c) && c != '+' ==> parse_u32_spec(text.push(c)) is None,
        text.len() > 0 && text[0] != '+' ==> parse_u32_spec(seq!['+'] + text) == parse_u32_spec(text),
        parse_u32_spec(seq!['+']) is None,
        parse_u32_spec(Seq::<char>::empty()) is None,
{
    let pushed = text.push(c);
    if text.len() > 0 {
        assert(unsigned_digits(pushed) =~= unsigned_digits(text).push(c));
        assert(unsigned_digits(pushed).drop_last() =~= unsigned_digits(text));
        let ds = unsigned_digits(pushed);
        if !is_ascii_digit(c) {
            assert(!is_ascii_digit(ds[ds.len() - 1]));
        }
        if parse_u32_spec(text) == Some(n) && is_ascii_digit(c) {
            assert forall|i: int| 0 <= i < ds.len() implies is_ascii_digit(#[trigger] ds[i]) by {
                if i < ds.len() - 1 {
                    assert(ds[i] == unsigned_digits(text)[i]);
                }
            }
            assert(ds.last() == c);
            lemma_decimal_value_prefix(unsigned_digits(text), 0);
            assert(unsigned_digits(text).subrange(0, 0) =~= Seq::<char>::empty());
            assert(decimal_value(unsigned_digits(text)) == n as int);
            assert(decimal_value(ds) == decimal_value(unsigned_digits(text)) * 10 + (c as int - '0' as int));
        }
        if text[0] != '+' {
            let plus = seq!['+'] + text;
            assert(plus.drop_first() =~= text);
            assert(unsigned_digits(plus) =~= text);
            assert(unsigned_digits(text) =~= text);
        }
    }
    let single = seq![c];
    assert(single.drop_last() =~= Seq::<char>::empty());
    if is_ascii_digit(c) {
        assert(unsigned_digits(single) =~= single);
        assert(single.last() == c);
        assert(decimal_value(Seq::<char>::empty()) == 0);
        assert(decimal_value(single) == c as int - '0' as int);
        assert(is_ascii_digit(single[0]));
    }
    assert(seq!['+'].drop_first() =~= Seq::<char>::empty());
}

} // verus!
