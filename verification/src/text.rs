//! Lexical helpers: splitting a header line into fields and reading decimal
//! numerals.

use vstd::prelude::*;

verus! {

/// The two characters that end a field of a header line.
pub open spec fn is_separator(c: char) -> bool {
    c == ' ' || c == ','
}

/// Position of the first separator of `s`, or `s.len()` where it has none.
pub open spec fn first_separator(s: Seq<char>) -> int
    decreases s.len(),
{
    if s.len() == 0 || is_separator(s[0]) {
        0
    } else {
        1 + first_separator(s.drop_first())
    }
}

/// The fields of `s`: the runs between separators, empty runs included. A
/// text without separators is its own single field.
pub open spec fn fields_of(s: Seq<char>) -> Seq<Seq<char>>
    decreases s.len(),
{
    let k = first_separator(s);
    if 0 <= k < s.len() {
        seq![s.subrange(0, k)] + fields_of(s.subrange(k + 1, s.len() as int))
    } else {
        seq![s]
    }
}

/// The character sequences held by a vector of fields.
pub open spec fn views_of(fields: Seq<Vec<char>>) -> Seq<Seq<char>> {
    Seq::new(fields.len(), |i: int| fields[i]@)
}

/// Whether `c` is one of the ten decimal digits.
pub open spec fn is_digit(c: char) -> bool {
    '0' <= c <= '9'
}

/// The number that a decimal digit denotes.
pub open spec fn digit_value(c: char) -> int {
    c as int - '0' as int
}

/// Whether `s` holds decimal digits only.
pub open spec fn all_digits(s: Seq<char>) -> bool {
    forall|i: int| 0 <= i < s.len() ==> is_digit(#[trigger] s[i])
}

/// The number that a run of decimal digits denotes, most significant digit
/// first; the empty run denotes 0.
pub open spec fn digits_value(s: Seq<char>) -> int
    decreases s.len(),
{
    if s.len() == 0 {
        0
    } else {
        digits_value(s.drop_last()) * 10 + digit_value(s.last())
    }
}

/// An unsigned decimal numeral: an optional `+`, then one or more digits,
/// nothing else, and a value that fits 32 bits.
pub open spec fn decimal_u32(s: Seq<char>) -> Option<u32> {
    let digits = if s.len() > 0 && s[0] == '+' {
        s.skip(1)
    } else {
        s
    };
    if digits.len() > 0 && all_digits(digits) && digits_value(digits) <= u32::MAX {
        Some(digits_value(digits) as u32)
    } else {
        None
    }
}

/// A signed decimal numeral: an optional `+` or `-`, then one or more
/// digits, nothing else, and a value that fits 32 bits.
pub open spec fn decimal_i32(s: Seq<char>) -> Option<i32> {
    let negative = s.len() > 0 && s[0] == '-';
    let digits = if s.len() > 0 && (s[0] == '+' || s[0] == '-') {
        s.skip(1)
    } else {
        s
    };
    let value = if negative {
        -digits_value(digits)
    } else {
        digits_value(digits)
    };
    if digits.len() > 0 && all_digits(digits) && i32::MIN <= value <= i32::MAX {
        Some(value as i32)
    } else {
        None
    }
}

/// A text whose first `k` characters are no separators, and which ends or
/// has a separator there, has its first separator at `k`.
pub proof fn lemma_first_separator(s: Seq<char>, k: int)
    requires
        0 <= k <= s.len(),
        forall|j: int| 0 <= j < k ==> !is_separator(#[trigger] s[j]),
        k == s.len() || is_separator(s[k]),
    ensures
        first_separator(s) == k,
    decreases k,
{
    if k > 0 {
        let rest = s.drop_first();
        assert forall|j: int| 0 <= j < k - 1 implies !is_separator(#[trigger] rest[j]) by {
            assert(rest[j] == s[j + 1]);
        }
        lemma_first_separator(rest, k - 1);
    }
}

/// A run of digits denotes at least what any of its prefixes denotes.
pub proof fn lemma_digits_value_prefix(s: Seq<char>, k: int)
    requires
        all_digits(s),
        0 <= k <= s.len(),
    ensures
        0 <= digits_value(s.take(k)) <= digits_value(s),
    decreases s.len() - k,
{
    lemma_digits_value_nonnegative(s.take(k));
    if k < s.len() {
        lemma_digits_value_prefix(s, k + 1);
        assert(s.take(k + 1).drop_last() == s.take(k));
        assert(is_digit(s[k]));
        assert(s.take(k + 1).last() == s[k]);
    } else {
        assert(s.take(k) == s);
    }
}

/// A run of digits denotes no negative number.
pub proof fn lemma_digits_value_nonnegative(s: Seq<char>)
    requires
        all_digits(s),
    ensures
        0 <= digits_value(s),
    decreases s.len(),
{
    if s.len() > 0 {
        assert(is_digit(s.last()));
        lemma_digits_value_nonnegative(s.drop_last());
    }
}

/// Whether `s` holds no separator.
pub open spec fn no_separator(s: Seq<char>) -> bool {
    forall|i: int| 0 <= i < s.len() ==> !is_separator(#[trigger] s[i])
}

/// A text without separators is one field.
pub proof fn lemma_fields_of_single(s: Seq<char>)
    requires
        no_separator(s),
    ensures
        fields_of(s) == seq![s],
{
    lemma_first_separator(s, s.len() as int);
}

/// A text that starts with a field and a separator has that field first,
/// and then the fields of what follows the separator.
pub proof fn lemma_fields_of_joined(head: Seq<char>, separator: char, rest: Seq<char>)
    requires
        no_separator(head),
        is_separator(separator),
    ensures
        fields_of(head + seq![separator] + rest) == seq![head] + fields_of(rest),
{
    let s = head + seq![separator] + rest;
    let k = head.len() as int;
    assert forall|j: int| 0 <= j < k implies !is_separator(#[trigger] s[j]) by {
        assert(s[j] == head[j]);
    }
    assert(s[k] == separator);
    lemma_first_separator(s, k);
    assert(s.subrange(0, k) == head);
    assert(s.subrange(k + 1, s.len() as int) == rest);
}

/// The character of a decimal digit.
pub open spec fn digit_char(digit: int) -> char {
    if digit == 0 {
        '0'
    } else if digit == 1 {
        '1'
    } else if digit == 2 {
        '2'
    } else if digit == 3 {
        '3'
    } else if digit == 4 {
        '4'
    } else if digit == 5 {
        '5'
    } else if digit == 6 {
        '6'
    } else if digit == 7 {
        '7'
    } else if digit == 8 {
        '8'
    } else {
        '9'
    }
}

/// The decimal numeral of `n`, without sign or leading zeros.
pub open spec fn numeral(n: nat) -> Seq<char>
    decreases n,
{
    if n < 10 {
        seq![digit_char(n as int)]
    } else {
        numeral(n / 10).push(digit_char((n % 10) as int))
    }
}

/// The decimal numeral of `v`, with a `-` where `v` is negative.
pub open spec fn signed_numeral(v: int) -> Seq<char> {
    if v < 0 {
        seq!['-'] + numeral((-v) as nat)
    } else {
        numeral(v as nat)
    }
}

/// A numeral is a non-empty run of digits that denotes its number.
pub proof fn lemma_numeral(n: nat)
    ensures
        numeral(n).len() > 0,
        all_digits(numeral(n)),
        no_separator(numeral(n)),
        digits_value(numeral(n)) == n,
    decreases n,
{
    if n < 10 {
        assert(numeral(n).drop_last() == Seq::<char>::empty());
        assert(digits_value(numeral(n).drop_last()) == 0);
    } else {
        lemma_numeral(n / 10);
        let shorter = numeral(n / 10);
        let digit = digit_char((n % 10) as int);
        assert(numeral(n).drop_last() == shorter);
        assert(numeral(n).last() == digit);
        assert forall|i: int| 0 <= i < numeral(n).len() implies is_digit(
            #[trigger] numeral(n)[i],
        ) && !is_separator(numeral(n)[i]) by {
            if i < shorter.len() {
                assert(numeral(n)[i] == shorter[i]);
            }
        }
    }
}

/// Reading the numeral of a number gives the number back.
pub proof fn lemma_decimal_u32_of_numeral(n: nat)
    requires
        n <= u32::MAX,
    ensures
        decimal_u32(numeral(n)) == Some(n as u32),
{
    lemma_numeral(n);
    assert(is_digit(numeral(n)[0]));
}

/// Reading the signed numeral of a number gives the number back.
pub proof fn lemma_decimal_i32_of_numeral(v: int)
    requires
        i32::MIN <= v <= i32::MAX,
    ensures
        decimal_i32(signed_numeral(v)) == Some(v as i32),
        no_separator(signed_numeral(v)),
{
    if v < 0 {
        let digits = numeral((-v) as nat);
        lemma_numeral((-v) as nat);
        assert(signed_numeral(v).skip(1) == digits);
        assert forall|i: int| 0 <= i < signed_numeral(v).len() implies !is_separator(
            #[trigger] signed_numeral(v)[i],
        ) by {
            if i > 0 {
                assert(signed_numeral(v)[i] == digits[i - 1]);
            }
        }
    } else {
        lemma_numeral(v as nat);
        assert(is_digit(numeral(v as nat)[0]));
    }
}

/// The characters of `text`, in order.
pub fn chars_of(text: &str) -> (chars: Vec<char>)
    ensures
        chars@ == text@,
{
    let mut chars: Vec<char> = Vec::new();
    for c in iter: text.chars()
        invariant
            chars@ == iter.seq().take(iter.index() as int),
            iter.seq() == text@,
    {
        chars.push(c);
    }
    chars
}

/// Splits `text` at every space and comma.
pub fn split_fields(text: &str) -> (fields: Vec<Vec<char>>)
    ensures
        views_of(fields@) == fields_of(text@),
{
    let chars = chars_of(text);
    let mut fields: Vec<Vec<char>> = Vec::new();
    let mut current: Vec<char> = Vec::new();
    let mut i: usize = 0;
    let ghost mut start: int = 0;
    proof {
        assert(chars@.subrange(0, chars@.len() as int) == chars@);
        assert(views_of(fields@) + fields_of(chars@) == fields_of(chars@));
    }
    while i < chars.len()
        invariant
            0 <= start <= i <= chars.len(),
            chars@ == text@,
            current@ == chars@.subrange(start, i as int),
            forall|k: int| start <= k < i ==> !is_separator(#[trigger] chars@[k]),
            fields_of(chars@) == views_of(fields@) + fields_of(
                chars@.subrange(start, chars@.len() as int),
            ),
        decreases chars.len() - i,
    {
        let c = chars[i];
        if c == ' ' || c == ',' {
            proof {
                let tail = chars@.subrange(start, chars@.len() as int);
                lemma_first_separator(tail, i - start);
                assert(tail.subrange(0, i - start) == current@);
                assert(tail.subrange(i - start + 1, tail.len() as int) == chars@.subrange(
                    i + 1,
                    chars@.len() as int,
                ));
                assert(views_of(fields@.push(current)) == views_of(fields@) + seq![current@]);
                start = i + 1;
            }
            fields.push(current);
            current = Vec::new();
        } else {
            current.push(c);
        }
        i += 1;
    }
    proof {
        let tail = chars@.subrange(start, chars@.len() as int);
        lemma_first_separator(tail, tail.len() as int);
        assert(tail == current@);
        assert(views_of(fields@.push(current)) == views_of(fields@) + seq![current@]);
    }
    fields.push(current);
    fields
}

/// Reads the digits of `token` from position `from` on, as a number that
/// does not exceed `limit`.
fn parse_digits(token: &Vec<char>, from: usize, limit: u64) -> (value: Option<u64>)
    requires
        from <= token.len(),
        limit <= 0x1_0000_0000,
    ensures
        value == ({
            let digits = token@.skip(from as int);
            if digits.len() > 0 && all_digits(digits) && digits_value(digits) <= limit {
                Some(digits_value(digits) as u64)
            } else {
                None
            }
        }),
{
    let ghost digits = token@.skip(from as int);
    if from == token.len() {
        return None;
    }
    let mut value: u64 = 0;
    let mut i: usize = from;
    while i < token.len()
        invariant
            from <= i <= token.len(),
            limit <= 0x1_0000_0000,
            digits == token@.skip(from as int),
            all_digits(digits.take(i - from)),
            value == digits_value(digits.take(i - from)),
            value <= limit,
        decreases token.len() - i,
    {
        let c = token[i];
        if !(c >= '0' && c <= '9') {
            assert(!is_digit(digits[i - from]));
            return None;
        }
        let digit: u64 = (c as u32 - '0' as u32) as u64;
        proof {
            let next = digits.take(i - from + 1);
            assert(next.drop_last() == digits.take(i - from));
            assert(next.last() == c);
            assert forall|k: int| 0 <= k < next.len() implies is_digit(#[trigger] next[k]) by {
                if k < i - from {
                    assert(digits.take(i - from)[k] == next[k]);
                }
            }
            if all_digits(digits) {
                lemma_digits_value_prefix(digits, i - from + 1);
            }
        }
        if value * 10 + digit > limit {
            return None;
        }
        value = value * 10 + digit;
        i += 1;
    }
    assert(digits.take(i - from) == digits);
    Some(value)
}

/// Reads an unsigned decimal numeral.
pub fn parse_u32(token: &Vec<char>) -> (value: Option<u32>)
    ensures
        value == decimal_u32(token@),
{
    let from: usize = if token.len() > 0 && token[0] == '+' {
        1
    } else {
        0
    };
    proof {
        assert(token@.skip(0) == token@);
        if all_digits(token@.skip(from as int)) {
            lemma_digits_value_nonnegative(token@.skip(from as int));
        }
    }
    match parse_digits(token, from, 0xffff_ffff) {
        Some(v) => Some(v as u32),
        None => None,
    }
}

/// Reads a signed decimal numeral.
pub fn parse_i32(token: &Vec<char>) -> (value: Option<i32>)
    ensures
        value == decimal_i32(token@),
{
    let negative = token.len() > 0 && token[0] == '-';
    let from: usize = if token.len() > 0 && (token[0] == '+' || token[0] == '-') {
        1
    } else {
        0
    };
    proof {
        assert(token@.skip(0) == token@);
        if all_digits(token@.skip(from as int)) {
            lemma_digits_value_nonnegative(token@.skip(from as int));
        }
    }
    if negative {
        match parse_digits(token, from, 0x8000_0000) {
            Some(v) => Some((0 - v as i64) as i32),
            None => None,
        }
    } else {
        match parse_digits(token, from, 0x7fff_ffff) {
            Some(v) => Some(v as i32),
            None => None,
        }
    }
}

} // verus!
