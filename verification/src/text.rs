//! Text primitives: equality of string slices and the typed parsers that turn
//! the text of an environment variable into a value.

use vstd::prelude::*;
use vstd::string::StringSliceAdditionalSpecFns;

verus! {

/// A decimal digit, `0` to `9`. Digits of other scripts do not count.
pub open spec fn is_digit(c: char) -> bool {
    '0' <= c <= '9'
}

/// The number that a decimal digit stands for.
pub open spec fn digit_value(c: char) -> nat {
    (c as int - '0' as int) as nat
}

/// Every character of `s` is a decimal digit.
pub open spec fn all_digits(s: Seq<char>) -> bool {
    forall|i: int| 0 <= i < s.len() ==> is_digit(#[trigger] s[i])
}

/// The number written by a run of decimal digits, most significant first.
pub open spec fn decimal_value(s: Seq<char>) -> nat
    decreases s.len(),
{
    if s.len() == 0 {
        0
    } else {
        decimal_value(s.drop_last()) * 10 + digit_value(s.last())
    }
}

/// The text without its sign: one leading `+` is allowed and dropped.
pub open spec fn unsigned_digits(s: Seq<char>) -> Seq<char> {
    if s.len() > 0 && s[0] == '+' {
        s.skip(1)
    } else {
        s
    }
}

/// The number that a text denotes as an unsigned base-10 integer of any size:
/// an optional `+` followed by one or more decimal digits and nothing else.
pub open spec fn unsigned_value(s: Seq<char>) -> Option<nat> {
    let digits = unsigned_digits(s);
    if digits.len() > 0 && all_digits(digits) {
        Some(decimal_value(digits))
    } else {
        None
    }
}

/// The number that a text denotes, if it denotes one that is at most `max`.
pub open spec fn bounded_value(s: Seq<char>, max: nat) -> Option<nat> {
    match unsigned_value(s) {
        Some(v) => if v <= max {
            Some(v)
        } else {
            None
        },
        None => None,
    }
}

/// What a text denotes as a truth value: exactly `true` or `false`.
pub open spec fn bool_value(s: Seq<char>) -> Option<bool> {
    if s == "true"@ {
        Some(true)
    } else if s == "false"@ {
        Some(false)
    } else {
        None
    }
}

/// The tokens of a truth value, `true` first.
pub open spec fn truth_tokens() -> Seq<Seq<char>> {
    seq!["true"@, "false"@]
}

/// A text is a truth value exactly when it is one of the two tokens, and
/// `true` is the token at position 0.
pub proof fn lemma_truth_tokens(text: Seq<char>)
    ensures
        bool_value(text) is Some <==> first_index(truth_tokens(), text) is Some,
        bool_value(text) == Some(true) <==> first_index(truth_tokens(), text) == Some(0int),
{
    lemma_first_index(truth_tokens(), text);
    assert(truth_tokens()[0] == "true"@);
    assert(truth_tokens()[1] == "false"@);
}

/// The characters of each string of a list.
pub open spec fn texts(strings: Seq<String>) -> Seq<Seq<char>> {
    Seq::new(strings.len(), |i: int| strings[i]@)
}

/// The position of the first text of a list that equals `item`.
pub open spec fn first_index(items: Seq<Seq<char>>, item: Seq<char>) -> Option<int>
    decreases items.len(),
{
    if items.len() == 0 {
        None
    } else {
        match first_index(items.drop_last(), item) {
            Some(i) => Some(i),
            None => if items.last() == item {
                Some(items.len() - 1)
            } else {
                None
            },
        }
    }
}

/// No text occurs twice in the list.
pub open spec fn all_distinct(items: Seq<Seq<char>>) -> bool {
    forall|i: int, j: int| 0 <= i < j < items.len() ==> items[i] != items[j]
}

/// `first_index` gives the least position at which the text stands, and
/// none exactly when the text stands nowhere.
pub proof fn lemma_first_index(items: Seq<Seq<char>>, item: Seq<char>)
    ensures
        match first_index(items, item) {
            Some(i) => 0 <= i < items.len() && items[i] == item && forall|j: int|
                0 <= j < i ==> items[j] != item,
            None => forall|j: int| 0 <= j < items.len() ==> items[j] != item,
        },
    decreases items.len(),
{
    if items.len() > 0 {
        lemma_first_index(items.drop_last(), item);
        assert forall|j: int| 0 <= j < items.len() - 1 implies items.drop_last()[j]
            == items[j] by {}
    }
}

/// A text that the first `i` items lack and the item at `i` equals is first
/// found at `i`.
pub proof fn lemma_first_index_found(items: Seq<Seq<char>>, i: int, item: Seq<char>)
    requires
        0 <= i < items.len(),
        first_index(items.take(i), item) is None,
        items[i] == item,
    ensures
        first_index(items, item) == Some(i),
{
    assert(items.take(i + 1).drop_last() =~= items.take(i));
    assert(first_index(items.take(i + 1), item) == Some(i));
    lemma_first_index_keeps(items, i + 1, item);
}

/// A text found among the first `n` items is found at the same place among
/// all of them.
pub proof fn lemma_first_index_keeps(items: Seq<Seq<char>>, n: int, item: Seq<char>)
    requires
        0 <= n <= items.len(),
        first_index(items.take(n), item) is Some,
    ensures
        first_index(items, item) == first_index(items.take(n), item),
    decreases items.len() - n,
{
    if n == items.len() {
        assert(items.take(n) =~= items);
    } else {
        assert(items.take(n + 1).drop_last() =~= items.take(n));
        lemma_first_index_keeps(items, n + 1, item);
    }
}

/// A run of digits denotes at least as much as any of its prefixes.
pub proof fn lemma_decimal_value_prefix(s: Seq<char>, k: int)
    requires
        0 <= k <= s.len(),
    ensures
        decimal_value(s.take(k)) <= decimal_value(s),
    decreases s.len() - k,
{
    if k == s.len() {
        assert(s.take(k) =~= s);
    } else {
        lemma_decimal_value_prefix(s.drop_last(), k);
        assert(s.drop_last().take(k) =~= s.take(k));
    }
}

/// Two string slices hold the same characters.
pub fn same_text(a: &str, b: &str) -> (r: bool)
    ensures
        r == (a@ == b@),
{
    let x = a.as_bytes();
    let y = b.as_bytes();
    if x.len() != y.len() {
        return false;
    }
    let mut i: usize = 0;
    while i < x.len()
        invariant
            i <= x.len(),
            x.len() == y.len(),
            x@ == a.spec_bytes(),
            y@ == b.spec_bytes(),
            forall|k: int| 0 <= k < i ==> x@[k] == y@[k],
        decreases x.len() - i,
    {
        if x[i] != y[i] {
            return false;
        }
        i = i + 1;
    }
    proof {
        assert(x@ =~= y@);
        vstd::utf8::encode_utf8_decode_utf8(a@);
        vstd::utf8::encode_utf8_decode_utf8(b@);
    }
    true
}

/// Finds the first string of a list that holds the characters of `item`.
pub fn find_text(items: &Vec<String>, item: &str) -> (found: Option<usize>)
    ensures
        match found {
            Some(i) => first_index(texts(items@), item@) == Some(i as int),
            None => first_index(texts(items@), item@) is None,
        },
{
    let ghost all = texts(items@);
    let mut i: usize = 0;
    while i < items.len()
        invariant
            i <= items.len(),
            all == texts(items@),
            first_index(all.take(i as int), item@) is None,
        decreases items.len() - i,
    {
        if same_text(items[i].as_str(), item) {
            proof {
                lemma_first_index_found(all, i as int, item@);
            }
            return Some(i);
        }
        assert(all.take(i + 1).drop_last() =~= all.take(i as int));
        i = i + 1;
    }
    assert(all.take(i as int) =~= all);
    None
}

/// Parses an unsigned base-10 integer that must not exceed `max`.
///
/// The text is an optional `+` and then digits only; a `-`, a blank, an
/// empty text or any other character makes it fail, and so does a number
/// greater than `max`.
pub fn parse_unsigned(text: &str, max: u64) -> (r: Option<u64>)
    ensures
        r == match bounded_value(text@, max as nat) {
            Some(v) => Some(v as u64),
            None => None,
        },
{
    if !text.is_ascii() {
        proof {
            let s = text@;
            let i = choose|i: int| 0 <= i < s.len() && !('\0' <= #[trigger] s[i] <= '\u{7f}');
            let d = unsigned_digits(s);
            if d.len() > 0 && all_digits(d) {
                if s[0] == '+' {
                    assert(i > 0);
                    assert(is_digit(d[i - 1]));
                } else {
                    assert(is_digit(d[i]));
                }
            }
        }
        return None;
    }
    let bytes = text.as_bytes();
    let n = bytes.len();
    proof {
        vstd::string::is_ascii_spec_bytes(text);
    }
    let start: usize = if n > 0 && bytes[0] == 43 {
        1
    } else {
        0
    };
    let ghost digits = unsigned_digits(text@);
    assert(digits =~= text@.subrange(start as int, n as int));
    if start == n {
        return None;
    }
    let mut acc: u128 = 0;
    let mut i: usize = start;
    while i < n
        invariant
            start <= i <= n,
            n == text@.len(),
            bytes@.len() == n,
            forall|k: int| 0 <= k < n ==> bytes@[k] == #[trigger] text@[k] as u8,
            vstd::utf8::is_ascii_chars(text@),
            digits == unsigned_digits(text@),
            digits == text@.subrange(start as int, n as int),
            all_digits(digits.take(i - start)),
            acc == decimal_value(digits.take(i - start)),
            acc <= max,
        decreases n - i,
    {
        let b = bytes[i];
        let ghost c = text@[i as int];
        assert(c == digits[i - start]);
        assert(c as u8 == b);
        assert('\0' <= c <= '\u{7f}');
        if b < 48 || b > 57 {
            assert(!is_digit(c));
            return None;
        }
        let next: u128 = acc * 10 + (b - 48) as u128;
        proof {
            let p = digits.take(i - start + 1);
            assert(p.drop_last() =~= digits.take(i - start));
            assert(p.last() == c);
            assert(digit_value(c) == b - 48);
            assert(next == decimal_value(p));
            assert forall|k: int| 0 <= k < p.len() implies is_digit(#[trigger] p[k]) by {
                if k < i - start {
                    assert(digits.take(i - start)[k] == p[k]);
                }
            }
        }
        if next > max as u128 {
            proof {
                if all_digits(digits) {
                    lemma_decimal_value_prefix(digits, i - start + 1);
                }
            }
            return None;
        }
        acc = next;
        i = i + 1;
    }
    assert(digits.take(i - start) =~= digits);
    Some(acc as u64)
}

/// Parses an unsigned base-10 integer that fits 32 bits.
pub fn parse_u32(text: &str) -> (r: Option<u32>)
    ensures
        r == match bounded_value(text@, u32::MAX as nat) {
            Some(v) => Some(v as u32),
            None => None,
        },
{
    match parse_unsigned(text, 0xffff_ffff) {
        Some(v) => Some(v as u32),
        None => None,
    }
}

/// Parses an unsigned base-10 integer that fits the machine's word.
pub fn parse_usize(text: &str) -> (r: Option<usize>)
    ensures
        r == match bounded_value(text@, usize::MAX as nat) {
            Some(v) => Some(v as usize),
            None => None,
        },
{
    match parse_unsigned(text, usize::MAX as u64) {
        Some(v) => Some(v as usize),
        None => None,
    }
}

/// Parses a truth value: `true` or `false`, in exactly this spelling.
pub fn parse_bool(text: &str) -> (r: Option<bool>)
    ensures
        r == bool_value(text@),
{
    if same_text(text, "true") {
        Some(true)
    } else if same_text(text, "false") {
        Some(false)
    } else {
        None
    }
}

} // verus!
