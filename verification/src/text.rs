//! Character-level helpers shared by the parsers and formatters of this crate.

use vstd::prelude::*;
use vstd::string::StringExecFns;

verus! {

broadcast use vstd::string::group_string_axioms;

/// The five characters that count as ASCII whitespace: space, tab, line
/// feed, form feed and carriage return.
pub open spec fn is_ascii_space(c: char) -> bool {
    c == ' ' || c == '\t' || c == '\n' || c == '\x0C' || c == '\r'
}

/// True when no character of `s` is ASCII whitespace.
pub open spec fn no_ascii_space(s: Seq<char>) -> bool {
    forall|i: int| 0 <= i < s.len() ==> !is_ascii_space(#[trigger] s[i])
}

/// A word is a non-empty run of characters without ASCII whitespace.
pub open spec fn is_word(s: Seq<char>) -> bool {
    s.len() > 0 && no_ascii_space(s)
}

/// The first position at or after `i` that does not hold ASCII whitespace.
pub open spec fn skip_spaces(s: Seq<char>, i: int) -> int
    decreases s.len() - i,
{
    if 0 <= i < s.len() && is_ascii_space(s[i]) {
        skip_spaces(s, i + 1)
    } else {
        i
    }
}

/// The first position at or after `i` that holds ASCII whitespace, or the
/// length of `s` when there is none.
pub open spec fn skip_word(s: Seq<char>, i: int) -> int
    decreases s.len() - i,
{
    if 0 <= i < s.len() && !is_ascii_space(s[i]) {
        skip_word(s, i + 1)
    } else {
        i
    }
}

/// The whitespace-separated fields of `s` that start at or after `i`.
pub open spec fn fields_from(s: Seq<char>, i: int) -> Seq<Seq<char>>
    decreases s.len() - i,
{
    let start = skip_spaces(s, i);
    let end = skip_word(s, start);
    if 0 <= i <= start < end <= s.len() {
        seq![s.subrange(start, end)] + fields_from(s, end)
    } else {
        Seq::empty()
    }
}

/// The maximal runs of non-whitespace characters of `s`, in order.
pub open spec fn ascii_fields(s: Seq<char>) -> Seq<Seq<char>> {
    fields_from(s, 0)
}

/// Skipping whitespace from `i` ends within the text, at a character that
/// is not whitespace or at the end, and passes over whitespace only.
pub proof fn lemma_skip_spaces_bounds(s: Seq<char>, i: int)
    requires
        0 <= i <= s.len(),
    ensures
        i <= skip_spaces(s, i) <= s.len(),
        skip_spaces(s, i) < s.len() ==> !is_ascii_space(s[skip_spaces(s, i)]),
        forall|k: int| i <= k < skip_spaces(s, i) ==> is_ascii_space(#[trigger] s[k]),
    decreases s.len() - i,
{
    if i < s.len() && is_ascii_space(s[i]) {
        lemma_skip_spaces_bounds(s, i + 1);
    }
}

/// Skipping a word from `i` ends within the text, at whitespace or at the
/// end, and passes over no whitespace.
pub proof fn lemma_skip_word_bounds(s: Seq<char>, i: int)
    requires
        0 <= i <= s.len(),
    ensures
        i <= skip_word(s, i) <= s.len(),
        skip_word(s, i) < s.len() ==> is_ascii_space(s[skip_word(s, i)]),
        forall|k: int| i <= k < skip_word(s, i) ==> !is_ascii_space(#[trigger] s[k]),
    decreases s.len() - i,
{
    if i < s.len() && !is_ascii_space(s[i]) {
        lemma_skip_word_bounds(s, i + 1);
    }
}

/// A run of whitespace that ends at `to` is skipped up to `to`.
pub proof fn lemma_skip_spaces_to(s: Seq<char>, from: int, to: int)
    requires
        0 <= from <= to <= s.len(),
        forall|k: int| from <= k < to ==> is_ascii_space(#[trigger] s[k]),
        to < s.len() ==> !is_ascii_space(s[to]),
    ensures
        skip_spaces(s, from) == to,
    decreases to - from,
{
    if from < to {
        lemma_skip_spaces_to(s, from + 1, to);
    }
}

/// A run of non-whitespace that ends at `to` is skipped up to `to`.
pub proof fn lemma_skip_word_to(s: Seq<char>, from: int, to: int)
    requires
        0 <= from <= to <= s.len(),
        forall|k: int| from <= k < to ==> !is_ascii_space(#[trigger] s[k]),
        to < s.len() ==> is_ascii_space(s[to]),
    ensures
        skip_word(s, from) == to,
    decreases to - from,
{
    if from < to {
        lemma_skip_word_to(s, from + 1, to);
    }
}

/// The fields found from position `i` on do not depend on what precedes `i`.
pub proof fn lemma_fields_from_suffix(head: Seq<char>, tail: Seq<char>, i: int)
    requires
        0 <= i <= tail.len(),
    ensures
        fields_from(head + tail, head.len() + i) == fields_from(tail, i),
    decreases tail.len() - i,
{
    let s = head + tail;
    let h = head.len() as int;
    lemma_skip_spaces_bounds(tail, i);
    let start = skip_spaces(tail, i);
    assert(skip_spaces(s, h + i) == h + start) by {
        assert forall|k: int| h + i <= k < h + start implies is_ascii_space(#[trigger] s[k]) by {
            assert(s[k] == tail[k - h]);
        }
        if start < tail.len() {
            assert(s[h + start] == tail[start]);
        }
        lemma_skip_spaces_to(s, h + i, h + start);
    }
    lemma_skip_word_bounds(tail, start);
    let end = skip_word(tail, start);
    assert(skip_word(s, h + start) == h + end) by {
        assert forall|k: int| h + start <= k < h + end implies !is_ascii_space(#[trigger] s[k]) by {
            assert(s[k] == tail[k - h]);
        }
        if end < tail.len() {
            assert(s[h + end] == tail[end]);
        }
        lemma_skip_word_to(s, h + start, h + end);
    }
    if start < end {
        lemma_fields_from_suffix(head, tail, end);
        assert(s.subrange(h + start, h + end) =~= tail.subrange(start, end));
    }
}

/// Leading whitespace does not change the fields of a text.
pub proof fn lemma_fields_after_space(c: char, rest: Seq<char>)
    requires
        is_ascii_space(c),
    ensures
        ascii_fields(seq![c] + rest) == ascii_fields(rest),
{
    let s = seq![c] + rest;
    assert(s[0] == c);
    assert(skip_spaces(s, 0) == skip_spaces(s, 1));
    lemma_skip_spaces_bounds(s, 1);
    assert(fields_from(s, 0) == fields_from(s, 1));
    lemma_fields_from_suffix(seq![c], rest, 0);
}

/// A word followed by whitespace, or by nothing, is the first field.
pub proof fn lemma_fields_after_word(word: Seq<char>, rest: Seq<char>)
    requires
        is_word(word),
        rest.len() > 0 ==> is_ascii_space(rest[0]),
    ensures
        ascii_fields(word + rest) == seq![word] + ascii_fields(rest),
{
    let s = word + rest;
    let n = word.len() as int;
    assert(s[0] == word[0]);
    assert(skip_spaces(s, 0) == 0);
    assert(skip_word(s, 0) == n) by {
        assert forall|k: int| 0 <= k < n implies !is_ascii_space(#[trigger] s[k]) by {
            assert(s[k] == word[k]);
        }
        if n < s.len() {
            assert(s[n] == rest[0]);
        }
        lemma_skip_word_to(s, 0, n);
    }
    assert(s.subrange(0, n) =~= word);
    lemma_fields_from_suffix(word, rest, 0);
}

/// Every field of a text is a word.
pub proof fn lemma_fields_are_words(s: Seq<char>, i: int)
    requires
        0 <= i <= s.len(),
    ensures
        forall|k: int| 0 <= k < fields_from(s, i).len() ==> is_word(#[trigger] fields_from(s, i)[k]),
    decreases s.len() - i,
{
    lemma_skip_spaces_bounds(s, i);
    let start = skip_spaces(s, i);
    lemma_skip_word_bounds(s, start);
    let end = skip_word(s, start);
    if start < end {
        lemma_fields_are_words(s, end);
        let word = s.subrange(start, end);
        assert(is_word(word)) by {
            assert forall|j: int| 0 <= j < word.len() implies !is_ascii_space(#[trigger] word[j]) by {
                assert(word[j] == s[start + j]);
            }
        }
        let rest = fields_from(s, end);
        assert forall|k: int| 0 <= k < fields_from(s, i).len() implies is_word(
            #[trigger] fields_from(s, i)[k],
        ) by {
            if k > 0 {
                assert(fields_from(s, i)[k] == rest[k - 1]);
            }
        }
    }
}

/// Tells whether `c` is ASCII whitespace.
pub fn char_is_ascii_space(c: char) -> (b: bool)
    ensures
        b == is_ascii_space(c),
{
    c == ' ' || c == '\t' || c == '\n' || c == '\x0C' || c == '\r'
}

/// Collects the characters of `s` into a vector.
pub fn chars_of(s: &str) -> (v: Vec<char>)
    ensures
        v@ == s@,
{
    let mut v: Vec<char> = Vec::new();
    for c in it: s.chars()
        invariant
            v@ == it.seq().take(it.index() as int),
            it.seq() == s@,
    {
        v.push(c);
    }
    v
}

/// Splits `s` at ASCII whitespace and returns its fields in order.
pub fn split_ascii_whitespace(s: &str) -> (out: Vec<String>)
    ensures
        out.deep_view() == ascii_fields(s@),
{
    let cs = chars_of(s);
    let n = cs.len();
    let mut out: Vec<String> = Vec::new();
    let mut i: usize = 0;
    assert(out.deep_view() + fields_from(s@, 0) =~= ascii_fields(s@));
    loop
        invariant
            cs@ == s@,
            n == cs.len(),
            i <= n,
            out.deep_view() + fields_from(s@, i as int) == ascii_fields(s@),
        ensures
            out.deep_view() == ascii_fields(s@),
        decreases n - i,
    {
        let ghost from = i as int;
        while i < n && char_is_ascii_space(cs[i])
            invariant
                cs@ == s@,
                n == cs.len(),
                from <= i <= n,
                skip_spaces(s@, i as int) == skip_spaces(s@, from),
            decreases n - i,
        {
            i += 1;
        }
        let start = i;
        while i < n && !char_is_ascii_space(cs[i])
            invariant
                cs@ == s@,
                n == cs.len(),
                start <= i <= n,
                skip_word(s@, i as int) == skip_word(s@, start as int),
            decreases n - i,
        {
            i += 1;
        }
        if i == start {
            assert(fields_from(s@, from) =~= Seq::<Seq<char>>::empty());
            assert(out.deep_view() + Seq::<Seq<char>>::empty() =~= out.deep_view());
            break;
        }
        let word = s.substring_char(start, i);
        let ghost before = out.deep_view();
        out.push(word.to_owned());
        proof {
            assert(out.deep_view() =~= before.push(word@));
            assert(fields_from(s@, from) == seq![word@] + fields_from(s@, i as int));
            assert(before.push(word@) + fields_from(s@, i as int) =~= before + (seq![word@]
                + fields_from(s@, i as int)));
        }
    }
    out
}

/// Tells whether two strings hold the same characters.
pub fn str_eq(a: &str, b: &str) -> (same: bool)
    ensures
        same == (a@ == b@),
{
    a.to_owned() == b.to_owned()
}

/// True when `s` begins with `prefix`.
pub open spec fn has_prefix(s: Seq<char>, prefix: Seq<char>) -> bool {
    prefix.len() <= s.len() && s.subrange(0, prefix.len() as int) == prefix
}

/// True when `needle` occurs in `s` at position `at`.
pub open spec fn occurs_at(s: Seq<char>, needle: Seq<char>, at: int) -> bool {
    0 <= at && at + needle.len() <= s.len() && s.subrange(at, at + needle.len()) == needle
}

/// True when `needle` occurs somewhere in `s`.
pub open spec fn has_substring(s: Seq<char>, needle: Seq<char>) -> bool {
    exists|at: int| occurs_at(s, needle, at)
}

/// Tells whether `needle` occurs in `s` at position `at`.
pub fn chars_occur_at(s: &Vec<char>, needle: &Vec<char>, at: usize) -> (found: bool)
    ensures
        found == occurs_at(s@, needle@, at as int),
{
    if needle.len() > s.len() || at > s.len() - needle.len() {
        return false;
    }
    let mut k: usize = 0;
    while k < needle.len()
        invariant
            k <= needle.len(),
            at + needle.len() <= s.len(),
            forall|j: int| 0 <= j < k ==> s@[at + j] == needle@[j],
        decreases needle.len() - k,
    {
        if s[at + k] != needle[k] {
            assert(s@.subrange(at as int, at + needle.len())[k as int] == s@[at + k]);
            return false;
        }
        k += 1;
    }
    assert(s@.subrange(at as int, at + needle.len()) =~= needle@);
    true
}

/// Tells whether `s` begins with `prefix`.
pub fn starts_with(s: &str, prefix: &str) -> (found: bool)
    ensures
        found == has_prefix(s@, prefix@),
{
    let cs = chars_of(s);
    let ps = chars_of(prefix);
    chars_occur_at(&cs, &ps, 0)
}

/// Tells whether `needle` occurs somewhere in `s`.
pub fn contains(s: &str, needle: &str) -> (found: bool)
    ensures
        found == has_substring(s@, needle@),
{
    let cs = chars_of(s);
    let ns = chars_of(needle);
    if ns.len() > cs.len() {
        return false;
    }
    let last = cs.len() - ns.len();
    let mut at: usize = 0;
    loop
        invariant
            at <= last,
            last == cs.len() - ns.len(),
            cs@ == s@,
            ns@ == needle@,
            forall|j: int| 0 <= j < at ==> !occurs_at(s@, needle@, j),
        decreases last - at,
    {
        if chars_occur_at(&cs, &ns, at) {
            return true;
        }
        if at == last {
            return false;
        }
        at += 1;
    }
}

/// The position of the first `c` in `s`, or the length of `s` when `c` does
/// not occur.
pub open spec fn first_index_of(s: Seq<char>, c: char) -> int
    decreases s.len(),
{
    if s.len() == 0 {
        0
    } else if s[0] == c {
        0
    } else {
        1 + first_index_of(s.drop_first(), c)
    }
}

/// The first index of `c` lies within the text or at its end; it holds `c`
/// unless it is the end, and no position before it does.
pub proof fn lemma_first_index_of(s: Seq<char>, c: char)
    ensures
        0 <= first_index_of(s, c) <= s.len(),
        first_index_of(s, c) < s.len() ==> s[first_index_of(s, c)] == c,
        forall|k: int| 0 <= k < first_index_of(s, c) ==> #[trigger] s[k] != c,
    decreases s.len(),
{
    if s.len() > 0 && s[0] != c {
        let rest = s.drop_first();
        lemma_first_index_of(rest, c);
        assert forall|k: int| 0 <= k < first_index_of(s, c) implies #[trigger] s[k] != c by {
            if k > 0 {
                assert(s[k] == rest[k - 1]);
            }
        }
    }
}

/// Any position that holds `c` and has no `c` before it is the first one.
pub proof fn lemma_first_index_is(s: Seq<char>, c: char, at: int)
    requires
        0 <= at <= s.len(),
        at < s.len() ==> s[at] == c,
        forall|k: int| 0 <= k < at ==> #[trigger] s[k] != c,
    ensures
        first_index_of(s, c) == at,
{
    lemma_first_index_of(s, c);
}

/// Finds the first `c` in `s`; the length of `s` stands for "not found".
pub fn find_char(s: &Vec<char>, c: char) -> (at: usize)
    ensures
        at == first_index_of(s@, c),
        at <= s.len(),
        at < s.len() ==> s@[at as int] == c,
        forall|k: int| 0 <= k < at ==> #[trigger] s@[k] != c,
{
    let mut at: usize = 0;
    while at < s.len() && s[at] != c
        invariant
            at <= s.len(),
            forall|k: int| 0 <= k < at ==> #[trigger] s@[k] != c,
        decreases s.len() - at,
    {
        at += 1;
    }
    proof {
        lemma_first_index_is(s@, c, at as int);
    }
    at
}

/// The ten decimal digits in order.
pub open spec fn decimal_digits() -> Seq<char> {
    seq!['0', '1', '2', '3', '4', '5', '6', '7', '8', '9']
}

/// True for the decimal digits.
pub open spec fn is_digit(c: char) -> bool {
    '0' <= c && c <= '9'
}

/// The number a decimal digit stands for.
pub open spec fn digit_value(c: char) -> nat {
    if c == '1' {
        1
    } else if c == '2' {
        2
    } else if c == '3' {
        3
    } else if c == '4' {
        4
    } else if c == '5' {
        5
    } else if c == '6' {
        6
    } else if c == '7' {
        7
    } else if c == '8' {
        8
    } else if c == '9' {
        9
    } else {
        0
    }
}

/// The decimal notation of `n`, without sign or leading zeros.
pub open spec fn decimal(n: nat) -> Seq<char>
    decreases n,
{
    if n < 10 {
        seq![decimal_digits()[n as int]]
    } else {
        decimal(n / 10).push(decimal_digits()[(n % 10) as int])
    }
}

/// True when every character of `s` is a decimal digit.
pub open spec fn all_digits(s: Seq<char>) -> bool {
    forall|i: int| 0 <= i < s.len() ==> is_digit(#[trigger] s[i])
}

/// The number that a run of decimal digits denotes.
pub open spec fn digits_value(s: Seq<char>) -> nat
    decreases s.len(),
{
    if s.len() == 0 {
        0
    } else {
        digits_value(s.drop_last()) * 10 + digit_value(s.last())
    }
}

/// The digits of an unsigned integer: the text without its leading `+`, if
/// it has one.
pub open spec fn unsigned_digits(s: Seq<char>) -> Seq<char> {
    if s.len() > 0 && s[0] == '+' {
        s.drop_first()
    } else {
        s
    }
}

/// The number that `s` denotes as an unsigned integer: an optional `+`
/// followed by one or more decimal digits. Anything else denotes none.
pub open spec fn unsigned_value(s: Seq<char>) -> Option<nat> {
    let digits = unsigned_digits(s);
    if digits.len() > 0 && all_digits(digits) {
        Some(digits_value(digits))
    } else {
        None
    }
}

/// Writes `n` in decimal notation.
pub fn u64_to_decimal(n: u64) -> (out: String)
    ensures
        out@ == decimal(n as nat),
    decreases n,
{
    let digits = "0123456789";
    proof {
        reveal_strlit("0123456789");
        assert(digits@ =~= decimal_digits());
    }
    let d = (n % 10) as usize;
    let last = digits.substring_char(d, d + 1);
    assert(last@ =~= seq![decimal_digits()[d as int]]);
    if n < 10 {
        last.to_owned()
    } else {
        let mut out = u64_to_decimal(n / 10);
        out.append(last);
        assert(out@ =~= decimal((n / 10) as nat).push(decimal_digits()[d as int]));
        out
    }
}

/// The value of the decimal digit `c`, if it is one.
pub fn digit_of(c: char) -> (d: Option<u64>)
    ensures
        d is Some == is_digit(c),
        d matches Some(v) ==> v == digit_value(c) && v < 10,
{
    if c == '0' {
        Some(0)
    } else if c == '1' {
        Some(1)
    } else if c == '2' {
        Some(2)
    } else if c == '3' {
        Some(3)
    } else if c == '4' {
        Some(4)
    } else if c == '5' {
        Some(5)
    } else if c == '6' {
        Some(6)
    } else if c == '7' {
        Some(7)
    } else if c == '8' {
        Some(8)
    } else if c == '9' {
        Some(9)
    } else {
        None
    }
}

/// A longer run of digits does not denote a smaller number.
pub proof fn lemma_digits_value_grows(s: Seq<char>, k: int)
    requires
        0 <= k <= s.len(),
    ensures
        digits_value(s.take(k)) <= digits_value(s),
    decreases s.len() - k,
{
    if k < s.len() {
        lemma_digits_value_grows(s, k + 1);
        let longer = s.take(k + 1);
        assert(longer.drop_last() =~= s.take(k));
    } else {
        assert(s.take(k) =~= s);
    }
}

/// Reads an unsigned integer: an optional `+`, then decimal digits. Gives
/// `None` for any other text and for numbers beyond 64 bits.
pub fn parse_u64(s: &str) -> (r: Option<u64>)
    ensures
        r == match unsigned_value(s@) {
            Some(v) => if v <= u64::MAX {
                Some(v as u64)
            } else {
                None
            },
            None => None,
        },
{
    let cs = chars_of(s);
    let first: usize = if cs.len() > 0 && cs[0] == '+' {
        1
    } else {
        0
    };
    let ghost digits = unsigned_digits(s@);
    if cs.len() == first {
        return None;
    }
    let mut value: u64 = 0;
    let mut i: usize = first;
    assert(digits.take(0) =~= Seq::<char>::empty());
    while i < cs.len()
        invariant
            cs@ == s@,
            first <= i <= cs.len(),
            first <= 1,
            digits == unsigned_digits(s@),
            digits.len() == cs.len() - first,
            forall|k: int| 0 <= k < digits.len() ==> digits[k] == cs@[first + k],
            all_digits(digits.take(i - first)),
            value == digits_value(digits.take(i - first)),
        decreases cs.len() - i,
    {
        let ghost seen = digits.take(i - first);
        let ghost next = digits.take(i + 1 - first);
        proof {
            assert(next.drop_last() =~= seen);
            assert(next.last() == cs@[i as int]);
        }
        match digit_of(cs[i]) {
            None => {
                assert(!is_digit(digits[i - first]));
                return None;
            },
            Some(d) => {
                if value > (u64::MAX - d) / 10 {
                    proof {
                        lemma_digits_value_grows(digits, i + 1 - first);
                    }
                    return None;
                }
                value = value * 10 + d;
                assert(all_digits(next)) by {
                    assert forall|k: int| 0 <= k < next.len() implies is_digit(#[trigger] next[k]) by {
                        if k < seen.len() {
                            assert(next[k] == seen[k]);
                        }
                    }
                }
            },
        }
        i += 1;
    }
    assert(digits.take(i - first) =~= digits);
    Some(value)
}

/// The decimal notation of an integer: a minus sign before the notation of
/// its magnitude where it is negative.
pub open spec fn signed_decimal(n: int) -> Seq<char> {
    if n < 0 {
        "-"@ + decimal((-n) as nat)
    } else {
        decimal(n as nat)
    }
}

/// Writes `n` in decimal notation.
pub fn i32_to_decimal(n: i32) -> (out: String)
    ensures
        out@ == signed_decimal(n as int),
{
    if n < 0 {
        let magnitude: u64 = (-(n as i64)) as u64;
        let mut out = String::from_str("-");
        let digits = u64_to_decimal(magnitude);
        out.append(digits.as_str());
        out
    } else {
        u64_to_decimal(n as u64)
    }
}

} // verus!
