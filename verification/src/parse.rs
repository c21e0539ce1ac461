//! Reading numbers, tokens and lines out of the text that helper programs
//! print.
//!
//! The functions here work on characters. A piece of a text is named by the
//! positions of its first character and of the character after its last.

use vstd::prelude::*;
use vstd::string::StrSliceExecFns;

verus! {

/// The characters of a string.
pub fn to_chars(text: &str) -> (chars: Vec<char>)
    ensures
        chars@ == text@,
{
    let len: usize = text.unicode_len();
    let mut chars: Vec<char> = Vec::new();
    let mut i: usize = 0;
    while i < len
        invariant
            len == text@.len(),
            i <= len,
            chars@ == text@.subrange(0, i as int),
        decreases len - i,
    {
        chars.push(text.get_char(i));
        i = i + 1;
    }
    chars
}

/// Whether a character is white space: one of the code points with the
/// Unicode property `White_Space`.
pub open spec fn spec_is_whitespace(c: char) -> bool {
    let code = c as u32;
    ||| 0x09 <= code <= 0x0D
    ||| code == 0x20
    ||| code == 0x85
    ||| code == 0xA0
    ||| code == 0x1680
    ||| 0x2000 <= code <= 0x200A
    ||| code == 0x2028
    ||| code == 0x2029
    ||| code == 0x202F
    ||| code == 0x205F
    ||| code == 0x3000
}

/// Whether a character is white space.
#[verifier::when_used_as_spec(spec_is_whitespace)]
pub fn is_whitespace(c: char) -> (white: bool)
    ensures
        white == spec_is_whitespace(c),
{
    let code: u32 = c as u32;
    (0x09 <= code && code <= 0x0D) || code == 0x20 || code == 0x85 || code == 0xA0 || code
        == 0x1680 || (0x2000 <= code && code <= 0x200A) || code == 0x2028 || code == 0x2029
        || code == 0x202F || code == 0x205F || code == 0x3000
}

/// The first position from `from` on, before `end`, that holds no white
/// space; `end` where there is none.
pub open spec fn spec_skip_whitespace(s: Seq<char>, from: int, end: int) -> int
    decreases end - from,
{
    if from < end && 0 <= from < s.len() && spec_is_whitespace(s[from]) {
        spec_skip_whitespace(s, from + 1, end)
    } else {
        from
    }
}

/// The first position from `from` on, before `end`, that holds white space;
/// `end` where there is none.
pub open spec fn spec_token_end(s: Seq<char>, from: int, end: int) -> int
    decreases end - from,
{
    if from < end && 0 <= from < s.len() && !spec_is_whitespace(s[from]) {
        spec_token_end(s, from + 1, end)
    } else {
        from
    }
}

/// The position after the last character before `end`, not before `from`,
/// that is no white space; `from` where there is none.
pub open spec fn spec_trim_end(s: Seq<char>, from: int, end: int) -> int
    decreases end - from,
{
    if from < end && 0 < end <= s.len() && spec_is_whitespace(s[end - 1]) {
        spec_trim_end(s, from, end - 1)
    } else {
        end
    }
}

/// The piece `[from, end)` without the white space at its start and at its
/// end.
pub open spec fn spec_trim(s: Seq<char>, from: int, end: int) -> (int, int) {
    let start = spec_skip_whitespace(s, from, end);
    (start, spec_trim_end(s, start, end))
}

/// A token ends within the piece.
pub proof fn lemma_token_end_bounds(s: Seq<char>, from: int, end: int)
    requires
        0 <= from <= end <= s.len(),
    ensures
        from <= spec_token_end(s, from, end) <= end,
        from < end && !spec_is_whitespace(s[from]) ==> from < spec_token_end(s, from, end),
    decreases end - from,
{
    if from < end && !spec_is_whitespace(s[from]) {
        lemma_token_end_bounds(s, from + 1, end);
    }
}

/// The first position from `from` on, before `end`, that holds no white
/// space.
pub fn skip_whitespace(s: &[char], from: usize, end: usize) -> (at: usize)
    requires
        from <= end <= s@.len(),
    ensures
        at == spec_skip_whitespace(s@, from as int, end as int),
        from <= at <= end,
{
    let mut i: usize = from;
    while i < end && is_whitespace(s[i])
        invariant
            from <= i <= end <= s@.len(),
            spec_skip_whitespace(s@, i as int, end as int) == spec_skip_whitespace(
                s@,
                from as int,
                end as int,
            ),
        decreases end - i,
    {
        i = i + 1;
    }
    i
}

/// The first position from `from` on, before `end`, that holds white space.
pub fn token_end(s: &[char], from: usize, end: usize) -> (at: usize)
    requires
        from <= end <= s@.len(),
    ensures
        at == spec_token_end(s@, from as int, end as int),
        from <= at <= end,
{
    let mut i: usize = from;
    while i < end && !is_whitespace(s[i])
        invariant
            from <= i <= end <= s@.len(),
            spec_token_end(s@, i as int, end as int) == spec_token_end(
                s@,
                from as int,
                end as int,
            ),
        decreases end - i,
    {
        i = i + 1;
    }
    i
}

/// The piece `[from, end)` without the white space at its start and at its
/// end.
pub fn trim(s: &[char], from: usize, end: usize) -> (piece: (usize, usize))
    requires
        from <= end <= s@.len(),
    ensures
        (piece.0 as int, piece.1 as int) == spec_trim(s@, from as int, end as int),
        from <= piece.0 <= piece.1 <= end,
{
    let start: usize = skip_whitespace(s, from, end);
    let mut stop: usize = end;
    while stop > start && is_whitespace(s[stop - 1])
        invariant
            start <= stop <= end <= s@.len(),
            spec_trim_end(s@, start as int, stop as int) == spec_trim_end(
                s@,
                start as int,
                end as int,
            ),
        decreases stop - start,
    {
        stop = stop - 1;
    }
    (start, stop)
}

/// Whether a character is a decimal digit.
pub open spec fn spec_is_digit(c: char) -> bool {
    0x30 <= c as u32 <= 0x39
}

/// The value of a decimal digit.
pub open spec fn spec_digit(c: char) -> int {
    c as u32 - 0x30
}

/// Whether every character of the piece `[from, end)` is a decimal digit.
pub open spec fn spec_all_digits(s: Seq<char>, from: int, end: int) -> bool {
    forall|i: int| from <= i < end ==> spec_is_digit(#[trigger] s[i])
}

/// The number that the digits of the piece `[from, end)` write in decimal.
pub open spec fn spec_digits_value(s: Seq<char>, from: int, end: int) -> int
    decreases end - from,
{
    if from >= end {
        0
    } else {
        spec_digits_value(s, from, end - 1) * 10 + spec_digit(s[end - 1])
    }
}

/// The 32-bit integer that the piece `[from, end)` writes in decimal: an
/// optional sign, `+` or `-`, followed by at least one digit and nothing
/// else. There is none where the piece is written otherwise, or where the
/// number does not fit.
pub open spec fn spec_parse_i32(s: Seq<char>, from: int, end: int) -> Option<i32> {
    if from >= end {
        None
    } else {
        let negative = s[from] == '-';
        let digits_from = if s[from] == '-' || s[from] == '+' {
            from + 1
        } else {
            from
        };
        if digits_from >= end || !spec_all_digits(s, digits_from, end) {
            None
        } else {
            let magnitude = spec_digits_value(s, digits_from, end);
            let value = if negative {
                -magnitude
            } else {
                magnitude
            };
            if i32::MIN <= value <= i32::MAX {
                Some(value as i32)
            } else {
                None
            }
        }
    }
}

/// The value of digits never shrinks as digits are added.
pub proof fn lemma_digits_value_grows(s: Seq<char>, from: int, mid: int, end: int)
    requires
        0 <= from <= mid <= end <= s.len(),
        spec_all_digits(s, from, end),
    ensures
        0 <= spec_digits_value(s, from, mid) <= spec_digits_value(s, from, end),
    decreases end - mid,
{
    lemma_digits_value_nonnegative(s, from, mid);
    if mid < end {
        lemma_digits_value_grows(s, from, mid, end - 1);
        lemma_digits_value_nonnegative(s, from, end - 1);
    }
}

/// The value of digits is not negative.
pub proof fn lemma_digits_value_nonnegative(s: Seq<char>, from: int, end: int)
    requires
        0 <= from <= end <= s.len(),
        spec_all_digits(s, from, end),
    ensures
        0 <= spec_digits_value(s, from, end),
    decreases end - from,
{
    if from < end {
        lemma_digits_value_nonnegative(s, from, end - 1);
    }
}

/// Reads a 32-bit integer written in decimal from the piece `[from, end)`.
pub fn parse_i32(s: &[char], from: usize, end: usize) -> (value: Option<i32>)
    requires
        from <= end <= s@.len(),
    ensures
        value == spec_parse_i32(s@, from as int, end as int),
{
    if from >= end {
        return None;
    }
    let negative: bool = s[from] == '-';
    let digits_from: usize = if s[from] == '-' || s[from] == '+' {
        from + 1
    } else {
        from
    };
    if digits_from >= end {
        return None;
    }
    let limit: i64 = 2147483648;
    let mut magnitude: i64 = 0;
    let mut i: usize = digits_from;
    while i < end
        invariant
            from < end,
            digits_from == (if s@[from as int] == '-' || s@[from as int] == '+' {
                from + 1
            } else {
                from as int
            }),
            digits_from <= i <= end <= s@.len(),
            spec_all_digits(s@, digits_from as int, i as int),
            magnitude == spec_digits_value(s@, digits_from as int, i as int),
            0 <= magnitude <= limit,
            limit == 2147483648,
        decreases end - i,
    {
        let code: u32 = s[i] as u32;
        if code < 0x30 || code > 0x39 {
            return None;
        }
        let digit: i64 = (code - 0x30) as i64;
        let next: i64 = magnitude * 10 + digit;
        if next > limit {
            proof {
                if spec_all_digits(s@, digits_from as int, end as int) {
                    lemma_digits_value_grows(s@, digits_from as int, i + 1, end as int);
                }
            }
            return None;
        }
        magnitude = next;
        i = i + 1;
    }
    if negative {
        Some((0 - magnitude) as i32)
    } else if magnitude == limit {
        None
    } else {
        Some(magnitude as i32)
    }
}

/// The first position from `from` on, before `end`, that holds `c`; `end`
/// where there is none.
pub open spec fn spec_find_char(s: Seq<char>, c: char, from: int, end: int) -> int
    decreases end - from,
{
    if from < end && 0 <= from < s.len() && s[from] != c {
        spec_find_char(s, c, from + 1, end)
    } else {
        from
    }
}

/// The first position from `from` on, before `end`, that holds `c`; `end`
/// where there is none.
pub fn find_char(s: &[char], c: char, from: usize, end: usize) -> (at: usize)
    requires
        from <= end <= s@.len(),
    ensures
        at == spec_find_char(s@, c, from as int, end as int),
        from <= at <= end,
{
    let mut i: usize = from;
    while i < end && s[i] != c
        invariant
            from <= i <= end <= s@.len(),
            spec_find_char(s@, c, i as int, end as int) == spec_find_char(
                s@,
                c,
                from as int,
                end as int,
            ),
        decreases end - i,
    {
        i = i + 1;
    }
    i
}

/// Whether `word` stands in `s` at position `at` and ends before or at
/// `end`.
pub open spec fn spec_word_at(s: Seq<char>, word: Seq<char>, at: int, end: int) -> bool {
    &&& 0 <= at
    &&& at + word.len() <= end <= s.len()
    &&& s.subrange(at, at + word.len()) == word
}

/// The first position from `from` on at which `word` stands within the piece
/// that ends at `end`; `None` where it stands nowhere.
pub open spec fn spec_find_word(s: Seq<char>, word: Seq<char>, from: int, end: int) -> Option<int>
    decreases end - from,
{
    if from < 0 || from + word.len() > end {
        None
    } else if spec_word_at(s, word, from, end) {
        Some(from)
    } else if from < end {
        spec_find_word(s, word, from + 1, end)
    } else {
        None
    }
}

/// Whether `word` stands in `s` at position `at` and ends before or at
/// `end`.
pub fn word_at(s: &[char], word: &[char], at: usize, end: usize) -> (found: bool)
    requires
        end <= s@.len(),
    ensures
        found == spec_word_at(s@, word@, at as int, end as int),
{
    if at > end || word.len() > end - at {
        return false;
    }
    let mut i: usize = 0;
    while i < word.len()
        invariant
            i <= word.len(),
            at + word.len() <= end <= s@.len(),
            forall|j: int| 0 <= j < i ==> s@[at + j] == word@[j],
        decreases word.len() - i,
    {
        if s[at + i] != word[i] {
            return false;
        }
        i = i + 1;
    }
    assert(s@.subrange(at as int, at + word@.len()) =~= word@);
    true
}

/// The first position from `from` on at which `word` stands within the piece
/// that ends at `end`.
pub fn find_word(s: &[char], word: &[char], from: usize, end: usize) -> (at: Option<usize>)
    requires
        from <= end <= s@.len(),
    ensures
        at.is_some() == spec_find_word(s@, word@, from as int, end as int).is_some(),
        at matches Some(i) ==> spec_find_word(s@, word@, from as int, end as int) == Some(
            i as int,
        ) && from <= i && i + word@.len() <= end,
{
    if word.len() > end - from {
        return None;
    }
    let last: usize = end - word.len();
    let mut i: usize = from;
    while i <= last
        invariant
            from <= i <= last + 1,
            last == end - word.len(),
            end <= s@.len(),
            spec_find_word(s@, word@, i as int, end as int) == spec_find_word(
                s@,
                word@,
                from as int,
                end as int,
            ),
        decreases last + 1 - i,
    {
        if word_at(s, word, i, end) {
            return Some(i);
        }
        if i == last {
            assert(spec_find_word(s@, word@, i + 1, end as int) is None);
            return None;
        }
        i = i + 1;
    }
    None
}

/// The token with number `n`, counted from zero, among the runs of
/// characters that white space parts in the piece `[from, end)`.
pub open spec fn spec_nth_token(s: Seq<char>, from: int, end: int, n: nat) -> Option<(int, int)>
    decreases n,
{
    let start = spec_skip_whitespace(s, from, end);
    if !(0 <= from <= end <= s.len()) || start >= end {
        None
    } else {
        let stop = spec_token_end(s, start, end);
        if n == 0 {
            Some((start, stop))
        } else {
            spec_nth_token(s, stop, end, (n - 1) as nat)
        }
    }
}

/// The token with number `n`, counted from zero, in the piece `[from, end)`.
pub fn nth_token(s: &[char], from: usize, end: usize, n: usize) -> (token: Option<(usize, usize)>)
    requires
        from <= end <= s@.len(),
    ensures
        token.is_some() == spec_nth_token(s@, from as int, end as int, n as nat).is_some(),
        token matches Some(t) ==> spec_nth_token(s@, from as int, end as int, n as nat) == Some(
            (t.0 as int, t.1 as int),
        ) && from <= t.0 < t.1 <= end,
{
    let mut at: usize = from;
    let mut left: usize = n;
    loop
        invariant
            from <= at <= end <= s@.len(),
            left <= n,
            spec_nth_token(s@, at as int, end as int, left as nat) == spec_nth_token(
                s@,
                from as int,
                end as int,
                n as nat,
            ),
        decreases left,
    {
        let start: usize = skip_whitespace(s, at, end);
        if start >= end {
            return None;
        }
        let stop: usize = token_end(s, start, end);
        proof {
            lemma_token_end_bounds(s@, start as int, end as int);
            lemma_skip_whitespace_stops(s@, at as int, end as int);
        }
        if left == 0 {
            return Some((start, stop));
        }
        at = stop;
        left = left - 1;
    }
}

/// Where skipping white space stops before the end, no white space stands.
pub proof fn lemma_skip_whitespace_stops(s: Seq<char>, from: int, end: int)
    requires
        0 <= from <= end <= s.len(),
    ensures
        spec_skip_whitespace(s, from, end) < end ==> !spec_is_whitespace(
            s[spec_skip_whitespace(s, from, end)],
        ),
    decreases end - from,
{
    if from < end && spec_is_whitespace(s[from]) {
        lemma_skip_whitespace_stops(s, from + 1, end);
    }
}

/// The position at which the run of characters that are no white space and
/// end at `end` begins, not before `from`.
pub open spec fn spec_token_start(s: Seq<char>, from: int, end: int) -> int
    decreases end - from,
{
    if from < end && 0 < end <= s.len() && !spec_is_whitespace(s[end - 1]) {
        spec_token_start(s, from, end - 1)
    } else {
        end
    }
}

/// The last token of the piece `[from, end)`; `None` where the piece holds
/// white space only.
pub open spec fn spec_last_token(s: Seq<char>, from: int, end: int) -> Option<(int, int)> {
    let stop = spec_trim_end(s, from, end);
    if stop <= from {
        None
    } else {
        Some((spec_token_start(s, from, stop), stop))
    }
}

/// The last token of the piece `[from, end)`.
pub fn last_token(s: &[char], from: usize, end: usize) -> (token: Option<(usize, usize)>)
    requires
        from <= end <= s@.len(),
    ensures
        token.is_some() == spec_last_token(s@, from as int, end as int).is_some(),
        token matches Some(t) ==> spec_last_token(s@, from as int, end as int) == Some(
            (t.0 as int, t.1 as int),
        ) && from <= t.0 <= t.1 <= end,
{
    let mut stop: usize = end;
    while stop > from && is_whitespace(s[stop - 1])
        invariant
            from <= stop <= end <= s@.len(),
            spec_trim_end(s@, from as int, stop as int) == spec_trim_end(
                s@,
                from as int,
                end as int,
            ),
        decreases stop - from,
    {
        stop = stop - 1;
    }
    if stop <= from {
        return None;
    }
    let mut start: usize = stop;
    while start > from && !is_whitespace(s[start - 1])
        invariant
            from <= start <= stop <= s@.len(),
            spec_token_start(s@, from as int, start as int) == spec_token_start(
                s@,
                from as int,
                stop as int,
            ),
        decreases start - from,
    {
        start = start - 1;
    }
    Some((start, stop))
}

/// The line that begins at `from`: the position after its last character,
/// and the position at which the next line begins. A line ends before a line
/// feed, and before the carriage return that stands before the line feed.
pub open spec fn spec_next_line(s: Seq<char>, from: int) -> (int, int) {
    let feed = spec_find_char(s, '\n', from, s.len() as int);
    if feed >= s.len() {
        (feed, feed)
    } else if feed > from && s[feed - 1] == '\r' {
        (feed - 1, feed + 1)
    } else {
        (feed, feed + 1)
    }
}

/// The line that begins at `from`: the position after its last character,
/// and the position at which the next line begins.
pub fn next_line(s: &[char], from: usize) -> (bounds: (usize, usize))
    requires
        from < s@.len(),
    ensures
        (bounds.0 as int, bounds.1 as int) == spec_next_line(s@, from as int),
        from <= bounds.0 <= bounds.1 <= s@.len(),
        from < bounds.1,
{
    let feed: usize = find_char(s, '\n', from, s.len());
    if feed >= s.len() {
        (feed, feed)
    } else if feed > from && s[feed - 1] == '\r' {
        (feed - 1, feed + 1)
    } else {
        (feed, feed + 1)
    }
}

} // verus!