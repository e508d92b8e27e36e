//! Character-level text operations used on tool output and on field values.

use vstd::prelude::*;

verus! {

/// `String::push`: the string afterwards is the string before with `c` at its end.
#[verifier::external_body]
fn push_char(s: &mut String, c: char)
    ensures
        final(s)@ == old(s)@.push(c),
{
    s.push(c)
}

/// The characters of `text`, in order.
pub(crate) fn to_chars(text: &str) -> (chars: Vec<char>)
    ensures
        chars@ == text@,
{
    let mut chars: Vec<char> = Vec::new();
    for c in it: text.chars()
        invariant
            chars@ == it.seq().take(it.index() as int),
            it.seq() == text@,
    {
        chars.push(c);
    }
    chars
}

/// A string made of `chars[from..to]`.
pub(crate) fn from_chars(chars: &Vec<char>, from: usize, to: usize) -> (text: String)
    requires
        from <= to <= chars.len(),
    ensures
        text@ == chars@.subrange(from as int, to as int),
{
    let mut text = String::new();
    let mut i: usize = from;
    while i < to
        invariant
            from <= i <= to <= chars.len(),
            text@ == chars@.subrange(from as int, i as int),
        decreases to - i,
    {
        push_char(&mut text, chars[i]);
        i = i + 1;
    }
    text
}

/// `s` with every `from` replaced by `to`.
pub open spec fn replace_char(s: Seq<char>, from: char, to: char) -> Seq<char> {
    s.map_values(|c: char| if c == from { to } else { c })
}

/// The extraction tool's quasi-JSON turned into JSON: every literal
/// double quote becomes a single quote, then every U+0001, which the tool
/// was told to print in place of the quotes of the format, becomes a double quote.
pub open spec fn requote_spec(raw: Seq<char>) -> Seq<char> {
    replace_char(replace_char(raw, '"', '\''), '\u{1}', '"')
}

/// Turns the extraction tool's quasi-JSON into JSON text.
pub fn requote(raw: &str) -> (json: String)
    ensures
        json@ == requote_spec(raw@),
{
    let chars = to_chars(raw);
    let mut json = String::new();
    let mut i: usize = 0;
    while i < chars.len()
        invariant
            i <= chars.len(),
            chars@ == raw@,
            json@ == requote_spec(raw@).take(i as int),
        decreases chars.len() - i,
    {
        let c = chars[i];
        let out = if c == '"' {
            '\''
        } else if c == '\u{1}' {
            '"'
        } else {
            c
        };
        push_char(&mut json, out);
        i = i + 1;
    }
    json
}

/// `s` split at every line feed, as `str::split('\n')` splits: the pieces
/// hold no line feed, and there is one more piece than there are line feeds.
pub open spec fn split_lines(s: Seq<char>) -> Seq<Seq<char>>
    decreases s.len(),
{
    if s.len() == 0 {
        seq![Seq::<char>::empty()]
    } else {
        let before = split_lines(s.drop_last());
        if s.last() == '\n' {
            before.push(Seq::<char>::empty())
        } else {
            before.drop_last().push(before.last().push(s.last()))
        }
    }
}

/// The lines of `s` that hold at least one character, in order.
pub open spec fn non_empty_lines(s: Seq<char>) -> Seq<Seq<char>> {
    split_lines(s).filter(|line: Seq<char>| line.len() > 0)
}

/// The views of a sequence of strings.
pub open spec fn views(strings: Seq<String>) -> Seq<Seq<char>> {
    strings.map_values(|s: String| s@)
}

/// The pieces put together again, with a line feed between each two.
pub open spec fn join_lines(pieces: Seq<Seq<char>>) -> Seq<char>
    decreases pieces.len(),
{
    if pieces.len() == 0 {
        Seq::<char>::empty()
    } else if pieces.len() == 1 {
        pieces[0]
    } else {
        join_lines(pieces.drop_last()) + seq!['\n'] + pieces.last()
    }
}

/// What `split_lines` is: it gives at least one piece, no piece holds a line
/// feed, and the pieces joined by line feeds are `s` again.
pub proof fn lemma_split_lines(s: Seq<char>)
    ensures
        split_lines(s).len() >= 1,
        forall|i: int, j: int|
            0 <= i < split_lines(s).len() && 0 <= j < split_lines(s)[i].len() ==> split_lines(
                s,
            )[i][j] != '\n',
        join_lines(split_lines(s)) == s,
    decreases s.len(),
{
    if s.len() > 0 {
        let before = split_lines(s.drop_last());
        lemma_split_lines(s.drop_last());
        let c = s.last();
        if c == '\n' {
            let after = before.push(Seq::<char>::empty());
            assert(after.drop_last() =~= before);
        } else {
            let grown = before.last().push(c);
            let after = before.drop_last().push(grown);
            assert(after.drop_last() =~= before.drop_last());
            if before.len() > 1 {
                assert(join_lines(after) =~= join_lines(before).push(c));
            }
        }
    }
}

/// The non-empty lines of `text`, in order.
pub fn lines(text: &str) -> (out: Vec<String>)
    ensures
        views(out@) == non_empty_lines(text@),
{
    let chars = to_chars(text);
    let ghost keep = |line: Seq<char>| line.len() > 0;
    let mut out: Vec<String> = Vec::new();
    let mut start: usize = 0;
    let mut i: usize = 0;
    proof {
        reveal(Seq::filter);
    }
    while i < chars.len()
        invariant
            start <= i <= chars.len(),
            chars@ == text@,
            keep == (|line: Seq<char>| line.len() > 0),
            split_lines(chars@.take(i as int)).len() >= 1,
            split_lines(chars@.take(i as int)).last() == chars@.subrange(start as int, i as int),
            views(out@) == split_lines(chars@.take(i as int)).drop_last().filter(keep),
        decreases chars.len() - i,
    {
        let ghost before = split_lines(chars@.take(i as int));
        let ghost seen = chars@.take(i as int + 1);
        proof {
            assert(seen.drop_last() =~= chars@.take(i as int));
        }
        if chars[i] == '\n' {
            proof {
                assert(split_lines(seen).drop_last() =~= before);
                reveal(Seq::filter);
            }
            if start < i {
                out.push(from_chars(&chars, start, i));
            }
            start = i + 1;
        } else {
            proof {
                assert(split_lines(seen).drop_last() =~= before.drop_last());
            }
        }
        i = i + 1;
    }
    proof {
        assert(chars@.take(i as int) =~= text@);
        reveal(Seq::filter);
    }
    if start < i {
        out.push(from_chars(&chars, start, i));
    }
    out
}

/// Whether `c` is white space, as Unicode's `White_Space` property has it.
pub open spec fn is_whitespace(c: char) -> bool {
    ||| '\u{9}' <= c <= '\u{d}'
    ||| c == ' '
    ||| c == '\u{85}'
    ||| c == '\u{a0}'
    ||| c == '\u{1680}'
    ||| '\u{2000}' <= c <= '\u{200a}'
    ||| c == '\u{2028}'
    ||| c == '\u{2029}'
    ||| c == '\u{202f}'
    ||| c == '\u{205f}'
    ||| c == '\u{3000}'
}

/// `s` without the white space at its start.
pub open spec fn trim_start(s: Seq<char>) -> Seq<char>
    decreases s.len(),
{
    if s.len() > 0 && is_whitespace(s.first()) {
        trim_start(s.drop_first())
    } else {
        s
    }
}

/// `s` without the white space at its end.
pub open spec fn trim_end(s: Seq<char>) -> Seq<char>
    decreases s.len(),
{
    if s.len() > 0 && is_whitespace(s.last()) {
        trim_end(s.drop_last())
    } else {
        s
    }
}

/// `s` without the white space at either end.
pub open spec fn trim(s: Seq<char>) -> Seq<char> {
    trim_end(trim_start(s))
}

fn is_whitespace_char(c: char) -> (b: bool)
    ensures
        b == is_whitespace(c),
{
    ('\u{9}' <= c && c <= '\u{d}') || c == ' ' || c == '\u{85}' || c == '\u{a0}' || c == '\u{1680}'
        || ('\u{2000}' <= c && c <= '\u{200a}') || c == '\u{2028}' || c == '\u{2029}' || c
        == '\u{202f}' || c == '\u{205f}' || c == '\u{3000}'
}

/// The bounds of `trim(chars@)` within `chars`.
pub(crate) fn trim_bounds(chars: &Vec<char>) -> (bounds: (usize, usize))
    ensures
        bounds.0 <= bounds.1 <= chars.len(),
        chars@.subrange(bounds.0 as int, bounds.1 as int) == trim(chars@),
{
    let n = chars.len();
    let mut from: usize = 0;
    proof {
        assert(chars@.subrange(0, n as int) =~= chars@);
    }
    while from < n && is_whitespace_char(chars[from])
        invariant
            from <= n == chars.len(),
            trim_start(chars@) == trim_start(chars@.subrange(from as int, n as int)),
        decreases n - from,
    {
        proof {
            let rest = chars@.subrange(from as int, n as int);
            assert(rest.drop_first() =~= chars@.subrange(from as int + 1, n as int));
        }
        from = from + 1;
    }
    let mut to: usize = n;
    while from < to && is_whitespace_char(chars[to - 1])
        invariant
            from <= to <= n == chars.len(),
            trim_end(chars@.subrange(from as int, n as int)) == trim_end(
                chars@.subrange(from as int, to as int),
            ),
        decreases to - from,
    {
        proof {
            let rest = chars@.subrange(from as int, to as int);
            assert(rest.drop_last() =~= chars@.subrange(from as int, to as int - 1));
        }
        to = to - 1;
    }
    (from, to)
}

/// Whether `c` is a decimal digit.
pub open spec fn is_digit(c: char) -> bool {
    '0' <= c <= '9'
}

/// What the digit `c` stands for; 0 for any other character.
pub open spec fn digit_value(c: char) -> nat {
    if is_digit(c) {
        (c as u32 - '0' as u32) as nat
    } else {
        0
    }
}

/// The number that the digits of `s` write in base ten.
pub open spec fn decimal_value(s: Seq<char>) -> nat
    decreases s.len(),
{
    if s.len() == 0 {
        0
    } else {
        decimal_value(s.drop_last()) * 10 + digit_value(s.last())
    }
}

/// `s` without one leading plus sign.
pub open spec fn without_sign(s: Seq<char>) -> Seq<char> {
    if s.len() > 0 && s.first() == '+' {
        s.drop_first()
    } else {
        s
    }
}

/// Whether `s` holds decimal digits only.
pub open spec fn all_digits(s: Seq<char>) -> bool {
    forall|i: int| 0 <= i < s.len() ==> is_digit(#[trigger] s[i])
}

/// The unsigned number that `s` writes, as `str::parse` reads one: an
/// optional plus sign, then at least one decimal digit and nothing else, and
/// a value of at most `max`.
pub open spec fn parse_unsigned(s: Seq<char>, max: nat) -> Option<nat> {
    let digits = without_sign(s);
    if digits.len() > 0 && all_digits(digits) && decimal_value(digits) <= max {
        Some(decimal_value(digits))
    } else {
        None
    }
}

/// A longer numeral is worth at least as much as any of its prefixes.
pub proof fn lemma_decimal_value_grows(s: Seq<char>, k: int)
    requires
        0 <= k <= s.len(),
    ensures
        decimal_value(s.take(k)) <= decimal_value(s),
    decreases s.len(),
{
    if k == s.len() {
        assert(s.take(k) =~= s);
    } else {
        lemma_decimal_value_grows(s.drop_last(), k);
        assert(s.drop_last().take(k) =~= s.take(k));
    }
}

/// Reads `chars[from..to]` as an unsigned decimal number of at most `max`.
pub(crate) fn parse_decimal(chars: &Vec<char>, from: usize, to: usize, max: u64) -> (value: Option<u64>)
    requires
        from <= to <= chars.len(),
        max <= u32::MAX,
    ensures
        match value {
            Some(v) => parse_unsigned(chars@.subrange(from as int, to as int), max as nat) == Some(
                v as nat,
            ),
            None => parse_unsigned(chars@.subrange(from as int, to as int), max as nat) is None,
        },
{
    let start: usize = if from < to && chars[from] == '+' {
        from + 1
    } else {
        from
    };
    let ghost digits = without_sign(chars@.subrange(from as int, to as int));
    if start == to {
        return None;
    }
    let mut acc: u64 = 0;
    let mut i: usize = start;
    while i < to
        invariant
            from <= start <= i <= to <= chars.len(),
            max <= u32::MAX,
            digits == chars@.subrange(start as int, to as int),
            digits == without_sign(chars@.subrange(from as int, to as int)),
            all_digits(digits.take(i - start)),
            acc == decimal_value(digits.take(i - start)),
            acc <= max,
        decreases to - i,
    {
        let c = chars[i];
        let ghost next = digits.take(i - start + 1);
        proof {
            assert(next.drop_last() =~= digits.take(i - start));
        }
        if !('0' <= c && c <= '9') {
            proof {
                assert(!is_digit(digits[i - start]));
            }
            return None;
        }
        let d: u64 = (c as u32 - '0' as u32) as u64;
        let grown: u64 = acc * 10 + d;
        if grown > max {
            proof {
                lemma_decimal_value_grows(digits, i - start + 1);
            }
            return None;
        }
        proof {
            assert(all_digits(next));
        }
        acc = grown;
        i = i + 1;
    }
    proof {
        assert(digits.take(to - start) =~= digits);
    }
    Some(acc)
}

/// `c`, or its lower-case form where `c` is an upper-case ASCII letter.
pub open spec fn ascii_lower(c: char) -> char {
    if 'A' <= c <= 'Z' {
        ((c as u8 + 32) as u8) as char
    } else {
        c
    }
}

/// Whether `s` and `token` are the same once the ASCII letters of `s` are
/// brought to lower case.
pub open spec fn lower_case_is(s: Seq<char>, token: Seq<char>) -> bool {
    s.map_values(|c: char| ascii_lower(c)) == token
}

/// Compares `chars`, its ASCII letters brought to lower case, with `token`.
pub(crate) fn lower_case_eq(chars: &Vec<char>, token: &str) -> (same: bool)
    ensures
        same == lower_case_is(chars@, token@),
{
    let expected = to_chars(token);
    let ghost lowered = chars@.map_values(|c: char| ascii_lower(c));
    if chars.len() != expected.len() {
        return false;
    }
    let mut i: usize = 0;
    while i < chars.len()
        invariant
            i <= chars.len() == expected.len(),
            expected@ == token@,
            lowered == chars@.map_values(|c: char| ascii_lower(c)),
            lowered.take(i as int) == expected@.take(i as int),
        decreases chars.len() - i,
    {
        let c = chars[i];
        let low = if 'A' <= c && c <= 'Z' {
            ((c as u8 + 32) as u8) as char
        } else {
            c
        };
        if low != expected[i] {
            return false;
        }
        i = i + 1;
    }
    proof {
        assert(lowered.take(i as int) =~= lowered);
        assert(expected@.take(i as int) =~= expected@);
    }
    true
}

/// Whether `chars` begins with `prefix`.
pub(crate) fn starts_with(chars: &Vec<char>, prefix: &str) -> (found: bool)
    ensures
        found == prefix@.is_prefix_of(chars@),
{
    let expected = to_chars(prefix);
    if chars.len() < expected.len() {
        return false;
    }
    let mut i: usize = 0;
    while i < expected.len()
        invariant
            i <= expected.len() <= chars.len(),
            expected@ == prefix@,
            chars@.take(i as int) == expected@.take(i as int),
        decreases expected.len() - i,
    {
        if chars[i] != expected[i] {
            return false;
        }
        i = i + 1;
    }
    true
}

/// What stands before the first `#` of a line, or the whole line where it
/// has none.
pub fn uncomment(line: &str) -> (text: String)
    ensures
        text@.is_prefix_of(line@),
        !text@.contains('#'),
        text@.len() < line@.len() ==> line@[text@.len() as int] == '#',
{
    let chars = to_chars(line);
    let mut end: usize = 0;
    while end < chars.len() && chars[end] != '#'
        invariant
            end <= chars.len(),
            forall|j: int| 0 <= j < end ==> chars@[j] != '#',
        decreases chars.len() - end,
    {
        end = end + 1;
    }
    from_chars(&chars, 0, end)
}

} // verus!
