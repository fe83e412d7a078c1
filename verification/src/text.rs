//! Text as sequences of characters: the few string operations the rest of the crate is
//! written in.
use vstd::prelude::*;
use vstd::slice::slice_subrange;
use vstd::string::*;

verus! {

/// `String::push` appends one character.
pub assume_specification[ String::push ](s: &mut String, ch: char)
    ensures
        final(s)@ == old(s)@.push(ch),
;

/// What `Debug` writes for a string: its characters between double quotes, escaped.
pub uninterp spec fn debug_text(text: Seq<char>) -> Seq<char>;

/// `format!("{:?}")` of a string slice. `Debug` for `str` is a function of the characters
/// alone; its escaping table is not restated here.
#[verifier::external_body]
pub(crate) fn quoted(text: &str) -> (out: String)
    ensures
        out@ == debug_text(text@),
{
    format!("{:?}", text)
}

/// What bytes read as, with what is not UTF-8 replaced.
pub uninterp spec fn lossy_text(bytes: Seq<u8>) -> Seq<char>;

/// `String::from_utf8_lossy`: the text of the bytes where they are UTF-8. What it puts in
/// place of other bytes is a function of the bytes alone and is not restated here.
#[verifier::external_body]
pub(crate) fn utf8_lossy(bytes: &[u8]) -> (out: String)
    ensures
        out@ == lossy_text(bytes@),
        vstd::utf8::valid_utf8(bytes@) ==> out@ == vstd::utf8::decode_utf8(bytes@),
{
    String::from_utf8_lossy(bytes).into_owned()
}

/// The characters of `text`, in order.
pub fn chars_of(text: &str) -> (out: Vec<char>)
    ensures
        out@ == text@,
{
    let mut out: Vec<char> = Vec::new();
    for c in it: text.chars()
        invariant
            out@ == it.seq().take(it.index() as int),
    {
        out.push(c);
    }
    out
}

/// The string that spells `chars`.
pub fn string_of(chars: &[char]) -> (out: String)
    ensures
        out@ == chars@,
{
    let mut out: String = String::new();
    let mut i: usize = 0;
    while i < chars.len()
        invariant
            i <= chars@.len(),
            out@ == chars@.take(i as int),
        decreases chars@.len() - i,
    {
        out.push(chars[i]);
        i = i + 1;
        assert(chars@.take(i as int) =~= chars@.take(i - 1).push(chars@[i - 1]));
    }
    assert(chars@.take(i as int) =~= chars@);
    out
}

/// Whether two strings hold the same characters.
pub fn same_text(a: &str, b: &str) -> (same: bool)
    ensures
        same == (a@ == b@),
{
    a.to_owned() == b.to_owned()
}

/// Whether two character slices are the same text.
pub fn same_chars(a: &[char], b: &[char]) -> (same: bool)
    ensures
        same == (a@ == b@),
{
    if a.len() != b.len() {
        return false;
    }
    let mut i: usize = 0;
    while i < a.len()
        invariant
            i <= a@.len(),
            a@.len() == b@.len(),
            forall|k: int| 0 <= k < i ==> a@[k] == b@[k],
        decreases a@.len() - i,
    {
        if a[i] != b[i] {
            return false;
        }
        i = i + 1;
    }
    assert(a@ =~= b@);
    true
}

/// `a` followed by `b`.
pub fn join2(a: &str, b: &str) -> (out: String)
    ensures
        out@ == a@ + b@,
{
    let mut out: String = a.to_owned();
    out.append(b);
    out
}

/// `a`, `b` and `c`, one after the other.
pub fn join3(a: &str, b: &str, c: &str) -> (out: String)
    ensures
        out@ == a@ + b@ + c@,
{
    let mut out: String = join2(a, b);
    out.append(c);
    out
}

/// Four pieces, one after the other.
pub fn join4(a: &str, b: &str, c: &str, d: &str) -> (out: String)
    ensures
        out@ == a@ + b@ + c@ + d@,
{
    let mut out: String = join3(a, b, c);
    out.append(d);
    out
}

/// Five pieces, one after the other.
pub fn join5(a: &str, b: &str, c: &str, d: &str, e: &str) -> (out: String)
    ensures
        out@ == a@ + b@ + c@ + d@ + e@,
{
    let mut out: String = join4(a, b, c, d);
    out.append(e);
    out
}

/// Whether `text` begins with `prefix`.
pub open spec fn begins(text: Seq<char>, prefix: Seq<char>) -> bool {
    text.len() >= prefix.len() && text.take(prefix.len() as int) == prefix
}

/// Whether `text` begins with `prefix`.
pub fn begins_with(text: &[char], prefix: &[char]) -> (yes: bool)
    ensures
        yes == begins(text@, prefix@),
{
    if text.len() < prefix.len() {
        return false;
    }
    let head = slice_subrange(text, 0, prefix.len());
    assert(head@ =~= text@.take(prefix@.len() as int));
    same_chars(head, prefix)
}

/// What follows `prefix` in `text`, where `text` begins with it.
pub fn strip_prefix(text: &str, prefix: &str) -> (rest: Option<String>)
    ensures
        rest is Some <==> begins(text@, prefix@),
        rest matches Some(r) ==> r@ == text@.skip(prefix@.len() as int),
{
    let t: Vec<char> = chars_of(text);
    let p: Vec<char> = chars_of(prefix);
    if begins_with(t.as_slice(), p.as_slice()) {
        let tail = slice_subrange(t.as_slice(), p.len(), t.len());
        assert(tail@ =~= text@.skip(prefix@.len() as int));
        Some(string_of(tail))
    } else {
        None
    }
}

/// Whether `needle` stands at position `at` of `text`.
pub open spec fn stands_at(text: Seq<char>, needle: Seq<char>, at: int) -> bool {
    0 <= at && at + needle.len() <= text.len() && text.subrange(at, at + needle.len()) == needle
}

/// Whether `needle` occurs in `text`.
pub open spec fn occurs(text: Seq<char>, needle: Seq<char>) -> bool {
    exists|at: int| stands_at(text, needle, at)
}

/// Whether `needle` occurs in `text`.
pub fn contains_text(text: &str, needle: &str) -> (yes: bool)
    ensures
        yes == occurs(text@, needle@),
{
    let t: Vec<char> = chars_of(text);
    let n: Vec<char> = chars_of(needle);
    if n.len() > t.len() {
        return false;
    }
    let total: usize = t.len();
    let width: usize = n.len();
    let last: usize = total - width;
    let mut at: usize = 0;
    loop
        invariant
            t@ == text@,
            n@ == needle@,
            total == t@.len(),
            width == n@.len(),
            last == total - width,
            at <= last,
            forall|k: int| 0 <= k < at ==> !stands_at(text@, needle@, k),
        decreases last - at,
    {
        let window = slice_subrange(t.as_slice(), at, at + width);
        if same_chars(window, n.as_slice()) {
            assert(stands_at(text@, needle@, at as int));
            return true;
        }
        if at == last {
            assert(forall|k: int| 0 <= k <= last ==> !stands_at(text@, needle@, k));
            return false;
        }
        at = at + 1;
    }
}

/// The first position of `c` in `text`, or its length.
pub open spec fn first_of(text: Seq<char>, c: char) -> int
    decreases text.len(),
{
    if text.len() == 0 {
        0
    } else if text[0] == c {
        0
    } else {
        1 + first_of(text.drop_first(), c)
    }
}

/// `first_of` is where `c` stands first: `c` is not before it, and is there unless the
/// text ran out.
pub proof fn lemma_first_of(text: Seq<char>, c: char)
    ensures
        0 <= first_of(text, c) <= text.len(),
        forall|k: int| 0 <= k < first_of(text, c) ==> text[k] != c,
        first_of(text, c) < text.len() ==> text[first_of(text, c)] == c,
    decreases text.len(),
{
    if text.len() > 0 && text[0] != c {
        let rest = text.drop_first();
        lemma_first_of(rest, c);
        assert forall|k: int| 0 <= k < first_of(text, c) implies text[k] != c by {
            if k > 0 {
                assert(rest[k - 1] == text[k]);
            }
        }
    }
}

/// A position that `c` does not stand before, and stands at unless the text ran out, is
/// `first_of`.
pub proof fn lemma_first_of_is(text: Seq<char>, c: char, at: int)
    requires
        0 <= at <= text.len(),
        forall|k: int| 0 <= k < at ==> text[k] != c,
        at < text.len() ==> text[at] == c,
    ensures
        first_of(text, c) == at,
{
    lemma_first_of(text, c);
    let f = first_of(text, c);
    if f < at {
        assert(text[f] != c);
    }
    if at < f {
        assert(text[at] != c);
    }
}

/// The first position of `c` in `text`, or its length.
pub fn position_of(text: &[char], c: char) -> (at: usize)
    ensures
        at == first_of(text@, c),
        at <= text@.len(),
{
    let mut at: usize = 0;
    while at < text.len()
        invariant
            at <= text@.len(),
            forall|k: int| 0 <= k < at ==> text@[k] != c,
        decreases text@.len() - at,
    {
        if text[at] == c {
            proof {
                lemma_first_of_is(text@, c, at as int);
            }
            return at;
        }
        at = at + 1;
    }
    proof {
        lemma_first_of_is(text@, c, at as int);
    }
    at
}

/// `text` cut at every `c`, the cuts themselves left out.
pub open spec fn pieces(text: Seq<char>, c: char) -> Seq<Seq<char>>
    decreases text.len(),
{
    let at = first_of(text, c);
    if 0 <= at < text.len() {
        seq![text.take(at)] + pieces(text.skip(at + 1), c)
    } else {
        seq![text]
    }
}

/// The views of a list of strings.
pub open spec fn texts(list: Seq<String>) -> Seq<Seq<char>> {
    list.map_values(|s: String| s@)
}

/// `text` cut at every `c`.
pub fn split_at_each(text: &[char], c: char) -> (out: Vec<String>)
    ensures
        texts(out@) == pieces(text@, c),
        out@.len() >= 1,
{
    let mut out: Vec<String> = Vec::new();
    let mut from: usize = 0;
    assert(text@.skip(0) =~= text@);
    assert(texts(out@) + pieces(text@, c) =~= pieces(text@, c));
    loop
        invariant
            from <= text@.len(),
            texts(out@) + pieces(text@.skip(from as int), c) == pieces(text@, c),
        decreases text@.len() - from,
    {
        let rest = slice_subrange(text, from, text.len());
        let ghost suffix = text@.skip(from as int);
        assert(rest@ =~= suffix);
        let at: usize = position_of(rest, c);
        let ghost before = texts(out@);
        let head = slice_subrange(rest, 0, at);
        assert(head@ =~= suffix.take(at as int));
        out.push(string_of(head));
        assert(texts(out@) =~= before.push(suffix.take(at as int)));
        if at < rest.len() {
            assert(pieces(suffix, c) == seq![suffix.take(at as int)] + pieces(
                suffix.skip(at + 1),
                c,
            ));
            from = from + at + 1;
            assert(suffix.skip(at + 1) =~= text@.skip(from as int));
            assert(before + (seq![suffix.take(at as int)] + pieces(suffix.skip(at + 1), c))
                =~= texts(out@) + pieces(suffix.skip(at + 1), c));
        } else {
            assert(suffix.take(at as int) =~= suffix);
            assert(pieces(suffix, c) == seq![suffix]);
            assert(before + seq![suffix] =~= texts(out@));
            return out;
        }
    }
}

/// The lines of `text`: each ends at a line feed, which is left out with a carriage return
/// right before it; what follows the last line feed is a line only if it is not empty.
pub open spec fn lines(text: Seq<char>) -> Seq<Seq<char>>
    decreases text.len(),
{
    let at = first_of(text, '\n');
    if text.len() == 0 {
        seq![]
    } else if 0 <= at < text.len() {
        let body = if at > 0 && text[at - 1] == '\r' {
            text.take(at - 1)
        } else {
            text.take(at)
        };
        seq![body] + lines(text.skip(at + 1))
    } else {
        seq![text]
    }
}

/// The lines of `text`.
pub fn lines_of(text: &[char]) -> (out: Vec<String>)
    ensures
        texts(out@) == lines(text@),
{
    let mut out: Vec<String> = Vec::new();
    let mut from: usize = 0;
    assert(text@.skip(0) =~= text@);
    assert(texts(out@) + lines(text@) =~= lines(text@));
    while from < text.len()
        invariant
            from <= text@.len(),
            texts(out@) + lines(text@.skip(from as int)) == lines(text@),
        decreases text@.len() - from,
    {
        let rest = slice_subrange(text, from, text.len());
        let ghost suffix = text@.skip(from as int);
        assert(rest@ =~= suffix);
        let at: usize = position_of(rest, '\n');
        let ghost before = texts(out@);
        if at < rest.len() {
            let end: usize = if at > 0 && rest[at - 1] == '\r' {
                at - 1
            } else {
                at
            };
            let body = slice_subrange(rest, 0, end);
            assert(body@ =~= suffix.take(end as int));
            out.push(string_of(body));
            assert(texts(out@) =~= before.push(suffix.take(end as int)));
            from = from + at + 1;
            assert(suffix.skip(at + 1) =~= text@.skip(from as int));
            assert(before + (seq![suffix.take(end as int)] + lines(suffix.skip(at + 1)))
                =~= texts(out@) + lines(suffix.skip(at + 1)));
        } else {
            out.push(string_of(rest));
            assert(texts(out@) =~= before.push(suffix));
            assert(before + seq![suffix] =~= texts(out@));
            from = text.len();
            assert(text@.skip(from as int) =~= Seq::empty());
            assert(texts(out@) + lines(text@.skip(from as int)) =~= texts(out@));
        }
    }
    assert(text@.skip(from as int) =~= Seq::empty());
    assert(texts(out@) + lines(text@.skip(from as int)) =~= texts(out@));
    out
}

/// The characters Unicode calls white space.
pub open spec fn is_white(c: char) -> bool {
    c == ' ' || '\u{9}' <= c <= '\u{d}' || c == '\u{85}' || c == '\u{a0}' || c == '\u{1680}' || '\u{2000}' <= c
        <= '\u{200a}' || c == '\u{2028}' || c == '\u{2029}' || c == '\u{202f}' || c == '\u{205f}' || c
        == '\u{3000}'
}

/// Whether `c` is white space.
pub fn white(c: char) -> (yes: bool)
    ensures
        yes == is_white(c),
{
    c == ' ' || ('\u{9}' <= c && c <= '\u{d}') || c == '\u{85}' || c == '\u{a0}' || c == '\u{1680}' || ('\u{2000}'
        <= c && c <= '\u{200a}') || c == '\u{2028}' || c == '\u{2029}' || c == '\u{202f}' || c == '\u{205f}' || c
        == '\u{3000}'
}

/// `text` without the white space at its end.
pub open spec fn trimmed_end(text: Seq<char>) -> Seq<char>
    decreases text.len(),
{
    if text.len() > 0 && is_white(text.last()) {
        trimmed_end(text.drop_last())
    } else {
        text
    }
}

/// `text` without the white space at its start.
pub open spec fn trimmed_start(text: Seq<char>) -> Seq<char>
    decreases text.len(),
{
    if text.len() > 0 && is_white(text[0]) {
        trimmed_start(text.drop_first())
    } else {
        text
    }
}

/// `text` without the white space at either end.
pub open spec fn trimmed(text: Seq<char>) -> Seq<char> {
    trimmed_end(trimmed_start(text))
}

/// `text` without the white space at either end.
pub fn trim<'a>(text: &'a [char]) -> (out: &'a [char])
    ensures
        out@ == trimmed(text@),
{
    let mut lo: usize = 0;
    assert(text@.skip(0) =~= text@);
    while lo < text.len() && white(text[lo])
        invariant
            lo <= text@.len(),
            trimmed_start(text@.skip(lo as int)) == trimmed_start(text@),
        decreases text@.len() - lo,
    {
        assert(text@.skip(lo as int).drop_first() =~= text@.skip(lo + 1));
        lo = lo + 1;
    }
    let ghost body = text@.skip(lo as int);
    assert(trimmed_start(text@) == body);
    let mut hi: usize = text.len();
    assert(text@.subrange(lo as int, hi as int) =~= body);
    while hi > lo && white(text[hi - 1])
        invariant
            lo <= hi <= text@.len(),
            trimmed_end(text@.subrange(lo as int, hi as int)) == trimmed_end(body),
        decreases hi,
    {
        assert(text@.subrange(lo as int, hi as int).drop_last() =~= text@.subrange(
            lo as int,
            hi - 1,
        ));
        hi = hi - 1;
    }
    slice_subrange(text, lo, hi)
}

/// The decimal digit of `d`.
pub open spec fn digit(d: nat) -> char {
    ((48 + d) as u8) as char
}

/// `n` in decimal.
pub open spec fn decimal(n: nat) -> Seq<char>
    decreases n,
{
    if n < 10 {
        seq![digit(n)]
    } else {
        decimal(n / 10).push(digit(n % 10))
    }
}

/// `n` in decimal, with a minus sign where it is negative.
pub open spec fn decimal_int(n: int) -> Seq<char> {
    if n < 0 {
        seq!['-'] + decimal((-n) as nat)
    } else {
        decimal(n as nat)
    }
}

/// `n` in decimal.
pub fn decimal_u64(n: u64) -> (out: String)
    ensures
        out@ == decimal(n as nat),
    decreases n,
{
    let d: u8 = (n % 10) as u8;
    let c: char = (48 + d) as char;
    if n < 10 {
        let mut out: String = String::new();
        out.push(c);
        assert(out@ =~= seq![digit(n as nat)]);
        out
    } else {
        let mut out: String = decimal_u64(n / 10);
        out.push(c);
        out
    }
}

/// `n` in decimal.
pub fn decimal_i64(n: i64) -> (out: String)
    ensures
        out@ == decimal_int(n as int),
{
    if n < 0 {
        let magnitude: u64 = if n == i64::MIN {
            0x8000_0000_0000_0000
        } else {
            (-n) as u64
        };
        let digits: String = decimal_u64(magnitude);
        let mut out: String = String::new();
        out.push('-');
        out.append(digits.as_str());
        assert(out@ =~= decimal_int(n as int));
        out
    } else {
        decimal_u64(n as u64)
    }
}

/// Whether `c` is a decimal digit.
pub open spec fn is_digit(c: char) -> bool {
    '0' <= c <= '9'
}

/// The number a run of decimal digits spells.
pub open spec fn digits_value(text: Seq<char>) -> nat
    decreases text.len(),
{
    if text.len() == 0 {
        0
    } else {
        10 * digits_value(text.drop_last()) + (text.last() as nat - 48) as nat
    }
}

/// Whether `text` is one or more decimal digits.
pub open spec fn all_digits(text: Seq<char>) -> bool {
    text.len() > 0 && forall|i: int| 0 <= i < text.len() ==> is_digit(#[trigger] text[i])
}

/// A longer run of digits never spells a smaller number.
proof fn lemma_digits_grow(text: Seq<char>, n: int)
    requires
        0 <= n <= text.len(),
        forall|i: int| 0 <= i < text.len() ==> is_digit(#[trigger] text[i]),
    ensures
        digits_value(text.take(n)) <= digits_value(text),
    decreases text.len() - n,
{
    if n < text.len() {
        lemma_digits_grow(text, n + 1);
        let longer = text.take(n + 1);
        assert(longer.drop_last() =~= text.take(n));
        assert(longer.last() == text[n]);
    } else {
        assert(text.take(n) =~= text);
    }
}

/// The number that a run of decimal digits spells, where it is at most `max`.
pub fn parse_digits(text: &[char], max: u64) -> (out: Option<u64>)
    ensures
        out is Some <==> all_digits(text@) && digits_value(text@) <= max,
        out matches Some(v) ==> v == digits_value(text@),
{
    if text.len() == 0 {
        return None;
    }
    let mut i: usize = 0;
    while i < text.len()
        invariant
            i <= text@.len(),
            forall|k: int| 0 <= k < i ==> is_digit(#[trigger] text@[k]),
        decreases text@.len() - i,
    {
        if text[i] < '0' || text[i] > '9' {
            assert(!is_digit(text@[i as int]));
            return None;
        }
        i = i + 1;
    }
    let mut value: u64 = 0;
    let mut k: usize = 0;
    assert(text@.take(0) =~= Seq::empty());
    while k < text.len()
        invariant
            k <= text@.len(),
            text@.len() > 0,
            all_digits(text@),
            value == digits_value(text@.take(k as int)),
            value <= max,
        decreases text@.len() - k,
    {
        assert(is_digit(text@[k as int]));
        let d: u64 = (text[k] as u32 - 48) as u64;
        proof {
            assert(text@.take(k + 1).drop_last() =~= text@.take(k as int));
            assert(text@.take(k + 1).last() == text@[k as int]);
            lemma_digits_grow(text@, k + 1);
        }
        if value > (u64::MAX - d) / 10 {
            return None;
        }
        value = value * 10 + d;
        if value > max {
            return None;
        }
        k = k + 1;
    }
    assert(text@.take(k as int) =~= text@);
    Some(value)
}

/// Whether `text` is how an unsigned number may be written: digits, with or without a plus
/// sign before them.
pub open spec fn unsigned_digits(text: Seq<char>) -> Seq<char> {
    if text.len() > 0 && text[0] == '+' {
        text.drop_first()
    } else {
        text
    }
}

/// The number that `text` spells as an unsigned 64-bit number.
pub open spec fn reads_u64(text: Seq<char>) -> Option<u64> {
    let body = unsigned_digits(text);
    if all_digits(body) && digits_value(body) <= u64::MAX {
        Some(digits_value(body) as u64)
    } else {
        None
    }
}

/// Reads an unsigned 64-bit number.
pub fn parse_u64(text: &[char]) -> (out: Option<u64>)
    ensures
        out == reads_u64(text@),
{
    if text.len() > 0 && text[0] == '+' {
        let body = slice_subrange(text, 1, text.len());
        assert(body@ =~= text@.drop_first());
        parse_digits(body, u64::MAX)
    } else {
        parse_digits(text, u64::MAX)
    }
}

/// The number that `text` spells as a signed number no further from zero than the 64-bit
/// range allows.
pub open spec fn reads_int(text: Seq<char>, lo: int, hi: int) -> Option<int> {
    if text.len() > 0 && text[0] == '-' {
        let body = text.drop_first();
        if all_digits(body) && -digits_value(body) >= lo {
            Some(-digits_value(body) as int)
        } else {
            None
        }
    } else {
        let body = unsigned_digits(text);
        if all_digits(body) && digits_value(body) <= hi {
            Some(digits_value(body) as int)
        } else {
            None
        }
    }
}

/// Reads a signed 64-bit number.
pub fn parse_i64(text: &[char]) -> (out: Option<i64>)
    ensures
        out is Some <==> reads_int(text@, i64::MIN as int, i64::MAX as int) is Some,
        out matches Some(v) ==> reads_int(text@, i64::MIN as int, i64::MAX as int) == Some(
            v as int,
        ),
{
    if text.len() > 0 && text[0] == '-' {
        let body = slice_subrange(text, 1, text.len());
        assert(body@ =~= text@.drop_first());
        match parse_digits(body, 0x8000_0000_0000_0000) {
            Some(v) => {
                if v == 0x8000_0000_0000_0000 {
                    Some(i64::MIN)
                } else {
                    Some(-(v as i64))
                }
            },
            None => None,
        }
    } else if text.len() > 0 && text[0] == '+' {
        let body = slice_subrange(text, 1, text.len());
        assert(body@ =~= text@.drop_first());
        match parse_digits(body, 0x7fff_ffff_ffff_ffff) {
            Some(v) => Some(v as i64),
            None => None,
        }
    } else {
        match parse_digits(text, 0x7fff_ffff_ffff_ffff) {
            Some(v) => Some(v as i64),
            None => None,
        }
    }
}

/// Reads a signed 32-bit number.
pub fn parse_i32(text: &[char]) -> (out: Option<i32>)
    ensures
        out is Some <==> reads_int(text@, i32::MIN as int, i32::MAX as int) is Some,
        out matches Some(v) ==> reads_int(text@, i32::MIN as int, i32::MAX as int) == Some(
            v as int,
        ),
{
    match parse_i64(text) {
        Some(v) => if -0x8000_0000 <= v && v <= 0x7fff_ffff {
            Some(v as i32)
        } else {
            None
        },
        None => None,
    }
}

/// The lower-case hexadecimal digit of `d`.
pub open spec fn hex_digit(d: nat) -> char {
    if d < 10 {
        ((48 + d) as u8) as char
    } else {
        ((87 + d) as u8) as char
    }
}

/// The lower-case hexadecimal digit of `d`.
pub fn hex_digit_of(d: u8) -> (c: char)
    requires
        d < 16,
    ensures
        c == hex_digit(d as nat),
{
    if d < 10 {
        (48 + d) as char
    } else {
        (87 + d) as char
    }
}

/// The last `width` hexadecimal digits of `n`.
pub open spec fn hex_padded(n: nat, width: nat) -> Seq<char>
    decreases width,
{
    if width == 0 {
        seq![]
    } else {
        hex_padded(n / 16, (width - 1) as nat).push(hex_digit(n % 16))
    }
}

/// The last `width` hexadecimal digits of `n`, leading zeros kept.
pub fn hex_padded_u64(n: u64, width: u8) -> (out: String)
    ensures
        out@ == hex_padded(n as nat, width as nat),
    decreases width,
{
    if width == 0 {
        let out: String = String::new();
        assert(out@ =~= seq![]);
        out
    } else {
        let mut out: String = hex_padded_u64(n / 16, width - 1);
        out.push(hex_digit_of((n % 16) as u8));
        out
    }
}

/// What an optional text holds.
pub open spec fn opt(text: Option<&str>) -> Option<Seq<char>> {
    match text {
        Some(t) => Some(t@),
        None => None,
    }
}

/// What an optional text holds.
pub open spec fn opt_string(text: Option<String>) -> Option<Seq<char>> {
    match text {
        Some(t) => Some(t@),
        None => None,
    }
}

/// Where a character stands first: right behind a text that does not hold it, whatever follows.
pub proof fn law_the_first_of_a_character(head: Seq<char>, c: char, rest: Seq<char>)
    requires
        forall|i: int| 0 <= i < head.len() ==> #[trigger] head[i] != c,
    ensures
        first_of(head, c) == head.len(),
        first_of(head + seq![c] + rest, c) == head.len(),
{
    lemma_first_of_is(head, c, head.len() as int);
    let all = head + seq![c] + rest;
    assert(forall|k: int| 0 <= k < head.len() ==> #[trigger] all[k] == head[k]);
    lemma_first_of_is(all, c, head.len() as int);
}

/// What a text is cut into: a text without the cut is one piece, and one more piece stands
/// before each cut.
pub proof fn law_a_cut_ends_a_piece(head: Seq<char>, c: char, rest: Seq<char>)
    requires
        forall|i: int| 0 <= i < head.len() ==> #[trigger] head[i] != c,
    ensures
        pieces(head, c) == seq![head],
        pieces(head + seq![c] + rest, c) == seq![head] + pieces(rest, c),
{
    law_the_first_of_a_character(head, c, rest);
    let all = head + seq![c] + rest;
    assert(all.take(head.len() as int) =~= head);
    assert(all.skip(head.len() as int + 1) =~= rest);
}

/// What the lines of a text are: a line is what stands before a line end, which is a line feed
/// with or without a carriage return before it; a last line needs no end, and an empty text has
/// no line.
pub proof fn law_a_line_end_ends_a_line(line: Seq<char>, rest: Seq<char>)
    requires
        forall|i: int| 0 <= i < line.len() ==> #[trigger] line[i] != '\n',
    ensures
        lines(seq![]).len() == 0,
        line.len() > 0 ==> lines(line) == seq![line],
        line.len() == 0 || line.last() != '\r' ==> lines(line + seq!['\n'] + rest) == seq![line]
            + lines(rest),
        lines(line + seq!['\r', '\n'] + rest) == seq![line] + lines(rest),
{
    law_the_first_of_a_character(line, '\n', rest);
    let all = line + seq!['\n'] + rest;
    let n = line.len() as int;
    assert(all.take(n) =~= line);
    assert(all.skip(n + 1) =~= rest);
    if n > 0 {
        assert(all[n - 1] == line.last());
    }
    let returned = line.push('\r');
    law_the_first_of_a_character(returned, '\n', rest);
    let long = line + seq!['\r', '\n'] + rest;
    assert(long =~= returned + seq!['\n'] + rest);
    assert(long[n] == '\r');
    assert(long.take(n) =~= line);
    assert(long.skip(n + 2) =~= rest);
}

/// What a trim takes: the white space before a text and behind it, and nothing of the text.
pub proof fn law_a_trim_takes_what_surrounds(before: Seq<char>, body: Seq<char>, behind: Seq<char>)
    requires
        forall|i: int| 0 <= i < before.len() ==> is_white(#[trigger] before[i]),
        forall|i: int| 0 <= i < behind.len() ==> is_white(#[trigger] behind[i]),
        body.len() > 0 ==> !is_white(body[0]) && !is_white(body.last()),
    ensures
        trimmed(before + body + behind) == body,
    decreases before.len() + behind.len(),
{
    let all = before + body + behind;
    if before.len() > 0 {
        let fewer = before.drop_first();
        assert(all[0] == before[0]);
        assert(all.drop_first() =~= fewer + body + behind);
        assert(forall|i: int| 0 <= i < fewer.len() ==> #[trigger] fewer[i] == before[i + 1]);
        law_a_trim_takes_what_surrounds(fewer, body, behind);
    } else if body.len() > 0 {
        assert(all[0] == body[0]);
        assert(trimmed_start(all) == all);
        assert(all =~= body + behind);
        lemma_trimmed_end(body, behind);
    } else {
        assert(all =~= behind);
        lemma_all_white(behind);
        assert(body =~= seq![]);
    }
}

proof fn lemma_trimmed_end(body: Seq<char>, behind: Seq<char>)
    requires
        forall|i: int| 0 <= i < behind.len() ==> is_white(#[trigger] behind[i]),
        body.len() > 0,
        !is_white(body.last()),
    ensures
        trimmed_end(body + behind) == body,
    decreases behind.len(),
{
    if behind.len() > 0 {
        let fewer = behind.drop_last();
        assert((body + behind).last() == behind[behind.len() - 1]);
        assert((body + behind).drop_last() =~= body + fewer);
        assert(forall|i: int| 0 <= i < fewer.len() ==> #[trigger] fewer[i] == behind[i]);
        lemma_trimmed_end(body, fewer);
    } else {
        assert(body + behind =~= body);
    }
}

proof fn lemma_all_white(text: Seq<char>)
    requires
        forall|i: int| 0 <= i < text.len() ==> is_white(#[trigger] text[i]),
    ensures
        trimmed_start(text) == Seq::<char>::empty(),
    decreases text.len(),
{
    if text.len() > 0 {
        let fewer = text.drop_first();
        assert(is_white(text[0]));
        assert(forall|i: int| 0 <= i < fewer.len() ==> #[trigger] fewer[i] == text[i + 1]);
        lemma_all_white(fewer);
    } else {
        assert(text =~= Seq::empty());
    }
}

/// A number written in decimal reads back as itself, has no leading zero, and no character but
/// digits.
pub proof fn law_a_decimal_reads_back(n: nat)
    ensures
        all_digits(decimal(n)),
        digits_value(decimal(n)) == n,
        n > 0 ==> decimal(n)[0] != '0',
        n == 0 ==> decimal(n) == seq!['0'],
        n <= u64::MAX ==> reads_u64(decimal(n)) == Some(n as u64),
        n <= u64::MAX ==> reads_u64(seq!['+'] + decimal(n)) == Some(n as u64),
        forall|lo: int, hi: int|
            0 <= n <= hi ==> #[trigger] reads_int(decimal(n), lo, hi) == Some(n as int),
        forall|lo: int, hi: int|
            lo <= -n && n > 0 ==> #[trigger] reads_int(decimal_int(-n), lo, hi) == Some(-n),
    decreases n,
{
    let text = decimal(n);
    if n < 10 {
        let c = digit(n);
        assert(c as nat == 48 + n);
        assert(text[0] == c);
        assert(text.drop_last() =~= seq![]);
        assert(digits_value(text.drop_last()) == 0);
    } else {
        law_a_decimal_reads_back(n / 10);
        let c = digit(n % 10);
        assert(c as nat == 48 + n % 10);
        let init = decimal(n / 10);
        assert(text.drop_last() =~= init);
        assert(text.last() == c);
        assert(text[0] == init[0]);
        assert forall|i: int| 0 <= i < text.len() implies is_digit(#[trigger] text[i]) by {
            if i < init.len() {
                assert(is_digit(init[i]));
            }
        }
    }
    assert(is_digit(text[0]));
    let signed = seq!['+'] + text;
    assert(signed.drop_first() =~= text);
    if n > 0 {
        let negative = seq!['-'] + text;
        assert(decimal_int(-n) == negative);
        assert(negative.drop_first() =~= text);
    }
}

/// A number is padded to a width of hexadecimal digits: one digit each, the last that of the
/// number's last four bits, the others those of the rest.
pub proof fn law_hex_digits_follow_each_other(n: nat, d: nat, width: nat)
    requires
        d < 16,
    ensures
        hex_padded(n, width).len() == width,
        hex_padded(16 * n + d, width + 1) == hex_padded(n, width).push(hex_digit(d)),
        d < 10 ==> hex_digit(d) as nat == '0' as nat + d,
        d >= 10 ==> hex_digit(d) as nat == 'a' as nat + (d - 10),
    decreases width,
{
    assert((16 * n + d) / 16 == n && (16 * n + d) % 16 == d);
    if width > 0 {
        law_hex_digits_follow_each_other(n / 16, n % 16, (width - 1) as nat);
    }
}

/// Where a text begins with another it is that text and what is left; a text stands in another
/// wherever something stands before and behind it.
pub proof fn law_a_text_stands_where_it_was_put(before: Seq<char>, needle: Seq<char>, behind: Seq<char>)
    ensures
        begins(needle + behind, needle),
        (needle + behind).skip(needle.len() as int) == behind,
        occurs(before + needle + behind, needle),
{
    assert((needle + behind).take(needle.len() as int) =~= needle);
    assert((needle + behind).skip(needle.len() as int) =~= behind);
    let at = before.len() as int;
    assert((before + needle + behind).subrange(at, at + needle.len()) =~= needle);
    assert(stands_at(before + needle + behind, needle, at));
}

/// A last piece is what stands behind the last cut; the pieces before it are those of the text
/// before that cut.
pub proof fn law_the_last_piece_follows_the_last_cut(text: Seq<char>, c: char, last: Seq<char>)
    requires
        forall|i: int| 0 <= i < last.len() ==> #[trigger] last[i] != c,
    ensures
        pieces(text + seq![c] + last, c) == pieces(text, c).push(last),
    decreases text.len(),
{
    lemma_first_of(text, c);
    let at = first_of(text, c);
    if at < text.len() {
        let head = text.take(at);
        let rest = text.skip(at + 1);
        assert(text =~= head + seq![c] + rest);
        assert(forall|i: int| 0 <= i < head.len() ==> #[trigger] head[i] == text[i]);
        law_a_cut_ends_a_piece(head, c, rest);
        law_a_cut_ends_a_piece(head, c, rest + seq![c] + last);
        assert(text + seq![c] + last =~= head + seq![c] + (rest + seq![c] + last));
        law_the_last_piece_follows_the_last_cut(rest, c, last);
        assert(seq![head] + pieces(rest, c).push(last) =~= (seq![head] + pieces(rest, c)).push(
            last,
        ));
    } else {
        assert(forall|i: int| 0 <= i < text.len() ==> #[trigger] text[i] != c);
        law_a_cut_ends_a_piece(text, c, last);
        law_a_cut_ends_a_piece(last, c, seq![]);
        assert(seq![text] + seq![last] =~= seq![text].push(last));
    }
}

/// What a run of digits spells: each further digit is worth itself, and ten times what stood
/// before it.
pub proof fn law_a_digit_more_is_ten_times_as_much(text: Seq<char>, c: char)
    requires
        '0' <= c <= '9',
    ensures
        digits_value(seq![]) == 0,
        digits_value(text.push(c)) == 10 * digits_value(text) + (c as nat - '0' as nat),
        all_digits(text.push(c)) <==> text.len() == 0 || all_digits(text),
{
    assert(text.push(c).drop_last() =~= text);
    if all_digits(text) {
        assert forall|i: int| 0 <= i < text.len() + 1 implies is_digit(
            #[trigger] text.push(c)[i],
        ) by {
            if i < text.len() {
                assert(is_digit(text[i]));
            }
        }
    }
    if all_digits(text.push(c)) && text.len() > 0 {
        assert forall|i: int| 0 <= i < text.len() implies is_digit(#[trigger] text[i]) by {
            assert(is_digit(text.push(c)[i]));
        }
    }
}

/// What reads as a number: one or more digits within the range, with a plus sign before them or
/// none, and with a minus sign where the range goes below zero; nothing else does.
pub proof fn law_only_digits_read_as_a_number(text: Seq<char>, lo: int, hi: int)
    ensures
        all_digits(text) ==> reads_u64(text) == reads_u64(seq!['+'] + text),
        all_digits(text) && digits_value(text) <= 0xffff_ffff_ffff_ffff ==> reads_u64(text) == Some(
            digits_value(text) as u64,
        ),
        all_digits(text) && digits_value(text) > 0xffff_ffff_ffff_ffff ==> reads_u64(text) is None,
        !all_digits(text) ==> reads_u64(seq!['+'] + text) is None,
        !all_digits(text) && !(text.len() > 0 && text[0] == '+') ==> reads_u64(text) is None,
        all_digits(text) && digits_value(text) <= hi ==> reads_int(text, lo, hi) == Some(
            digits_value(text) as int,
        ) && reads_int(seq!['+'] + text, lo, hi) == Some(digits_value(text) as int),
        all_digits(text) && digits_value(text) > hi ==> reads_int(text, lo, hi) is None && reads_int(
            seq!['+'] + text,
            lo,
            hi,
        ) is None,
        all_digits(text) && -digits_value(text) >= lo ==> reads_int(seq!['-'] + text, lo, hi)
            == Some(-digits_value(text) as int),
        all_digits(text) && -digits_value(text) < lo ==> reads_int(seq!['-'] + text, lo, hi) is None,
        !all_digits(text) ==> reads_int(seq!['+'] + text, lo, hi) is None && reads_int(
            seq!['-'] + text,
            lo,
            hi,
        ) is None,
        !all_digits(text) && !(text.len() > 0 && (text[0] == '+' || text[0] == '-')) ==> reads_int(
            text,
            lo,
            hi,
        ) is None,
{
    let plus = seq!['+'] + text;
    let minus = seq!['-'] + text;
    assert(plus.drop_first() =~= text);
    assert(minus.drop_first() =~= text);
    if all_digits(text) {
        assert(is_digit(text[0]));
    }
}

/// Which characters are white space.
pub proof fn law_white_space_is_unicodes(c: char)
    ensures
        is_white(c) <==> {
            let n = c as nat;
            9 <= n <= 13 || n == 32 || n == 0x85 || n == 0xa0 || n == 0x1680 || 0x2000 <= n
                <= 0x200a || n == 0x2028 || n == 0x2029 || n == 0x202f || n == 0x205f || n == 0x3000
        },
{
}

/// What texts and optional texts are seen as is what they hold, one by one.
pub proof fn law_texts_are_seen_one_by_one(list: Seq<String>, one: String, i: int)
    ensures
        texts(list).len() == list.len(),
        0 <= i < list.len() ==> texts(list)[i] == list[i]@,
        opt_string(Some(one)) == Some(one@),
        opt_string(None) is None,
        opt(None) is None,
{
}

} // verus!
