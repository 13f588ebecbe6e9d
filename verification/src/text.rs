//! Text helpers: comparing and formatting, and the line format of bulk
//! payloads.

use vstd::prelude::*;
use vstd::utf8::{encode_scalar, encode_utf8, is_char_boundary};

verus! {

/// The view of a text that may be missing.
pub open spec fn optional_text(text: Option<&str>) -> Option<Seq<char>> {
    match text {
        Some(t) => Some(t@),
        None => None,
    }
}

/// The view of a string that may be missing.
pub open spec fn optional_string(text: Option<String>) -> Option<Seq<char>> {
    match text {
        Some(t) => Some(t@),
        None => None,
    }
}

/// Whether two string slices hold the same characters, decided on their
/// bytes: UTF-8 encodes different texts differently.
pub(crate) fn same_text(a: &str, b: &str) -> (res: bool)
    ensures
        res == (a@ == b@),
{
    let x = a.as_bytes();
    let y = b.as_bytes();
    proof {
        vstd::utf8::encode_utf8_decode_utf8(a@);
        vstd::utf8::encode_utf8_decode_utf8(b@);
    }
    if x.len() != y.len() {
        return false;
    }
    let mut i: usize = 0;
    while i < x.len()
        invariant
            i <= x.len(),
            x@.len() == y@.len(),
            x@ == encode_utf8(a@),
            y@ == encode_utf8(b@),
            forall|k: int| 0 <= k < i ==> x@[k] == y@[k],
        decreases x.len() - i,
    {
        if x[i] != y[i] {
            return false;
        }
        i = i + 1;
    }
    proof {
        assert(x@ =~= y@);
    }
    true
}

/// The encoding of a text is the encoding of its front followed by the
/// encoding of its back.
pub proof fn lemma_encode_concat(front: Seq<char>, back: Seq<char>)
    ensures
        encode_utf8(front + back) == encode_utf8(front) + encode_utf8(back),
    decreases front.len(),
{
    if front.len() > 0 {
        assert((front + back).drop_first() =~= front.drop_first() + back);
        lemma_encode_concat(front.drop_first(), back);
        assert(encode_scalar(front[0] as u32) + (encode_utf8(front.drop_first()) + encode_utf8(
            back,
        )) =~= (encode_scalar(front[0] as u32) + encode_utf8(front.drop_first())) + encode_utf8(
            back,
        ));
    }
}

/// A text ends with another exactly when its encoding ends with the
/// encoding of the other.
pub proof fn lemma_suffix_on_bytes(suffix: Seq<char>, text: Seq<char>)
    ensures
        suffix.is_suffix_of(text) == encode_utf8(suffix).is_suffix_of(encode_utf8(text)),
{
    let bytes = encode_utf8(text);
    let tail = encode_utf8(suffix);
    vstd::utf8::encode_utf8_valid_utf8(text);
    vstd::utf8::encode_utf8_valid_utf8(suffix);
    vstd::utf8::encode_utf8_decode_utf8(text);
    vstd::utf8::encode_utf8_decode_utf8(suffix);
    if suffix.is_suffix_of(text) {
        let front = text.subrange(0, text.len() - suffix.len());
        assert(text =~= front + suffix);
        lemma_encode_concat(front, suffix);
        assert((encode_utf8(front) + tail).subrange(
            encode_utf8(front).len() as int,
            (encode_utf8(front) + tail).len() as int,
        ) =~= tail);
    }
    if tail.is_suffix_of(bytes) {
        let at = bytes.len() - tail.len();
        assert(is_char_boundary(bytes, at)) by {
            vstd::utf8::is_char_boundary_start_end_of_seq(bytes);
            if at < bytes.len() {
                vstd::utf8::is_char_boundary_start_end_of_seq(tail);
                vstd::utf8::is_char_boundary_iff_not_is_continuation_byte(tail, 0);
                vstd::utf8::is_char_boundary_iff_not_is_continuation_byte(bytes, at);
            }
        }
        vstd::utf8::decode_utf8_split(bytes, at);
    }
}

/// Whether `suffix` matches the end of `s`, decided on the bytes of the
/// two.
pub(crate) fn ends_with(s: &str, suffix: &str) -> (res: bool)
    ensures
        res == suffix@.is_suffix_of(s@),
{
    let x = s.as_bytes();
    let y = suffix.as_bytes();
    proof {
        lemma_suffix_on_bytes(suffix@, s@);
    }
    if y.len() > x.len() {
        return false;
    }
    let total = x.len();
    let start = total - y.len();
    let mut i: usize = 0;
    while i < y.len()
        invariant
            i <= y.len(),
            total == x@.len(),
            y@.len() <= x@.len(),
            start == x@.len() - y@.len(),
            suffix@.is_suffix_of(s@) == y@.is_suffix_of(x@),
            forall|k: int| 0 <= k < i ==> x@[start + k] == y@[k],
        decreases y.len() - i,
    {
        if x[start + i] != y[i] {
            return false;
        }
        i = i + 1;
    }
    true
}

/// The character of a decimal digit.
pub open spec fn digit_char(d: nat) -> char {
    (('0' as u8) + d) as char
}

/// The decimal numeral of a number, without leading zeros.
pub open spec fn decimal(n: nat) -> Seq<char>
    decreases n,
{
    if n < 10 {
        seq![digit_char(n)]
    } else {
        decimal(n / 10).push(digit_char(n % 10))
    }
}

/// The character of a decimal digit.
fn digit_of(d: u64) -> (c: char)
    requires
        d < 10,
    ensures
        c == digit_char(d as nat),
{
    ((48u8 + (d as u8)) as char)
}

/// The decimal numeral of a number, without leading zeros.
pub(crate) fn decimal_text(n: u64) -> (res: String)
    ensures
        res@ == decimal(n as nat),
{
    // The digits from the last to the first.
    let mut digits: Vec<char> = Vec::new();
    digits.push(digit_of(n % 10));
    let mut rest: u64 = n / 10;
    while rest > 0
        invariant
            digits@.len() >= 1,
            decimal(n as nat) == if rest > 0 {
                decimal(rest as nat) + digits@.reverse()
            } else {
                digits@.reverse()
            },
        decreases rest,
    {
        proof {
            let more = digits@.push(digit_char((rest % 10) as nat));
            if rest >= 10 {
                assert(decimal(rest as nat) + digits@.reverse() =~= decimal((rest / 10) as nat)
                    + more.reverse());
            }
        }
        digits.push(digit_of(rest % 10));
        rest = rest / 10;
    }
    let mut res = String::new();
    let mut i: usize = digits.len();
    while i > 0
        invariant
            i <= digits.len(),
            res@ == digits@.reverse().take(digits@.len() - i),
        decreases i,
    {
        i = i - 1;
        res.push(digits[i]);
    }
    res
}

/// `String::push`: appends one character to the end of the string.
pub assume_specification[ std::string::String::push ](s: &mut std::string::String, c: char)
    ensures
        final(s)@ == old(s)@.push(c),
;

/// The lines of a payload joined into one text: a line feed between every
/// two neighbours, none after the last.
pub open spec fn join_lines(lines: Seq<Seq<char>>) -> Seq<char>
    decreases lines.len(),
{
    if lines.len() == 0 {
        Seq::empty()
    } else if lines.len() == 1 {
        lines[0]
    } else {
        join_lines(lines.drop_last()) + seq!['\n'] + lines.last()
    }
}

/// The pieces of a text between its line feeds, in order. A text with `n`
/// line feeds has `n + 1` pieces, some of which may be empty.
pub open spec fn split_lines(text: Seq<char>) -> Seq<Seq<char>>
    decreases text.len(),
{
    if text.len() == 0 {
        seq![Seq::empty()]
    } else {
        let before = split_lines(text.drop_last());
        if text.last() == '\n' {
            before.push(Seq::empty())
        } else {
            before.drop_last().push(before.last().push(text.last()))
        }
    }
}

/// The lines that are not empty, in order.
pub open spec fn drop_empty(lines: Seq<Seq<char>>) -> Seq<Seq<char>>
    decreases lines.len(),
{
    if lines.len() == 0 {
        Seq::empty()
    } else if lines.last().len() > 0 {
        drop_empty(lines.drop_last()).push(lines.last())
    } else {
        drop_empty(lines.drop_last())
    }
}

/// The lines of a result stream: the pieces between line feeds that are not
/// empty.
pub open spec fn nonempty_lines(text: Seq<char>) -> Seq<Seq<char>> {
    drop_empty(split_lines(text))
}

/// The views of a vector of strings.
pub open spec fn texts_of(lines: Seq<String>) -> Seq<Seq<char>> {
    Seq::new(lines.len(), |i: int| lines[i]@)
}

/// A text without line feeds is its own single piece.
pub proof fn lemma_split_single(line: Seq<char>)
    requires
        !line.contains('\n'),
    ensures
        split_lines(line) == seq![line],
    decreases line.len(),
{
    if line.len() > 0 {
        let head = line.drop_last();
        lemma_split_single(head);
        assert(head.push(line.last()) =~= line);
    } else {
        assert(line =~= Seq::<char>::empty());
    }
}

/// A line feed and a line without line feeds, appended to a text, add
/// exactly that line to its pieces.
pub proof fn lemma_split_append_line(text: Seq<char>, line: Seq<char>)
    requires
        !line.contains('\n'),
    ensures
        split_lines(text + seq!['\n'] + line) == split_lines(text).push(line),
    decreases line.len(),
{
    let whole = text + seq!['\n'] + line;
    if line.len() == 0 {
        assert(whole.drop_last() =~= text);
        assert(line =~= Seq::<char>::empty());
    } else {
        let head = line.drop_last();
        lemma_split_append_line(text, head);
        assert(whole.drop_last() =~= text + seq!['\n'] + head);
        assert(head.push(line.last()) =~= line);
    }
}

/// Joining lines and splitting the text again gives the lines back, as
/// long as there is at least one line and no line holds a line feed.
pub proof fn lemma_split_join(lines: Seq<Seq<char>>)
    requires
        lines.len() >= 1,
        forall|i: int| 0 <= i < lines.len() ==> !(#[trigger] lines[i]).contains('\n'),
    ensures
        split_lines(join_lines(lines)) == lines,
    decreases lines.len(),
{
    if lines.len() == 1 {
        lemma_split_single(lines[0]);
    } else {
        let head = lines.drop_last();
        lemma_split_join(head);
        lemma_split_append_line(join_lines(head), lines.last());
    }
}

/// Where no line is empty, dropping the empty ones changes nothing.
pub proof fn lemma_drop_empty_keeps(lines: Seq<Seq<char>>)
    requires
        forall|i: int| 0 <= i < lines.len() ==> (#[trigger] lines[i]).len() > 0,
    ensures
        drop_empty(lines) == lines,
    decreases lines.len(),
{
    if lines.len() > 0 {
        let head = lines.drop_last();
        lemma_drop_empty_keeps(head);
    }
}

/// Round trip of the line format: lines that are not empty and hold no line
/// feed, joined into one payload, are exactly what the line splitter finds
/// in that payload, in the same order.
pub proof fn lemma_lines_round_trip(lines: Seq<Seq<char>>)
    requires
        forall|i: int| 0 <= i < lines.len() ==> (#[trigger] lines[i]).len() > 0,
        forall|i: int| 0 <= i < lines.len() ==> !(#[trigger] lines[i]).contains('\n'),
    ensures
        nonempty_lines(join_lines(lines)) == lines,
{
    if lines.len() == 0 {
        assert(drop_empty(split_lines(join_lines(lines)).drop_last()) =~= Seq::<
            Seq<char>,
        >::empty());
    } else {
        lemma_split_join(lines);
        lemma_drop_empty_keeps(lines);
    }
}

/// Splits a text at its line feeds and keeps the pieces that are not empty.
pub fn split_nonempty_lines(body: &str) -> (lines: Vec<String>)
    ensures
        texts_of(lines@) == nonempty_lines(body@),
{
    let mut lines: Vec<String> = Vec::new();
    let mut current = String::new();
    let ghost mut closed: Seq<Seq<char>> = Seq::empty();
    for c in it: body.chars()
        invariant
            it.seq() == body@,
            split_lines(body@.take(it.index() as int)) == closed.push(current@),
            texts_of(lines@) == drop_empty(closed),
    {
        proof {
            let ghost i = it.index() as int;
            assert(body@.take(i + 1).drop_last() =~= body@.take(i));
            assert(closed.push(current@).drop_last() =~= closed);
        }
        if c == '\n' {
            if !current.as_str().is_empty() {
                lines.push(current);
            }
            proof {
                closed = closed.push(current@);
            }
            current = String::new();
        } else {
            current.push(c);
        }
    }
    proof {
        assert(body@.take(body@.len() as int) =~= body@);
        assert(closed.push(current@).drop_last() =~= closed);
    }
    if !current.as_str().is_empty() {
        lines.push(current);
    }
    lines
}

} // verus!
