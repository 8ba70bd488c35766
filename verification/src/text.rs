//! Text as sequences of characters: joining, searching, trimming,
//! splitting into lines, and writing numbers.

use vstd::prelude::*;
use vstd::string::*;

verus! {

/// Appends one character to a string, through `String::push`: afterwards the
/// string holds its former characters followed by `c`.
#[verifier::external_body]
fn push_char(s: &mut String, c: char)
    ensures
        final(s)@ == old(s)@.push(c),
{
    s.push(c);
}

/// The characters of a string slice, in order.
pub fn chars_of(s: &str) -> (out: Vec<char>)
    ensures
        out@ == s@,
{
    let mut out: Vec<char> = Vec::new();
    for c in it: s.chars()
        invariant
            out@ == s@.subrange(0, it.index() as int),
            it.seq() == s@,
    {
        out.push(c);
    }
    out
}

/// The string that holds exactly the given characters.
pub fn string_of(chars: &Vec<char>) -> (out: String)
    ensures
        out@ == chars@,
{
    let mut out = String::new();
    let mut i: usize = 0;
    while i < chars.len()
        invariant
            0 <= i <= chars.len(),
            out@ == chars@.subrange(0, i as int),
        decreases chars.len() - i,
    {
        push_char(&mut out, chars[i]);
        i += 1;
    }
    out
}

/// The texts of a list of strings.
pub open spec fn texts(strings: Seq<String>) -> Seq<Seq<char>> {
    Seq::new(strings.len(), |i: int| strings[i]@)
}

/// The views of a list of values.
pub open spec fn views<T: View>(values: Seq<T>) -> Seq<T::V> {
    Seq::new(values.len(), |i: int| values[i]@)
}

/// The parts written one after another with `sep` between neighbours.
pub open spec fn join<A>(parts: Seq<Seq<A>>, sep: Seq<A>) -> Seq<A>
    decreases parts.len(),
{
    if parts.len() == 0 {
        Seq::empty()
    } else if parts.len() == 1 {
        parts[0]
    } else {
        join(parts.drop_last(), sep) + sep + parts.last()
    }
}

/// Joins the strings with `sep` between neighbours.
pub fn join_strings(parts: &Vec<String>, sep: &str) -> (out: String)
    ensures
        out@ == join(texts(parts@), sep@),
{
    let mut out = String::new();
    let mut i: usize = 0;
    while i < parts.len()
        invariant
            0 <= i <= parts.len(),
            out@ == join(texts(parts@).take(i as int), sep@),
        decreases parts.len() - i,
    {
        let ghost before = texts(parts@).take(i as int);
        let ghost after = texts(parts@).take(i + 1);
        assert(after.drop_last() =~= before);
        if i > 0 {
            out.append(sep);
        }
        out.append(parts[i].as_str());
        i += 1;
    }
    assert(texts(parts@).take(parts.len() as int) =~= texts(parts@));
    out
}

/// Whether `pattern` stands in `text` at position `at`.
pub open spec fn occurs_at<A>(text: Seq<A>, pattern: Seq<A>, at: int) -> bool {
    &&& 0 <= at
    &&& at + pattern.len() <= text.len()
    &&& text.subrange(at, at + pattern.len()) == pattern
}

/// Whether `pattern` stands somewhere in `text`.
pub open spec fn contains<A>(text: Seq<A>, pattern: Seq<A>) -> bool {
    exists|at: int| occurs_at(text, pattern, at)
}

/// Whether `text` begins with `pattern`.
pub open spec fn has_prefix<A>(text: Seq<A>, pattern: Seq<A>) -> bool {
    occurs_at(text, pattern, 0)
}

/// The characters with the Unicode property `White_Space`.
pub open spec fn is_whitespace(c: char) -> bool {
    let u = c as u32;
    ||| 0x09 <= u <= 0x0D
    ||| u == 0x20
    ||| u == 0x85
    ||| u == 0xA0
    ||| u == 0x1680
    ||| 0x2000 <= u <= 0x200A
    ||| u == 0x2028
    ||| u == 0x2029
    ||| u == 0x202F
    ||| u == 0x205F
    ||| u == 0x3000
}

/// Decides whether a character is white space.
pub fn whitespace(c: char) -> (r: bool)
    ensures
        r == is_whitespace(c),
{
    let u: u32 = c as u32;
    (0x09 <= u && u <= 0x0D) || u == 0x20 || u == 0x85 || u == 0xA0 || u == 0x1680 || (0x2000 <= u
        && u <= 0x200A) || u == 0x2028 || u == 0x2029 || u == 0x202F || u == 0x205F || u == 0x3000
}

/// A text is blank when it holds nothing but white space.
pub open spec fn is_blank(text: Seq<char>) -> bool {
    forall|i: int| 0 <= i < text.len() ==> is_whitespace(#[trigger] text[i])
}

/// Decides whether a text is blank.
pub fn blank(text: &str) -> (r: bool)
    ensures
        r == is_blank(text@),
{
    let chars = chars_of(text);
    let mut i: usize = 0;
    while i < chars.len()
        invariant
            0 <= i <= chars.len(),
            chars@ == text@,
            forall|j: int| 0 <= j < i ==> is_whitespace(#[trigger] chars@[j]),
        decreases chars.len() - i,
    {
        if !whitespace(chars[i]) {
            return false;
        }
        i += 1;
    }
    true
}

/// The number of white-space characters that a text begins with.
pub open spec fn leading_whitespace(text: Seq<char>) -> nat
    decreases text.len(),
{
    if text.len() > 0 && is_whitespace(text[0]) {
        1 + leading_whitespace(text.skip(1))
    } else {
        0
    }
}

/// The number of white-space characters that a text ends with.
pub open spec fn trailing_whitespace(text: Seq<char>) -> nat
    decreases text.len(),
{
    if text.len() > 0 && is_whitespace(text.last()) {
        1 + trailing_whitespace(text.drop_last())
    } else {
        0
    }
}

/// A text without the white space at its two ends.
pub open spec fn trim(text: Seq<char>) -> Seq<char> {
    let from = leading_whitespace(text);
    if from == text.len() {
        Seq::empty()
    } else {
        text.subrange(from as int, text.len() - trailing_whitespace(text))
    }
}

/// A text begins with exactly `count` white-space characters when those are
/// white space and the next one, if any, is not.
pub proof fn lemma_leading_whitespace(text: Seq<char>, count: int)
    requires
        0 <= count <= text.len(),
        forall|j: int| 0 <= j < count ==> is_whitespace(#[trigger] text[j]),
        count == text.len() || !is_whitespace(text[count]),
    ensures
        leading_whitespace(text) == count,
    decreases count,
{
    if count > 0 {
        let rest = text.skip(1);
        lemma_leading_whitespace(rest, count - 1);
    }
}

/// A text ends with exactly `count` white-space characters when those are
/// white space and the one before them, if any, is not.
pub proof fn lemma_trailing_whitespace(text: Seq<char>, count: int)
    requires
        0 <= count <= text.len(),
        forall|j: int| text.len() - count <= j < text.len() ==> is_whitespace(#[trigger] text[j]),
        count == text.len() || !is_whitespace(text[text.len() - count - 1]),
    ensures
        trailing_whitespace(text) == count,
    decreases count,
{
    if count > 0 {
        let rest = text.drop_last();
        lemma_trailing_whitespace(rest, count - 1);
    }
}

/// Finds the part of `chars[start..end]` that is left when the white space
/// at its two ends is taken away.
pub fn trim_range(chars: &Vec<char>, start: usize, end: usize) -> (r: (usize, usize))
    requires
        start <= end <= chars.len(),
    ensures
        start <= r.0 <= r.1 <= end,
        chars@.subrange(r.0 as int, r.1 as int) == trim(chars@.subrange(start as int, end as int)),
{
    let ghost part = chars@.subrange(start as int, end as int);
    let mut from: usize = start;
    while from < end && whitespace(chars[from])
        invariant
            start <= from <= end <= chars.len(),
            forall|j: int| start <= j < from ==> is_whitespace(#[trigger] chars@[j]),
        decreases end - from,
    {
        from += 1;
    }
    proof {
        lemma_leading_whitespace(part, from - start);
    }
    if from == end {
        return (end, end);
    }
    let mut to: usize = end;
    while to > from && whitespace(chars[to - 1])
        invariant
            start <= from < end <= chars.len(),
            from <= to <= end,
            !is_whitespace(chars@[from as int]),
            forall|j: int| to <= j < end ==> is_whitespace(#[trigger] chars@[j]),
        decreases to - from,
    {
        to -= 1;
    }
    proof {
        lemma_trailing_whitespace(part, end - to);
    }
    (from, to)
}

/// The lines of a text: the pieces between its line feeds. A text with
/// `n` line feeds has `n + 1` lines, some of which may be empty.
pub open spec fn lines_of(text: Seq<char>) -> Seq<Seq<char>>
    decreases text.len(),
{
    if text.len() == 0 {
        seq![Seq::empty()]
    } else {
        let before = lines_of(text.drop_last());
        if text.last() == '\n' {
            before.push(Seq::empty())
        } else {
            before.drop_last().push(before.last().push(text.last()))
        }
    }
}

/// The decimal digit for a value below ten.
pub open spec fn digit_char(d: nat) -> char
    recommends
        d < 10,
{
    if d == 0 {
        '0'
    } else if d == 1 {
        '1'
    } else if d == 2 {
        '2'
    } else if d == 3 {
        '3'
    } else if d == 4 {
        '4'
    } else if d == 5 {
        '5'
    } else if d == 6 {
        '6'
    } else if d == 7 {
        '7'
    } else if d == 8 {
        '8'
    } else {
        '9'
    }
}

/// A number written in decimal, without leading zeros.
pub open spec fn decimal(n: nat) -> Seq<char>
    decreases n,
{
    if n < 10 {
        seq![digit_char(n)]
    } else {
        decimal(n / 10).push(digit_char(n % 10))
    }
}

fn digit(d: u64) -> (c: char)
    requires
        d < 10,
    ensures
        c == digit_char(d as nat),
{
    if d == 0 {
        '0'
    } else if d == 1 {
        '1'
    } else if d == 2 {
        '2'
    } else if d == 3 {
        '3'
    } else if d == 4 {
        '4'
    } else if d == 5 {
        '5'
    } else if d == 6 {
        '6'
    } else if d == 7 {
        '7'
    } else if d == 8 {
        '8'
    } else {
        '9'
    }
}

/// Appends the decimal form of `n` to `out`.
pub fn push_decimal(out: &mut Vec<char>, n: u64)
    ensures
        final(out)@ == old(out)@ + decimal(n as nat),
    decreases n,
{
    if n < 10 {
        out.push(digit(n));
    } else {
        push_decimal(out, n / 10);
        out.push(digit(n % 10));
    }
}

/// A signed number written in decimal, with a minus sign when negative.
pub open spec fn signed_decimal(n: int) -> Seq<char> {
    if n < 0 {
        seq!['-'] + decimal((-n) as nat)
    } else {
        decimal(n as nat)
    }
}

/// Appends the decimal form of a signed number to `out`.
pub fn push_signed_decimal(out: &mut Vec<char>, n: i32)
    ensures
        final(out)@ == old(out)@ + signed_decimal(n as int),
{
    if n < 0 {
        out.push('-');
        let magnitude: u64 = (-(n as i64)) as u64;
        push_decimal(out, magnitude);
    } else {
        push_decimal(out, n as u64);
    }
}

/// Appends the characters of `s` to `out`.
pub fn push_str(out: &mut Vec<char>, s: &str)
    ensures
        final(out)@ == old(out)@ + s@,
{
    let mut chars = chars_of(s);
    out.append(&mut chars);
}

/// A pattern found in a text is found in every text that the text is part of.
pub proof fn lemma_contains_within<A>(before: Seq<A>, text: Seq<A>, after: Seq<A>, pattern: Seq<A>)
    requires
        contains(text, pattern),
    ensures
        contains(before + text + after, pattern),
{
    let at = choose|at: int| occurs_at(text, pattern, at);
    let whole = before + text + after;
    assert(whole.subrange(before.len() + at, before.len() + at + pattern.len())
        =~= text.subrange(at, at + pattern.len()));
    assert(occurs_at(whole, pattern, before.len() + at));
}

/// A pattern found in part of a text is found in the text.
pub proof fn lemma_contains_transitive<A>(text: Seq<A>, part: Seq<A>, pattern: Seq<A>)
    requires
        contains(text, part),
        contains(part, pattern),
    ensures
        contains(text, pattern),
{
    let outer = choose|at: int| occurs_at(text, part, at);
    let inner = choose|at: int| occurs_at(part, pattern, at);
    assert(text.subrange(outer + inner, outer + inner + pattern.len()) =~= text.subrange(
        outer,
        outer + part.len(),
    ).subrange(inner, inner + pattern.len()));
    assert(occurs_at(text, pattern, outer + inner));
}

/// A text stands in itself behind any prefix.
pub proof fn lemma_contains_after_prefix<A>(prefix: Seq<A>, text: Seq<A>)
    ensures
        contains(prefix + text, text),
{
    assert((prefix + text).subrange(prefix.len() as int, (prefix.len() + text.len()) as int)
        =~= text);
    assert(occurs_at(prefix + text, text, prefix.len() as int));
}

/// Every text contains itself.
pub proof fn lemma_contains_self<A>(text: Seq<A>)
    ensures
        contains(text, text),
{
    assert(text.subrange(0, text.len() as int) =~= text);
    assert(occurs_at(text, text, 0));
}

/// Each part stands in the joined text.
pub proof fn lemma_join_contains_part<A>(parts: Seq<Seq<A>>, sep: Seq<A>, k: int)
    requires
        0 <= k < parts.len(),
    ensures
        contains(join(parts, sep), parts[k]),
    decreases parts.len(),
{
    if parts.len() == 1 {
        lemma_contains_self(parts[0]);
    } else if k == parts.len() - 1 {
        lemma_contains_self(parts.last());
        lemma_contains_within(
            join(parts.drop_last(), sep) + sep,
            parts.last(),
            Seq::empty(),
            parts[k],
        );
    } else {
        lemma_join_contains_part(parts.drop_last(), sep, k);
        lemma_contains_within(
            Seq::empty(),
            join(parts.drop_last(), sep),
            sep + parts.last(),
            parts[k],
        );
        assert(Seq::empty() + join(parts.drop_last(), sep) + (sep + parts.last()) =~= join(
            parts,
            sep,
        ));
    }
}

} // verus!
