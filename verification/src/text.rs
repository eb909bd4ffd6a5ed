//! Text as a sequence of characters: trimming, lines, fields and numbers.

use vstd::prelude::*;
use vstd::slice::slice_subrange;
use vstd::utf8::*;

verus! {

/// The characters of `text`, in order.
pub fn chars_of(text: &str) -> (chars: Vec<char>)
    ensures
        chars@ == text@,
{
    let mut chars: Vec<char> = Vec::new();
    for c in it: text.chars()
        invariant
            it.seq() == text@,
            chars@ == text@.take(it.index() as int),
    {
        chars.push(c);
    }
    chars
}

/// `String::push`: the character is added at the end of the string, and
/// nothing else about the string changes.
#[verifier::external_body]
fn push_char(text: &mut String, c: char)
    ensures
        final(text)@ == old(text)@.push(c),
{
    text.push(c)
}

/// The string made of `chars`, in order.
pub fn string_of(chars: &[char]) -> (text: String)
    ensures
        text@ == chars@,
{
    let mut text = String::new();
    let mut i: usize = 0;
    while i < chars.len()
        invariant
            i <= chars@.len(),
            text@ == chars@.take(i as int),
        decreases chars@.len() - i,
    {
        push_char(&mut text, chars[i]);
        assert(text@ =~= chars@.take(i + 1));
        i += 1;
    }
    assert(chars@.take(chars@.len() as int) =~= chars@);
    text
}

/// Whether two texts hold the same characters.
pub fn same_text(left: &str, right: &str) -> (same: bool)
    ensures
        same == (left@ == right@),
{
    let a = left.as_bytes();
    let b = right.as_bytes();
    proof {
        encode_utf8_decode_utf8(left@);
        encode_utf8_decode_utf8(right@);
    }
    if a.len() != b.len() {
        return false;
    }
    let mut i: usize = 0;
    while i < a.len()
        invariant
            i <= a.len(),
            a.len() == b.len(),
            a@ == encode_utf8(left@),
            b@ == encode_utf8(right@),
            forall|k: int| 0 <= k < i ==> a@[k] == b@[k],
        decreases a.len() - i,
    {
        if a[i] != b[i] {
            return false;
        }
        i += 1;
    }
    assert(a@ =~= b@);
    true
}

/// Whether `c` is white space as Unicode defines it (`White_Space`).
pub open spec fn is_space(c: char) -> bool {
    let n = c as u32;
    ||| 0x09 <= n <= 0x0d
    ||| n == 0x20
    ||| n == 0x85
    ||| n == 0xa0
    ||| n == 0x1680
    ||| 0x2000 <= n <= 0x200a
    ||| n == 0x2028
    ||| n == 0x2029
    ||| n == 0x202f
    ||| n == 0x205f
    ||| n == 0x3000
}

/// Whether `c` is white space.
pub fn is_whitespace(c: char) -> (space: bool)
    ensures
        space == is_space(c),
{
    let n: u32 = c as u32;
    (0x09 <= n && n <= 0x0d) || n == 0x20 || n == 0x85 || n == 0xa0 || n == 0x1680 || (0x2000 <= n
        && n <= 0x200a) || n == 0x2028 || n == 0x2029 || n == 0x202f || n == 0x205f || n == 0x3000
}

/// The first position at or after `from` that holds no white space, or the
/// length of `text` where there is none.
pub open spec fn skip_space(text: Seq<char>, from: int) -> int
    decreases text.len() - from,
{
    if 0 <= from < text.len() && is_space(text[from]) {
        skip_space(text, from + 1)
    } else {
        from
    }
}

/// The least `end` such that everything from `end` up to `to` is white space.
pub open spec fn drop_space(text: Seq<char>, to: int) -> int
    decreases to,
{
    if 0 < to <= text.len() && is_space(text[to - 1]) {
        drop_space(text, to - 1)
    } else {
        to
    }
}

/// `text` without the white space at its two ends.
pub open spec fn trimmed(text: Seq<char>) -> Seq<char> {
    let start = skip_space(text, 0);
    let end = drop_space(text, text.len() as int);
    if start < end {
        text.subrange(start, end)
    } else {
        Seq::empty()
    }
}

/// `drop_space` stays between zero and where it started.
pub proof fn drop_space_bounds(text: Seq<char>, to: int)
    requires
        0 <= to <= text.len(),
    ensures
        0 <= drop_space(text, to) <= to,
    decreases to,
{
    if 0 < to && is_space(text[to - 1]) {
        drop_space_bounds(text, to - 1);
    }
}

/// `skip_space` moves forward over white space and over nothing else.
pub proof fn skip_space_bounds(text: Seq<char>, from: int)
    requires
        0 <= from <= text.len(),
    ensures
        from <= skip_space(text, from) <= text.len(),
        forall|i: int| from <= i < skip_space(text, from) ==> is_space(#[trigger] text[i]),
        skip_space(text, from) < text.len() ==> !is_space(text[skip_space(text, from)]),
    decreases text.len() - from,
{
    if from < text.len() && is_space(text[from]) {
        skip_space_bounds(text, from + 1);
    }
}

/// `drop_space` moves back over white space and over nothing else.
pub proof fn drop_space_stops(text: Seq<char>, to: int)
    requires
        0 <= to <= text.len(),
    ensures
        forall|i: int| drop_space(text, to) <= i < to ==> is_space(#[trigger] text[i]),
        drop_space(text, to) > 0 ==> !is_space(text[drop_space(text, to) - 1]),
    decreases to,
{
    if 0 < to && is_space(text[to - 1]) {
        drop_space_stops(text, to - 1);
    }
}

/// What is left after trimming neither starts nor ends in white space, and
/// trimming it again changes nothing.
pub proof fn trimmed_is_trim(text: Seq<char>)
    ensures
        trimmed(text).len() > 0 ==> !is_space(trimmed(text)[0]) && !is_space(
            trimmed(text).last(),
        ),
        trimmed(trimmed(text)) == trimmed(text),
{
    let start = skip_space(text, 0);
    let end = drop_space(text, text.len() as int);
    skip_space_bounds(text, 0);
    drop_space_bounds(text, text.len() as int);
    drop_space_stops(text, text.len() as int);
    let inner = trimmed(text);
    if start < end {
        assert(inner[0] == text[start]);
        assert(inner.last() == text[end - 1]);
        assert(skip_space(inner, 0) == 0);
        assert(drop_space(inner, inner.len() as int) == inner.len());
        assert(inner.subrange(0, inner.len() as int) =~= inner);
    } else {
        assert(inner.len() == 0);
        assert(skip_space(inner, 0) == 0);
        assert(drop_space(inner, 0) == 0);
    }
}

/// Where the trimmed part of `text` starts and ends: `text[start..end]` is
/// `trimmed(text)`.
pub fn trim_bounds(text: &[char]) -> (bounds: (usize, usize))
    ensures
        bounds.0 <= bounds.1 <= text@.len(),
        text@.subrange(bounds.0 as int, bounds.1 as int) == trimmed(text@),
{
    let len = text.len();
    let mut start: usize = 0;
    while start < len && is_whitespace(text[start])
        invariant
            start <= len == text@.len(),
            skip_space(text@, 0) == skip_space(text@, start as int),
        decreases len - start,
    {
        start += 1;
    }
    let mut end: usize = len;
    while end > start && is_whitespace(text[end - 1])
        invariant
            start <= end <= len == text@.len(),
            drop_space(text@, len as int) == drop_space(text@, end as int),
        decreases end,
    {
        end -= 1;
    }
    proof {
        drop_space_bounds(text@, end as int);
        if start == end {
            assert(text@.subrange(start as int, end as int) =~= Seq::<char>::empty());
        }
    }
    (start, end)
}

/// `text` without the white space at its two ends.
pub fn trim(text: &str) -> (result: String)
    ensures
        result@ == trimmed(text@),
{
    let chars = chars_of(text);
    let (start, end) = trim_bounds(chars.as_slice());
    string_of(slice_subrange(chars.as_slice(), start, end))
}

/// The texts that a vector of strings holds, in order.
pub open spec fn texts_of(strings: Seq<String>) -> Seq<Seq<char>> {
    Seq::new(strings.len(), |i: int| strings[i]@)
}

/// Pushing a string onto a vector appends its text to the texts held.
pub proof fn texts_of_push(strings: Seq<String>, last: String)
    ensures
        texts_of(strings.push(last)) == texts_of(strings).push(last@),
{
    assert(texts_of(strings.push(last)) =~= texts_of(strings).push(last@));
}

/// The first position at or after `from` that holds `c`, or the length of
/// `text` where there is none.
pub open spec fn find_char(text: Seq<char>, c: char, from: int) -> int
    decreases text.len() - from,
{
    if 0 <= from < text.len() && text[from] != c {
        find_char(text, c, from + 1)
    } else {
        from
    }
}

/// `find_char` moves forward and stays inside the text.
pub proof fn find_char_bounds(text: Seq<char>, c: char, from: int)
    requires
        0 <= from <= text.len(),
    ensures
        from <= find_char(text, c, from) <= text.len(),
    decreases text.len() - from,
{
    if from < text.len() && text[from] != c {
        find_char_bounds(text, c, from + 1);
    }
}

/// The first position at or after `from` that holds `c`, or `text.len()`.
pub fn find(text: &[char], c: char, from: usize) -> (at: usize)
    ensures
        at == find_char(text@, c, from as int),
        from <= at,
        from <= text@.len() ==> at <= text@.len(),
{
    let mut at: usize = from;
    while at < text.len() && text[at] != c
        invariant
            from <= at,
            from <= text@.len() ==> at <= text@.len(),
            find_char(text@, c, from as int) == find_char(text@, c, at as int),
        decreases text@.len() - at,
    {
        at += 1;
    }
    at
}

/// How often `c` occurs in `text` at or after `from`.
pub open spec fn count_from(text: Seq<char>, c: char, from: int) -> nat
    decreases text.len() - from,
{
    if 0 <= from < text.len() {
        (if text[from] == c { 1nat } else { 0nat }) + count_from(text, c, from + 1)
    } else {
        0
    }
}

/// How often `c` occurs in `text`.
pub open spec fn occurrences(text: Seq<char>, c: char) -> nat {
    count_from(text, c, 0)
}

/// How often `c` occurs in `text`.
pub fn count(text: &[char], c: char) -> (n: usize)
    ensures
        n == occurrences(text@, c),
{
    let mut n: usize = 0;
    let mut at: usize = 0;
    while at < text.len()
        invariant
            n <= at <= text@.len(),
            n + count_from(text@, c, at as int) == count_from(text@, c, 0),
        decreases text@.len() - at,
    {
        if text[at] == c {
            n += 1;
        }
        at += 1;
    }
    n
}

/// Up to the next `c` nothing is counted, and that `c` counts once.
pub proof fn count_to_next(text: Seq<char>, c: char, from: int)
    requires
        0 <= from <= text.len(),
    ensures
        count_from(text, c, from) == if find_char(text, c, from) < text.len() {
            1 + count_from(text, c, find_char(text, c, from) + 1)
        } else {
            0
        },
    decreases text.len() - from,
{
    if from < text.len() && text[from] != c {
        count_to_next(text, c, from + 1);
    }
}

/// Over a stretch that does not hold `c`, the count stays.
pub proof fn count_skips_others(text: Seq<char>, c: char, from: int, to: int)
    requires
        0 <= from <= to <= text.len(),
        forall|i: int| from <= i < to ==> #[trigger] text[i] != c,
    ensures
        count_from(text, c, from) == count_from(text, c, to),
    decreases to - from,
{
    if from < to {
        count_skips_others(text, c, from + 1, to);
    }
}

/// The count within a part of the text is what the count drops by over it.
pub proof fn count_in_part(text: Seq<char>, c: char, start: int, end: int, from: int)
    requires
        0 <= start <= from <= end <= text.len(),
    ensures
        count_from(text.subrange(start, end), c, from - start) + count_from(text, c, end)
            == count_from(text, c, from),
    decreases end - from,
{
    if from < end {
        count_in_part(text, c, start, end, from + 1);
        assert(text.subrange(start, end)[from - start] == text[from]);
    }
}

/// Trimming removes white space only: what is no white space occurs as
/// often after it as before.
pub proof fn trimming_keeps_the_count(text: Seq<char>, c: char)
    requires
        !is_space(c),
    ensures
        occurrences(trimmed(text), c) == occurrences(text, c),
{
    let len = text.len() as int;
    let start = skip_space(text, 0);
    let end = drop_space(text, len);
    skip_space_bounds(text, 0);
    drop_space_bounds(text, len);
    drop_space_stops(text, len);
    if start < end {
        count_skips_others(text, c, 0, start);
        count_skips_others(text, c, end, len);
        count_in_part(text, c, start, end, start);
    } else {
        assert(forall|i: int| 0 <= i < start ==> is_space(#[trigger] text[i]));
        assert(forall|i: int| end <= i < len ==> is_space(#[trigger] text[i]));
        assert forall|i: int| 0 <= i < len implies #[trigger] text[i] != c by {
            if i < start {
                assert(is_space(text[i]));
            } else {
                assert(is_space(text[i]));
            }
        }
        count_skips_others(text, c, 0, len);
    }
}

/// The fields of `text` from `from` on, split at `separator`, with at most
/// `limit` fields: the last field allowed takes all that is left, separators
/// included.
pub open spec fn fields_from(text: Seq<char>, separator: char, from: int, limit: nat) -> Seq<
    Seq<char>,
>
    decreases limit,
{
    if limit == 0 {
        Seq::empty()
    } else {
        let end = find_char(text, separator, from);
        if limit == 1 || end >= text.len() {
            seq![text.subrange(from, text.len() as int)]
        } else {
            seq![text.subrange(from, end)] + fields_from(
                text,
                separator,
                end + 1,
                (limit - 1) as nat,
            )
        }
    }
}

/// The first `limit - 1` fields of `text` and the rest of it as the last.
pub open spec fn fields_of(text: Seq<char>, separator: char, limit: nat) -> Seq<Seq<char>> {
    fields_from(text, separator, 0, limit)
}

/// Every field of `text`: a text of `n` characters has at most `n + 1`.
pub open spec fn all_fields_of(text: Seq<char>, separator: char) -> Seq<Seq<char>> {
    fields_from(text, separator, 0, text.len() + 1)
}

/// Splits `text` at `separator` into at most `limit` fields.
pub fn split_fields(text: &[char], separator: char, limit: usize) -> (fields: Vec<String>)
    ensures
        texts_of(fields@) == fields_of(text@, separator, limit as nat),
{
    let mut fields: Vec<String> = Vec::new();
    if limit == 0 {
        assert(texts_of(fields@) =~= Seq::<Seq<char>>::empty());
        return fields;
    }
    let len = text.len();
    let mut from: usize = 0;
    let mut left: usize = limit;
    loop
        invariant
            left >= 1,
            from <= len == text@.len(),
            texts_of(fields@) + fields_from(text@, separator, from as int, left as nat)
                == fields_of(text@, separator, limit as nat),
        decreases left,
    {
        let end = find(text, separator, from);
        if left == 1 || end >= len {
            let rest = string_of(slice_subrange(text, from, len));
            proof {
                texts_of_push(fields@, rest);
                assert(texts_of(fields@).push(rest@) =~= texts_of(fields@) + seq![rest@]);
            }
            fields.push(rest);
            return fields;
        }
        let field = string_of(slice_subrange(text, from, end));
        proof {
            texts_of_push(fields@, field);
            assert(texts_of(fields@).push(field@) + fields_from(
                text@,
                separator,
                end + 1,
                (left - 1) as nat,
            ) =~= texts_of(fields@) + (seq![field@] + fields_from(
                text@,
                separator,
                end + 1,
                (left - 1) as nat,
            )));
        }
        fields.push(field);
        from = end + 1;
        left -= 1;
    }
}

/// Splits `text` at every `separator`.
pub fn split_all(text: &[char], separator: char) -> (fields: Vec<String>)
    ensures
        texts_of(fields@) == all_fields_of(text@, separator),
{
    let mut fields: Vec<String> = Vec::new();
    let len = text.len();
    let mut from: usize = 0;
    assert(texts_of(fields@) =~= Seq::<Seq<char>>::empty());
    loop
        invariant
            from <= len == text@.len(),
            texts_of(fields@) + fields_from(text@, separator, from as int, (len - from + 1) as nat)
                == all_fields_of(text@, separator),
        decreases len - from,
    {
        let end = find(text, separator, from);
        if end >= len {
            let rest = string_of(slice_subrange(text, from, len));
            proof {
                texts_of_push(fields@, rest);
                assert(texts_of(fields@).push(rest@) =~= texts_of(fields@) + seq![rest@]);
            }
            fields.push(rest);
            return fields;
        }
        let field = string_of(slice_subrange(text, from, end));
        proof {
            let after = fields_from(text@, separator, end + 1, (len - from) as nat);
            fields_limit_beyond(text@, separator, end + 1, (len - end) as nat, (len - from) as nat);
            texts_of_push(fields@, field);
            assert(texts_of(fields@).push(field@) + after =~= texts_of(fields@) + (seq![field@]
                + after));
        }
        fields.push(field);
        from = end + 1;
    }
}

/// Once the limit exceeds the number of separators left, raising it changes
/// nothing.
pub proof fn fields_limit_beyond(
    text: Seq<char>,
    separator: char,
    from: int,
    limit: nat,
    more: nat,
)
    requires
        0 <= from <= text.len(),
        text.len() - from < limit <= more,
    ensures
        fields_from(text, separator, from, limit) == fields_from(text, separator, from, more),
    decreases limit,
{
    let end = find_char(text, separator, from);
    find_char_bounds(text, separator, from);
    if end < text.len() {
        if limit == 1 {
        } else {
            fields_limit_beyond(text, separator, end + 1, (limit - 1) as nat, (more - 1) as nat);
        }
    }
}

/// How many fields there are: one more than there are separators, unless
/// the limit is reached before.
pub proof fn fields_count(text: Seq<char>, separator: char, from: int, limit: nat)
    requires
        0 <= from <= text.len(),
    ensures
        fields_from(text, separator, from, limit).len() == if limit <= count_from(
            text,
            separator,
            from,
        ) {
            limit
        } else {
            count_from(text, separator, from) + 1
        },
    decreases limit,
{
    if limit > 0 {
        let end = find_char(text, separator, from);
        find_char_bounds(text, separator, from);
        count_to_next(text, separator, from);
        if limit > 1 && end < text.len() {
            fields_count(text, separator, end + 1, (limit - 1) as nat);
        }
    }
}

/// A line that holds enough separators has all its fields after trimming:
/// with one separator fewer than the limit, or more, there are as many
/// fields as the limit allows.
pub proof fn trimmed_line_has_its_fields(line: Seq<char>, separator: char, limit: nat)
    requires
        !is_space(separator),
        limit >= 1,
        occurrences(line, separator) >= limit - 1,
    ensures
        fields_of(trimmed(line), separator, limit).len() == limit,
{
    trimming_keeps_the_count(line, separator);
    fields_count(trimmed(line), separator, 0, limit);
}

/// `line` without a carriage return at its end.
pub open spec fn without_return(line: Seq<char>) -> Seq<char> {
    if line.len() > 0 && line.last() == '\r' {
        line.drop_last()
    } else {
        line
    }
}

/// The lines of `text` from `from` on. A line ends at a line feed; a carriage
/// return just before that line feed belongs to the ending. The last line
/// need not end in a line feed, and a carriage return at its end then stays.
pub open spec fn lines_from(text: Seq<char>, from: int) -> Seq<Seq<char>>
    decreases text.len() - from,
{
    if 0 <= from < text.len() {
        let end = find_char(text, '\n', from);
        let line = text.subrange(from, end);
        if from <= end < text.len() {
            seq![without_return(line)] + lines_from(text, end + 1)
        } else {
            seq![line]
        }
    } else {
        Seq::empty()
    }
}

/// The lines of `text`.
pub open spec fn lines_of(text: Seq<char>) -> Seq<Seq<char>> {
    lines_from(text, 0)
}

/// The lines of `text`.
pub fn split_lines(text: &[char]) -> (lines: Vec<String>)
    ensures
        texts_of(lines@) == lines_of(text@),
{
    let mut lines: Vec<String> = Vec::new();
    let len = text.len();
    let mut from: usize = 0;
    assert(texts_of(lines@) =~= Seq::<Seq<char>>::empty());
    while from < len
        invariant
            from <= len == text@.len(),
            texts_of(lines@) + lines_from(text@, from as int) == lines_of(text@),
        decreases len - from,
    {
        let end = find(text, '\n', from);
        let stop = if end < len && end > from && text[end - 1] == '\r' {
            end - 1
        } else {
            end
        };
        let line = string_of(slice_subrange(text, from, stop));
        proof {
            let raw = text@.subrange(from as int, end as int);
            if end < len {
                assert(line@ =~= without_return(raw));
                assert(texts_of(lines@).push(line@) + lines_from(text@, end + 1) =~= texts_of(
                    lines@,
                ) + (seq![line@] + lines_from(text@, end + 1)));
            } else {
                assert(line@ =~= raw);
                assert(texts_of(lines@).push(line@) =~= texts_of(lines@) + seq![line@]);
            }
            texts_of_push(lines@, line);
        }
        lines.push(line);
        from = if end < len {
            end + 1
        } else {
            len
        };
    }
    proof {
        assert(texts_of(lines@) + Seq::<Seq<char>>::empty() =~= texts_of(lines@));
    }
    lines
}

} // verus!
