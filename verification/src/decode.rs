//! Reading line-protocol text back: unescaping, and the laws that tie it to
//! the encoding.

use vstd::prelude::*;
use crate::ilp::{decimal, digit_char, digits, escaped, is_reserved, tag};
use crate::record::{is_number_char, is_number_text};
use crate::text::push_char;

verus! {

/// The identifier that an escaped text stands for: a backslash before a
/// reserved character is dropped, every other character stands for itself.
pub open spec fn unescaped(s: Seq<char>) -> Seq<char>
    decreases s.len(),
{
    if s.len() == 0 {
        Seq::empty()
    } else if s[0] == '\\' && s.len() >= 2 && is_reserved(s[1]) {
        seq![s[1]] + unescaped(s.skip(2))
    } else {
        seq![s[0]] + unescaped(s.skip(1))
    }
}

/// Escaping distributes over concatenation.
pub proof fn escaped_concat(a: Seq<char>, b: Seq<char>)
    ensures
        escaped(a + b) == escaped(a) + escaped(b),
    decreases b.len(),
{
    if b.len() == 0 {
        assert(a + b =~= a);
        assert(escaped(a) + escaped(b) =~= escaped(a));
    } else {
        escaped_concat(a, b.drop_last());
        assert((a + b).drop_last() =~= a + b.drop_last());
        assert((a + b).last() == b.last());
        if is_reserved(b.last()) {
            assert(escaped(a + b) =~= escaped(a) + escaped(b));
        } else {
            assert(escaped(a + b) =~= escaped(a) + escaped(b));
        }
    }
}

/// The escaped form of one character.
pub open spec fn escaped_char(c: char) -> Seq<char> {
    if is_reserved(c) {
        seq!['\\', c]
    } else {
        seq![c]
    }
}

/// The escaped form of a text begins with the escaped form of its first
/// character and goes on with the escaped form of the rest.
pub proof fn escaped_head(s: Seq<char>)
    requires
        s.len() > 0,
    ensures
        escaped(s) == escaped_char(s[0]) + escaped(s.skip(1)),
{
    let head = seq![s[0]];
    assert(head + s.skip(1) =~= s);
    escaped_concat(head, s.skip(1));
    assert(head.drop_last() =~= Seq::<char>::empty());
    assert(escaped(head.drop_last()) =~= Seq::<char>::empty());
    assert(escaped(head) =~= escaped_char(s[0]));
}

/// Escaped text never begins with a reserved character.
pub proof fn escaped_starts_unreserved(s: Seq<char>)
    ensures
        escaped(s).len() > 0 ==> !is_reserved(escaped(s)[0]),
        escaped(s).len() >= s.len(),
{
    if s.len() > 0 {
        escaped_head(s);
        escaped_lengths(s.skip(1));
    }
}

proof fn escaped_lengths(s: Seq<char>)
    ensures
        escaped(s).len() >= s.len(),
    decreases s.len(),
{
    if s.len() > 0 {
        escaped_lengths(s.drop_last());
    }
}

/// Unescaping undoes escaping, for every text.
pub proof fn unescape_escape(s: Seq<char>)
    ensures
        unescaped(escaped(s)) == s,
    decreases s.len(),
{
    if s.len() == 0 {
        assert(unescaped(escaped(s)) =~= s);
    } else {
        let rest = s.skip(1);
        escaped_head(s);
        unescape_escape(rest);
        escaped_starts_unreserved(rest);
        let e = escaped(s);
        if is_reserved(s[0]) {
            assert(e.skip(2) =~= escaped(rest));
            assert(unescaped(e) =~= seq![s[0]] + rest);
        } else {
            assert(e.skip(1) =~= escaped(rest));
            if e.len() >= 2 {
                assert(e[1] == escaped(rest)[0]);
            }
            assert(unescaped(e) =~= seq![s[0]] + rest);
        }
        assert(seq![s[0]] + rest =~= s);
    }
}

/// Appends to `out` the identifier that the escaped text `s` stands for.
pub fn ilp_unescape_ident(s: &str, out: &mut String)
    ensures
        final(out)@ == old(out)@ + unescaped(s@),
{
    let ghost start = out@;
    let mut pending = false;
    assert(s@.skip(0) =~= s@);
    assert(Seq::<char>::empty() + s@ =~= s@);
    for ch in it: s.chars()
        invariant
            it.seq() == s@,
            start + unescaped(s@) == out@ + unescaped(
                (if pending {
                    seq!['\\']
                } else {
                    Seq::<char>::empty()
                }) + s@.skip(it.index() as int),
            ),
    {
        let ghost i = it.index() as int;
        let ghost tail = s@.skip(i);
        let ghost next = s@.skip(i + 1);
        let ghost before = out@;
        proof {
            assert(tail[0] == ch);
            assert(tail.skip(1) =~= next);
        }
        if pending {
            let ghost seen = seq!['\\'] + tail;
            proof {
                assert(seen[0] == '\\' && seen[1] == ch);
                assert(seen.skip(2) =~= next);
                assert(seen.skip(1) =~= tail);
                assert(Seq::<char>::empty() + next =~= next);
            }
            if ch == ',' || ch == ' ' || ch == '=' {
                push_char(out, ch);
                pending = false;
                assert(unescaped(seen) =~= seq![ch] + unescaped(next));
                assert(out@ + unescaped(next) =~= before + unescaped(seen));
            } else if ch == '\\' {
                push_char(out, '\\');
                assert(seq!['\\'] + next =~= tail);
                assert(unescaped(seen) =~= seq!['\\'] + unescaped(tail));
                assert(out@ + unescaped(tail) =~= before + unescaped(seen));
            } else {
                push_char(out, '\\');
                push_char(out, ch);
                pending = false;
                assert(unescaped(seen) =~= seq!['\\'] + unescaped(tail));
                assert(unescaped(tail) =~= seq![ch] + unescaped(next));
                assert(out@ + unescaped(next) =~= before + unescaped(seen));
            }
        } else {
            proof {
                assert(Seq::<char>::empty() + tail =~= tail);
                assert(Seq::<char>::empty() + next =~= next);
            }
            if ch == '\\' {
                pending = true;
                assert(seq!['\\'] + next =~= tail);
            } else {
                push_char(out, ch);
                assert(unescaped(tail) =~= seq![ch] + unescaped(next));
                assert(out@ + unescaped(next) =~= before + unescaped(tail));
            }
        }
    }
    proof {
        assert(s@.skip(s@.len() as int) =~= Seq::<char>::empty());
    }
    if pending {
        push_char(out, '\\');
        proof {
            let one = seq!['\\'] + Seq::<char>::empty();
            assert(one.len() == 1 && one[0] == '\\');
            assert(one.skip(1) =~= Seq::<char>::empty());
            assert(unescaped(one.skip(1)) =~= Seq::<char>::empty());
            assert(unescaped(one) =~= seq!['\\']);
        }
    } else {
        assert(Seq::<char>::empty() + Seq::<char>::empty() =~= Seq::<char>::empty());
    }
    assert(out@ =~= start + unescaped(s@));
}

/// The length of the escaped identifier that a text begins with: it ends
/// before the first reserved character that no backslash escapes.
pub open spec fn ident_len(s: Seq<char>) -> nat
    decreases s.len(),
{
    if s.len() == 0 {
        0
    } else if s[0] == '\\' && s.len() >= 2 && is_reserved(s[1]) {
        2 + ident_len(s.skip(2))
    } else if is_reserved(s[0]) {
        0
    } else {
        1 + ident_len(s.skip(1))
    }
}

/// Whether a text ends with a backslash. Such an identifier cannot be told
/// from its neighbour on a line: its backslash escapes the separator.
pub open spec fn ends_with_backslash(s: Seq<char>) -> bool {
    s.len() > 0 && s.last() == '\\'
}

/// An escaped identifier that is followed by a reserved character, or by
/// nothing, is found again in full, unless it ends with a backslash.
pub proof fn ident_len_of_escaped(x: Seq<char>, t: Seq<char>)
    requires
        t.len() == 0 || is_reserved(t[0]),
        !ends_with_backslash(x) || t.len() == 0,
    ensures
        ident_len(escaped(x) + t) == escaped(x).len(),
        ident_len(escaped(x) + t) <= (escaped(x) + t).len(),
    decreases x.len(),
{
    let s = escaped(x) + t;
    if x.len() == 0 {
        assert(s =~= t);
    } else {
        let rest = x.skip(1);
        escaped_head(x);
        escaped_starts_unreserved(rest);
        if rest.len() > 0 {
            assert(rest.last() == x.last());
        }
        ident_len_of_escaped(rest, t);
        if is_reserved(x[0]) {
            assert(s.skip(2) =~= escaped(rest) + t);
            assert(s[0] == '\\' && s[1] == x[0]);
        } else {
            assert(s.skip(1) =~= escaped(rest) + t);
            assert(s[0] == x[0]);
            if s.len() >= 2 {
                assert(s[1] == (escaped(rest) + t)[0]);
                if rest.len() == 0 {
                    assert(escaped(rest) =~= Seq::<char>::empty());
                }
            }
        }
    }
}

/// The number that a run of decimal digits stands for.
pub open spec fn digits_value(s: Seq<char>) -> int
    decreases s.len(),
{
    if s.len() == 0 {
        0
    } else {
        digits_value(s.drop_last()) * 10 + (s.last() as int - 48)
    }
}

/// The integer that a decimal text stands for.
pub open spec fn decimal_value(s: Seq<char>) -> int {
    if s.len() > 0 && s[0] == '-' {
        -digits_value(s.skip(1))
    } else {
        digits_value(s)
    }
}

/// The digits of a number stand for that number, and begin with a digit.
pub proof fn digits_value_of_digits(n: nat)
    ensures
        digits_value(digits(n)) == n,
        digits(n).len() > 0,
        '0' <= digits(n)[0] <= '9',
    decreases n,
{
    if n < 10 {
        let one = digits(n);
        assert(one.drop_last() =~= Seq::<char>::empty());
        assert(digits_value(one.drop_last()) == 0);
        assert(one.last() == digit_char(n as int));
    } else {
        digits_value_of_digits(n / 10);
        let all = digits(n);
        assert(all.drop_last() =~= digits(n / 10));
        assert(all.last() == digit_char((n % 10) as int));
        assert(all[0] == digits(n / 10)[0]);
    }
}

/// Reading a decimal text gives back the integer it was written from.
pub proof fn decimal_value_of_decimal(n: int)
    ensures
        decimal_value(decimal(n)) == n,
{
    if n < 0 {
        digits_value_of_digits((-n) as nat);
        let text = decimal(n);
        assert(text[0] == '-');
        assert(text.skip(1) =~= digits((-n) as nat));
    } else {
        digits_value_of_digits(n as nat);
    }
}

/// A key with its value, or a field's key with the text of its number.
pub type Pair = (Seq<char>, Seq<char>);

/// One line of the protocol, taken apart.
pub struct Line {
    pub measurement: Seq<char>,
    pub tags: Seq<Pair>,
    pub fields: Seq<Pair>,
    pub ts: int,
}

/// The text of a run of tags.
pub open spec fn tags_text(tags: Seq<Pair>) -> Seq<char>
    decreases tags.len(),
{
    if tags.len() == 0 {
        Seq::empty()
    } else {
        tag(tags[0].0, tags[0].1) + tags_text(tags.skip(1))
    }
}

/// The text of one field, after a comma unless it is the first.
pub open spec fn pair_text(first: bool, pair: Pair) -> Seq<char> {
    (if first {
        Seq::<char>::empty()
    } else {
        seq![',']
    }) + escaped(pair.0) + seq!['='] + pair.1
}

/// The text of a run of fields.
pub open spec fn fields_text(fields: Seq<Pair>, first: bool) -> Seq<char>
    decreases fields.len(),
{
    if fields.len() == 0 {
        Seq::empty()
    } else {
        pair_text(first, fields[0]) + fields_text(fields.skip(1), false)
    }
}

/// The text of a line: the measurement, the tags, a space, the fields, a
/// space, the time.
pub open spec fn line_text(line: Line) -> Seq<char> {
    escaped(line.measurement) + tags_text(line.tags) + seq![' '] + fields_text(line.fields, true)
        + seq![' '] + decimal(line.ts)
}

/// The length of the number text that a text begins with: it ends before
/// the first comma or space.
pub open spec fn plain_len(s: Seq<char>) -> nat
    decreases s.len(),
{
    if s.len() == 0 || s[0] == ',' || s[0] == ' ' {
        0
    } else {
        1 + plain_len(s.skip(1))
    }
}

/// The tags that a text begins with, and what follows them.
pub open spec fn read_tags(s: Seq<char>) -> (Seq<Pair>, Seq<char>)
    decreases s.len(),
{
    if s.len() > 0 && s[0] == ',' {
        let a = s.skip(1);
        let k = ident_len(a) as int;
        if k < a.len() && a[k] == '=' {
            let b = a.skip(k + 1);
            let v = ident_len(b) as int;
            if v <= b.len() {
                let more = read_tags(b.skip(v));
                (seq![(unescaped(a.take(k)), unescaped(b.take(v)))] + more.0, more.1)
            } else {
                (Seq::empty(), s)
            }
        } else {
            (Seq::empty(), s)
        }
    } else {
        (Seq::empty(), s)
    }
}

/// The fields that a text begins with, and what follows them.
pub open spec fn read_fields(s: Seq<char>, first: bool) -> (Seq<Pair>, Seq<char>)
    decreases s.len(),
{
    if first || (s.len() > 0 && s[0] == ',') {
        let a = if first {
            s
        } else {
            s.skip(1)
        };
        let k = ident_len(a) as int;
        if k < a.len() && a[k] == '=' {
            let b = a.skip(k + 1);
            let v = plain_len(b) as int;
            if v <= b.len() {
                let more = read_fields(b.skip(v), false);
                (seq![(unescaped(a.take(k)), b.take(v))] + more.0, more.1)
            } else {
                (Seq::empty(), s)
            }
        } else {
            (Seq::empty(), s)
        }
    } else {
        (Seq::empty(), s)
    }
}

/// A text without its first character; an empty text stays empty.
pub open spec fn after_separator(s: Seq<char>) -> Seq<char> {
    if s.len() > 0 {
        s.skip(1)
    } else {
        s
    }
}

/// The text of a line's time: what follows the space after the fields.
pub open spec fn time_text(s: Seq<char>) -> Seq<char> {
    let tags = read_tags(s.skip(ident_len(s) as int));
    let fields = read_fields(after_separator(tags.1), true);
    after_separator(fields.1)
}

/// A line's text, taken apart. The text is expected to be a line; of any
/// other text the parts are of no use.
pub open spec fn read_line(s: Seq<char>) -> Line {
    let m = ident_len(s) as int;
    let tags = read_tags(s.skip(m));
    let fields = read_fields(after_separator(tags.1), true);
    Line {
        measurement: unescaped(s.take(m)),
        tags: tags.0,
        fields: fields.0,
        ts: decimal_value(after_separator(fields.1)),
    }
}

/// Whether a run of tags can be written and read back: no key and no value
/// ends with a backslash.
pub open spec fn readable_tags(tags: Seq<Pair>) -> bool {
    forall|i: int|
        0 <= i < tags.len() ==> !ends_with_backslash((#[trigger] tags[i]).0)
            && !ends_with_backslash(tags[i].1)
}

/// Whether a run of fields can be written and read back: no key ends with a
/// backslash, and every value is number text.
pub open spec fn readable_fields(fields: Seq<Pair>) -> bool {
    forall|i: int|
        0 <= i < fields.len() ==> !ends_with_backslash((#[trigger] fields[i]).0) && is_number_text(
            fields[i].1,
        )
}

/// Whether a line can be written and read back.
pub open spec fn readable(line: Line) -> bool {
    &&& !ends_with_backslash(line.measurement)
    &&& readable_tags(line.tags)
    &&& line.fields.len() > 0
    &&& readable_fields(line.fields)
}

proof fn plain_len_of_number(x: Seq<char>, t: Seq<char>)
    requires
        forall|i: int| 0 <= i < x.len() ==> is_number_char(#[trigger] x[i]),
        t.len() > 0 && (t[0] == ',' || t[0] == ' '),
    ensures
        plain_len(x + t) == x.len(),
    decreases x.len(),
{
    let s = x + t;
    if x.len() == 0 {
        assert(s =~= t);
    } else {
        assert(s[0] == x[0]);
        assert(is_number_char(x[0]));
        assert(s.skip(1) =~= x.skip(1) + t);
        assert forall|i: int| 0 <= i < x.skip(1).len() implies is_number_char(
            #[trigger] x.skip(1)[i],
        ) by {
            assert(x.skip(1)[i] == x[i + 1]);
        }
        plain_len_of_number(x.skip(1), t);
    }
}

proof fn tags_text_starts_with_comma(tags: Seq<Pair>)
    requires
        tags.len() > 0,
    ensures
        tags_text(tags).len() > 0,
        tags_text(tags)[0] == ',',
{
}

proof fn read_one_tag(key: Seq<char>, value: Seq<char>, tail: Seq<char>)
    requires
        !ends_with_backslash(key),
        !ends_with_backslash(value),
        tail.len() > 0 && (tail[0] == ',' || tail[0] == ' '),
    ensures
        read_tags(tag(key, value) + tail) == (
            seq![(key, value)] + read_tags(tail).0,
            read_tags(tail).1,
        ),
{
    let s = tag(key, value) + tail;
    let after_key = seq!['='] + escaped(value) + tail;
    let a = s.skip(1);
    let k = escaped(key).len() as int;
    let b = a.skip(k + 1);
    let v = escaped(value).len() as int;
    assert(s[0] == ',');
    assert(a =~= escaped(key) + after_key);
    assert(ident_len(a) == k) by {
        ident_len_of_escaped(key, after_key);
    }
    assert(a[k] == '=');
    assert(unescaped(a.take(k)) == key) by {
        assert(a.take(k) =~= escaped(key));
        unescape_escape(key);
    }
    assert(b =~= escaped(value) + tail);
    assert(ident_len(b) == v) by {
        ident_len_of_escaped(value, tail);
    }
    assert(unescaped(b.take(v)) == value) by {
        assert(b.take(v) =~= escaped(value));
        unescape_escape(value);
    }
    assert(b.skip(v) =~= tail);
}

/// A run of tags that is followed by a space is read back as it was
/// written.
pub proof fn read_tags_of_text(tags: Seq<Pair>, t: Seq<char>)
    requires
        readable_tags(tags),
        t.len() > 0 && t[0] == ' ',
    ensures
        read_tags(tags_text(tags) + t) == (tags, t),
    decreases tags.len(),
{
    if tags.len() == 0 {
        assert(tags_text(tags) + t =~= t);
    } else {
        let rest = tags.skip(1);
        let tail = tags_text(rest) + t;
        assert(readable_tags(rest)) by {
            assert forall|i: int| 0 <= i < rest.len() implies !ends_with_backslash(
                (#[trigger] rest[i]).0,
            ) && !ends_with_backslash(rest[i].1) by {
                assert(rest[i] == tags[i + 1]);
            }
        }
        if rest.len() > 0 {
            tags_text_starts_with_comma(rest);
        }
        assert(tail[0] == ',' || tail[0] == ' ');
        assert(tags_text(tags) + t =~= tag(tags[0].0, tags[0].1) + tail);
        read_one_tag(tags[0].0, tags[0].1, tail);
        read_tags_of_text(rest, t);
        assert(seq![(tags[0].0, tags[0].1)] + rest =~= tags);
    }
}

proof fn read_one_field(first: bool, key: Seq<char>, value: Seq<char>, tail: Seq<char>)
    requires
        !ends_with_backslash(key),
        is_number_text(value),
        tail.len() > 0 && (tail[0] == ',' || tail[0] == ' '),
    ensures
        read_fields(pair_text(first, (key, value)) + tail, first) == (
            seq![(key, value)] + read_fields(tail, false).0,
            read_fields(tail, false).1,
        ),
{
    let s = pair_text(first, (key, value)) + tail;
    let after_key = seq!['='] + value + tail;
    let a = if first {
        s
    } else {
        s.skip(1)
    };
    let k = escaped(key).len() as int;
    let b = a.skip(k + 1);
    let v = value.len() as int;
    if !first {
        assert(s[0] == ',');
    }
    assert(a =~= escaped(key) + after_key);
    assert(ident_len(a) == k) by {
        ident_len_of_escaped(key, after_key);
    }
    assert(a[k] == '=');
    assert(unescaped(a.take(k)) == key) by {
        assert(a.take(k) =~= escaped(key));
        unescape_escape(key);
    }
    assert(b =~= value + tail);
    assert(plain_len(b) == v) by {
        plain_len_of_number(value, tail);
    }
    assert(b.take(v) =~= value);
    assert(b.skip(v) =~= tail);
}

/// A run of fields that is followed by a space is read back as it was
/// written.
pub proof fn read_fields_of_text(fields: Seq<Pair>, first: bool, t: Seq<char>)
    requires
        readable_fields(fields),
        first ==> fields.len() > 0,
        t.len() > 0 && t[0] == ' ',
    ensures
        read_fields(fields_text(fields, first) + t, first) == (fields, t),
    decreases fields.len(),
{
    if fields.len() == 0 {
        assert(fields_text(fields, first) + t =~= t);
    } else {
        let rest = fields.skip(1);
        let tail = fields_text(rest, false) + t;
        assert(readable_fields(rest)) by {
            assert forall|i: int| 0 <= i < rest.len() implies !ends_with_backslash(
                (#[trigger] rest[i]).0,
            ) && is_number_text(rest[i].1) by {
                assert(rest[i] == fields[i + 1]);
            }
        }
        if rest.len() > 0 {
            assert(fields_text(rest, false)[0] == ',');
        }
        assert(tail.len() > 0 && (tail[0] == ',' || tail[0] == ' '));
        assert(fields_text(fields, first) + t =~= pair_text(first, fields[0]) + tail);
        assert(is_number_text(fields[0].1));
        read_one_field(first, fields[0].0, fields[0].1, tail);
        read_fields_of_text(rest, false, t);
        assert(seq![(fields[0].0, fields[0].1)] + rest =~= fields);
    }
}

/// A line that can be written and read back is read back as it was
/// written.
pub proof fn read_line_of_text(line: Line)
    requires
        readable(line),
    ensures
        read_line(line_text(line)) == line,
{
    let s = line_text(line);
    let time = seq![' '] + decimal(line.ts);
    let after_tags = seq![' '] + fields_text(line.fields, true) + time;
    let after_measurement = tags_text(line.tags) + after_tags;
    assert(s =~= escaped(line.measurement) + after_measurement);
    if line.tags.len() > 0 {
        tags_text_starts_with_comma(line.tags);
    }
    assert(after_measurement[0] == ',' || after_measurement[0] == ' ');
    ident_len_of_escaped(line.measurement, after_measurement);
    let m = escaped(line.measurement).len() as int;
    assert(s.take(m) =~= escaped(line.measurement));
    unescape_escape(line.measurement);
    assert(s.skip(m) =~= after_measurement);
    read_tags_of_text(line.tags, after_tags);
    assert(after_tags.skip(1) =~= fields_text(line.fields, true) + time);
    read_fields_of_text(line.fields, true, time);
    assert(time.skip(1) =~= decimal(line.ts));
    decimal_value_of_decimal(line.ts);
}

/// The value under the first of the pairs whose key is `key`.
pub open spec fn value_of(pairs: Seq<Pair>, key: Seq<char>) -> Option<Seq<char>>
    decreases pairs.len(),
{
    if pairs.len() == 0 {
        None
    } else if pairs[0].0 == key {
        Some(pairs[0].1)
    } else {
        value_of(pairs.skip(1), key)
    }
}

} // verus!
