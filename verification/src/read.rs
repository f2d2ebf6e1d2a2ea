//! Reading a line of the protocol back into its parts.

use vstd::prelude::*;
use crate::decode::{
    after_separator, decimal_value, digits_value, ident_len, plain_len, read_fields, read_line,
    read_tags, time_text, unescaped, value_of, Pair,
};
use crate::ilp::is_reserved;
use crate::text::{push_char, same_text};

verus! {

fn chars_of(s: &str) -> (chars: Vec<char>)
    ensures
        chars@ == s@,
{
    let mut chars: Vec<char> = Vec::new();
    for c in it: s.chars()
        invariant
            it.seq() == s@,
            chars@ == s@.take(it.index() as int),
    {
        chars.push(c);
        assert(s@.take(it.index() + 1) =~= s@.take(it.index() as int).push(c));
    }
    assert(s@.take(s@.len() as int) =~= s@);
    chars
}

fn is_reserved_char(c: char) -> (yes: bool)
    ensures
        yes == is_reserved(c),
{
    c == ',' || c == ' ' || c == '='
}

/// Finds the end of the escaped identifier that begins at `start`.
fn scan_ident(chars: &Vec<char>, start: usize) -> (end: usize)
    requires
        start <= chars@.len(),
    ensures
        start <= end <= chars@.len(),
        end - start == ident_len(chars@.skip(start as int)),
{
    let ghost s = chars@;
    let len = chars.len();
    let mut i = start;
    let mut done = false;
    while !done && i < len
        invariant
            s == chars@,
            len == s.len(),
            start <= i <= len,
            ident_len(s.skip(start as int)) == (i - start) + ident_len(s.skip(i as int)),
            done ==> ident_len(s.skip(i as int)) == 0,
        decreases len - i, if done { 0int } else { 1int },
    {
        let ghost t = s.skip(i as int);
        let c = chars[i];
        proof {
            assert(t[0] == c);
            assert(t.skip(1) =~= s.skip(i + 1));
        }
        if c == '\\' && i + 1 < len && is_reserved_char(chars[i + 1]) {
            proof {
                assert(t[1] == s[i + 1]);
                assert(t.skip(2) =~= s.skip(i + 2));
            }
            i = i + 2;
        } else if is_reserved_char(c) {
            done = true;
        } else {
            proof {
                if c == '\\' && i + 1 < len {
                    assert(t[1] == s[i + 1]);
                }
            }
            i = i + 1;
        }
    }
    proof {
        if !done {
            assert(s.skip(i as int).len() == 0);
        }
    }
    i
}

/// Finds the end of the number text that begins at `start`.
fn scan_plain(chars: &Vec<char>, start: usize) -> (end: usize)
    requires
        start <= chars@.len(),
    ensures
        start <= end <= chars@.len(),
        end - start == plain_len(chars@.skip(start as int)),
{
    let ghost s = chars@;
    let len = chars.len();
    let mut i = start;
    let mut done = false;
    while !done && i < len
        invariant
            s == chars@,
            len == s.len(),
            start <= i <= len,
            plain_len(s.skip(start as int)) == (i - start) + plain_len(s.skip(i as int)),
            done ==> plain_len(s.skip(i as int)) == 0,
        decreases len - i, if done { 0int } else { 1int },
    {
        let ghost t = s.skip(i as int);
        let c = chars[i];
        proof {
            assert(t[0] == c);
            assert(t.skip(1) =~= s.skip(i + 1));
        }
        if c == ',' || c == ' ' {
            done = true;
        } else {
            i = i + 1;
        }
    }
    proof {
        if !done {
            assert(s.skip(i as int).len() == 0);
        }
    }
    i
}

/// The identifier that the escaped text between `start` and `end` stands
/// for.
fn unescape_range(chars: &Vec<char>, start: usize, end: usize) -> (text: String)
    requires
        start <= end <= chars@.len(),
    ensures
        text@ == unescaped(chars@.subrange(start as int, end as int)),
{
    let ghost sub = chars@.subrange(start as int, end as int);
    let mut text = String::new();
    let mut i = start;
    assert(sub.skip(0) =~= sub);
    while i < end
        invariant
            start <= i <= end <= chars@.len(),
            sub == chars@.subrange(start as int, end as int),
            text@ + unescaped(sub.skip(i - start)) == unescaped(sub),
        decreases end - i,
    {
        let ghost t = sub.skip(i - start);
        let ghost before = text@;
        let c = chars[i];
        proof {
            assert(t[0] == c);
            assert(t.len() == end - i);
            assert(t.skip(1) =~= sub.skip(i + 1 - start));
        }
        if c == '\\' && i + 1 < end && is_reserved_char(chars[i + 1]) {
            proof {
                assert(t[1] == chars@[i + 1]);
                assert(t.skip(2) =~= sub.skip(i + 2 - start));
            }
            push_char(&mut text, chars[i + 1]);
            assert(text@ + unescaped(t.skip(2)) =~= before + unescaped(t));
            i = i + 2;
        } else {
            proof {
                if c == '\\' && i + 1 < end {
                    assert(t[1] == chars@[i + 1]);
                }
            }
            push_char(&mut text, c);
            assert(text@ + unescaped(t.skip(1)) =~= before + unescaped(t));
            i = i + 1;
        }
    }
    proof {
        assert(sub.skip(end - start) =~= Seq::<char>::empty());
        assert(text@ + Seq::<char>::empty() =~= text@);
    }
    text
}

/// The text between `start` and `end`.
fn copy_range(chars: &Vec<char>, start: usize, end: usize) -> (text: String)
    requires
        start <= end <= chars@.len(),
    ensures
        text@ == chars@.subrange(start as int, end as int),
{
    let mut text = String::new();
    let mut i = start;
    while i < end
        invariant
            start <= i <= end <= chars@.len(),
            text@ == chars@.subrange(start as int, i as int),
        decreases end - i,
    {
        push_char(&mut text, chars[i]);
        assert(text@ =~= chars@.subrange(start as int, i + 1));
        i = i + 1;
    }
    text
}

/// The pairs of texts that a run of pairs of strings stands for.
pub open spec fn pairs_view(pairs: Seq<(String, String)>) -> Seq<Pair> {
    pairs.map_values(|p: (String, String)| (p.0@, p.1@))
}

/// Reads the tags that begin at `start`.
fn scan_tags(chars: &Vec<char>, start: usize) -> (found: (Vec<(String, String)>, usize))
    requires
        start <= chars@.len(),
    ensures
        start <= found.1 <= chars@.len(),
        pairs_view(found.0@) == read_tags(chars@.skip(start as int)).0,
        chars@.skip(found.1 as int) == read_tags(chars@.skip(start as int)).1,
{
    let ghost s = chars@;
    let len = chars.len();
    let mut pairs: Vec<(String, String)> = Vec::new();
    let mut pos = start;
    let mut done = false;
    assert(pairs_view(pairs@) + read_tags(s.skip(pos as int)).0 =~= read_tags(
        s.skip(pos as int),
    ).0);
    while !done
        invariant
            s == chars@,
            len == s.len(),
            start <= pos <= len,
            !done ==> read_tags(s.skip(start as int)) == (
                pairs_view(pairs@) + read_tags(s.skip(pos as int)).0,
                read_tags(s.skip(pos as int)).1,
            ),
            done ==> read_tags(s.skip(start as int)) == (pairs_view(pairs@), s.skip(pos as int)),
        decreases len - pos, if done { 0int } else { 1int },
    {
        let ghost t = s.skip(pos as int);
        proof {
            assert(pairs_view(pairs@) + Seq::<Pair>::empty() =~= pairs_view(pairs@));
        }
        if pos < len && chars[pos] == ',' {
            let key_start = pos + 1;
            let key_end = scan_ident(chars, key_start);
            let ghost a = t.skip(1);
            proof {
                assert(t[0] == ',');
                assert(a =~= s.skip(key_start as int));
                if key_end < len {
                    assert(a[key_end - key_start] == s[key_end as int]);
                }
            }
            if key_end < len && chars[key_end] == '=' {
                let value_start = key_end + 1;
                let value_end = scan_ident(chars, value_start);
                let key = unescape_range(chars, key_start, key_end);
                let value = unescape_range(chars, value_start, value_end);
                let ghost before = pairs_view(pairs@);
                let ghost k = key_end - key_start;
                let ghost b = a.skip(k + 1);
                let ghost v = value_end - value_start;
                proof {
                    assert(a.take(k) =~= s.subrange(key_start as int, key_end as int));
                    assert(b =~= s.skip(value_start as int));
                    assert(b.take(v) =~= s.subrange(value_start as int, value_end as int));
                    assert(b.skip(v) =~= s.skip(value_end as int));
                    let more = read_tags(s.skip(value_end as int));
                    assert(read_tags(t) == (seq![(key@, value@)] + more.0, more.1));
                    assert(before + (seq![(key@, value@)] + more.0) =~= before.push((key@, value@))
                        + more.0);
                }
                pairs.push((key, value));
                proof {
                    assert(pairs_view(pairs@) =~= before.push((key@, value@)));
                }
                pos = value_end;
            } else {
                done = true;
            }
        } else {
            done = true;
        }
    }
    (pairs, pos)
}

/// Reads the fields that follow the first, each after a comma, from `start`
/// on.
fn scan_more_fields(chars: &Vec<char>, start: usize) -> (found: (Vec<(String, String)>, usize))
    requires
        start <= chars@.len(),
    ensures
        start <= found.1 <= chars@.len(),
        pairs_view(found.0@) == read_fields(chars@.skip(start as int), false).0,
        chars@.skip(found.1 as int) == read_fields(chars@.skip(start as int), false).1,
{
    let ghost s = chars@;
    let len = chars.len();
    let mut pairs: Vec<(String, String)> = Vec::new();
    let mut pos = start;
    let mut done = false;
    assert(pairs_view(pairs@) + read_fields(s.skip(pos as int), false).0 =~= read_fields(
        s.skip(pos as int),
        false,
    ).0);
    while !done
        invariant
            s == chars@,
            len == s.len(),
            start <= pos <= len,
            !done ==> read_fields(s.skip(start as int), false) == (
                pairs_view(pairs@) + read_fields(s.skip(pos as int), false).0,
                read_fields(s.skip(pos as int), false).1,
            ),
            done ==> read_fields(s.skip(start as int), false) == (
                pairs_view(pairs@),
                s.skip(pos as int),
            ),
        decreases len - pos, if done { 0int } else { 1int },
    {
        let ghost t = s.skip(pos as int);
        proof {
            assert(pairs_view(pairs@) + Seq::<Pair>::empty() =~= pairs_view(pairs@));
        }
        if pos < len && chars[pos] == ',' {
            let key_start = pos + 1;
            let key_end = scan_ident(chars, key_start);
            let ghost a = t.skip(1);
            proof {
                assert(t[0] == ',');
                assert(a =~= s.skip(key_start as int));
                if key_end < len {
                    assert(a[key_end - key_start] == s[key_end as int]);
                }
            }
            if key_end < len && chars[key_end] == '=' {
                let value_start = key_end + 1;
                let value_end = scan_plain(chars, value_start);
                let key = unescape_range(chars, key_start, key_end);
                let value = copy_range(chars, value_start, value_end);
                let ghost before = pairs_view(pairs@);
                let ghost k = key_end - key_start;
                let ghost b = a.skip(k + 1);
                let ghost v = value_end - value_start;
                proof {
                    assert(a.take(k) =~= s.subrange(key_start as int, key_end as int));
                    assert(b =~= s.skip(value_start as int));
                    assert(b.take(v) =~= s.subrange(value_start as int, value_end as int));
                    assert(b.skip(v) =~= s.skip(value_end as int));
                    let more = read_fields(s.skip(value_end as int), false);
                    assert(read_fields(t, false) == (seq![(key@, value@)] + more.0, more.1));
                    assert(before + (seq![(key@, value@)] + more.0) =~= before.push((key@, value@))
                        + more.0);
                }
                pairs.push((key, value));
                proof {
                    assert(pairs_view(pairs@) =~= before.push((key@, value@)));
                }
                pos = value_end;
            } else {
                done = true;
            }
        } else {
            done = true;
        }
    }
    (pairs, pos)
}

/// Reads the fields that begin at `start`: the first without a comma before
/// it, the others each after a comma.
fn scan_fields(chars: &Vec<char>, start: usize) -> (found: (Vec<(String, String)>, usize))
    requires
        start <= chars@.len(),
    ensures
        start <= found.1 <= chars@.len(),
        pairs_view(found.0@) == read_fields(chars@.skip(start as int), true).0,
        chars@.skip(found.1 as int) == read_fields(chars@.skip(start as int), true).1,
{
    let ghost s = chars@;
    let ghost a = s.skip(start as int);
    let len = chars.len();
    let key_end = scan_ident(chars, start);
    proof {
        if key_end < len {
            assert(a[key_end - start] == s[key_end as int]);
        }
    }
    if key_end < len && chars[key_end] == '=' {
        let value_start = key_end + 1;
        let value_end = scan_plain(chars, value_start);
        let key = unescape_range(chars, start, key_end);
        let value = copy_range(chars, value_start, value_end);
        let (more, pos) = scan_more_fields(chars, value_end);
        let ghost k = key_end - start;
        let ghost b = a.skip(k + 1);
        let ghost v = value_end - value_start;
        let ghost rest = pairs_view(more@);
        proof {
            assert(a.take(k) =~= s.subrange(start as int, key_end as int));
            assert(b =~= s.skip(value_start as int));
            assert(b.take(v) =~= s.subrange(value_start as int, value_end as int));
            assert(b.skip(v) =~= s.skip(value_end as int));
        }
        let mut pairs: Vec<(String, String)> = Vec::new();
        pairs.push((key, value));
        let mut tail = more;
        pairs.append(&mut tail);
        proof {
            assert(pairs_view(pairs@) =~= seq![(key@, value@)] + rest);
        }
        (pairs, pos)
    } else {
        let pairs: Vec<(String, String)> = Vec::new();
        proof {
            assert(pairs_view(pairs@) =~= Seq::<Pair>::empty());
        }
        (pairs, start)
    }
}

/// Whether a text is a run of decimal digits.
pub open spec fn all_digits(s: Seq<char>) -> bool {
    forall|i: int| 0 <= i < s.len() ==> '0' <= #[trigger] s[i] <= '9'
}

/// Whether a text is a decimal integer: at least one digit, after a minus
/// sign or not.
pub open spec fn is_decimal(s: Seq<char>) -> bool {
    if s.len() > 0 && s[0] == '-' {
        s.len() > 1 && all_digits(s.skip(1))
    } else {
        s.len() > 0 && all_digits(s)
    }
}

proof fn digits_value_grows(d: Seq<char>, j: int)
    requires
        all_digits(d),
        0 <= j <= d.len(),
    ensures
        0 <= digits_value(d.take(j)) <= digits_value(d),
    decreases d.len() - j,
{
    if j == d.len() {
        assert(d.take(j) =~= d);
        digits_value_not_negative(d);
    } else {
        let shorter = d.drop_last();
        assert(all_digits(shorter)) by {
            assert forall|i: int| 0 <= i < shorter.len() implies '0' <= #[trigger] shorter[i]
                <= '9' by {
                assert(shorter[i] == d[i]);
            }
        }
        digits_value_grows(shorter, j);
        assert(shorter.take(j) =~= d.take(j));
        assert('0' <= d[d.len() - 1] <= '9');
    }
}

proof fn digits_value_not_negative(d: Seq<char>)
    requires
        all_digits(d),
    ensures
        0 <= digits_value(d),
    decreases d.len(),
{
    if d.len() > 0 {
        let shorter = d.drop_last();
        assert(all_digits(shorter)) by {
            assert forall|i: int| 0 <= i < shorter.len() implies '0' <= #[trigger] shorter[i]
                <= '9' by {
                assert(shorter[i] == d[i]);
            }
        }
        digits_value_not_negative(shorter);
        assert('0' <= d[d.len() - 1] <= '9');
    }
}

/// Reads the decimal integer that the text from `start` on is. There is
/// none where the text is no decimal integer, or one beyond 128 bits.
fn scan_decimal(chars: &Vec<char>, start: usize) -> (value: Option<i128>)
    requires
        start <= chars@.len(),
    ensures
        match value {
            Some(v) => is_decimal(chars@.skip(start as int)) && v == decimal_value(
                chars@.skip(start as int),
            ),
            None => !is_decimal(chars@.skip(start as int)) || decimal_value(
                chars@.skip(start as int),
            ) < i128::MIN || decimal_value(chars@.skip(start as int)) > i128::MAX,
        },
{
    let ghost s = chars@;
    let ghost text = s.skip(start as int);
    let len = chars.len();
    let negative = start < len && chars[start] == '-';
    let first = if negative {
        start + 1
    } else {
        start
    };
    let ghost d = s.skip(first as int);
    proof {
        if start < len {
            assert(text[0] == s[start as int]);
        }
        if negative {
            assert(text.skip(1) =~= d);
        } else {
            assert(text =~= d);
        }
    }
    if first >= len {
        return None;
    }
    assert(d[0] == s[first as int]);
    let mut acc: i128 = 0;
    let mut i = first;
    assert(d.take(0) =~= Seq::<char>::empty());
    while i < len
        invariant
            s == chars@,
            len == s.len(),
            start <= first <= i <= len,
            d == s.skip(first as int),
            text == s.skip(start as int),
            negative ==> text.len() > 1 && text[0] == '-' && text.skip(1) == d,
            !negative ==> text == d && text[0] != '-',
            all_digits(d.take(i - first)),
            acc == -digits_value(d.take(i - first)),
            acc <= 0,
        decreases len - i,
    {
        let c = chars[i];
        let ghost seen = d.take(i - first);
        let ghost grown = d.take(i + 1 - first);
        proof {
            assert(d[i - first] == c);
            assert(grown.drop_last() =~= seen);
            assert(grown.last() == c);
        }
        if c < '0' || c > '9' {
            assert(!all_digits(d));
            return None;
        }
        let digit = (c as u8 - 48u8) as i128;
        proof {
            assert(all_digits(grown)) by {
                assert forall|j: int| 0 <= j < grown.len() implies '0' <= #[trigger] grown[j]
                    <= '9' by {
                    if j < seen.len() {
                        assert(grown[j] == seen[j]);
                    }
                }
            }
            assert(digits_value(grown) == digits_value(seen) * 10 + digit);
        }
        if acc < i128::MIN / 10 || acc * 10 < i128::MIN + digit {
            proof {
                assert(digits_value(grown) > -(i128::MIN as int));
                if all_digits(d) {
                    digits_value_grows(d, i + 1 - first);
                }
            }
            return None;
        }
        acc = acc * 10 - digit;
        i = i + 1;
    }
    proof {
        assert(d.take(len - first) =~= d);
    }
    if negative {
        Some(acc)
    } else if acc == i128::MIN {
        None
    } else {
        Some(-acc)
    }
}

/// One line of the protocol, taken apart: the measurement, the tags and the
/// fields with their keys, and the time. The numbers of the fields are given
/// by their text.
#[derive(Debug, Clone)]
pub struct IlpLine {
    pub measurement: String,
    pub tags: Vec<(String, String)>,
    pub fields: Vec<(String, String)>,
    /// The time, where the line ends with a decimal integer of at most 128
    /// bits.
    pub ts: Option<i128>,
}

impl IlpLine {
    /// The value of the first tag with this key.
    pub fn tag(&self, key: &str) -> (value: Option<&str>)
        ensures
            match value {
                Some(v) => value_of(pairs_view(self.tags@), key@) == Some(v@),
                None => value_of(pairs_view(self.tags@), key@) is None,
            },
    {
        find(&self.tags, key)
    }

    /// The text of the first field with this key.
    pub fn field(&self, key: &str) -> (value: Option<&str>)
        ensures
            match value {
                Some(v) => value_of(pairs_view(self.fields@), key@) == Some(v@),
                None => value_of(pairs_view(self.fields@), key@) is None,
            },
    {
        find(&self.fields, key)
    }
}

fn find<'a>(pairs: &'a Vec<(String, String)>, key: &str) -> (value: Option<&'a str>)
    ensures
        match value {
            Some(v) => value_of(pairs_view(pairs@), key@) == Some(v@),
            None => value_of(pairs_view(pairs@), key@) is None,
        },
{
    let ghost all = pairs_view(pairs@);
    let mut i: usize = 0;
    assert(all.skip(0) =~= all);
    while i < pairs.len()
        invariant
            0 <= i <= pairs.len(),
            all == pairs_view(pairs@),
            value_of(all, key@) == value_of(all.skip(i as int), key@),
        decreases pairs.len() - i,
    {
        proof {
            assert(all.skip(i as int)[0] == all[i as int]);
            assert(all.skip(i as int).skip(1) =~= all.skip(i + 1));
        }
        if same_text(pairs[i].0.as_str(), key) {
            return Some(pairs[i].1.as_str());
        }
        i = i + 1;
    }
    None
}

/// Takes a line apart: the measurement runs up to the first comma or space
/// that no backslash escapes; the tags follow, each after a comma; after a
/// space come the fields, separated by commas; after another space comes
/// the time.
pub fn read_ilp_line(line: &str) -> (parts: IlpLine)
    ensures
        parts.measurement@ == read_line(line@).measurement,
        pairs_view(parts.tags@) == read_line(line@).tags,
        pairs_view(parts.fields@) == read_line(line@).fields,
        match parts.ts {
            Some(ts) => is_decimal(time_text(line@)) && ts == read_line(line@).ts,
            None => !is_decimal(time_text(line@)) || read_line(line@).ts < i128::MIN || read_line(
                line@,
            ).ts > i128::MAX,
        },
{
    let chars = chars_of(line);
    let len = chars.len();
    let m = scan_ident(&chars, 0);
    proof {
        assert(chars@.skip(0) =~= chars@);
        assert(chars@.subrange(0, m as int) =~= chars@.take(m as int));
    }
    let measurement = unescape_range(&chars, 0, m);
    let (tags, after_tags) = scan_tags(&chars, m);
    let fields_start = if after_tags < len {
        after_tags + 1
    } else {
        after_tags
    };
    proof {
        let rest = chars@.skip(after_tags as int);
        if after_tags < len {
            assert(rest.skip(1) =~= chars@.skip(fields_start as int));
        }
        assert(after_separator(rest) =~= chars@.skip(fields_start as int));
    }
    let (fields, after_fields) = scan_fields(&chars, fields_start);
    let ts_start = if after_fields < len {
        after_fields + 1
    } else {
        after_fields
    };
    proof {
        let rest = chars@.skip(after_fields as int);
        if after_fields < len {
            assert(rest.skip(1) =~= chars@.skip(ts_start as int));
        }
        assert(after_separator(rest) =~= chars@.skip(ts_start as int));
    }
    let ts = scan_decimal(&chars, ts_start);
    IlpLine { measurement, tags, fields, ts }
}

} // verus!
