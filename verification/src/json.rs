//! The JSON text of strings and numbers, as compact serialisers write it.

use vstd::prelude::*;

verus! {

/// `String::push` of the standard library.
///
/// Trusted: it appends the character to the end of the string.
pub assume_specification[ String::push ](s: &mut String, ch: char)
    ensures
        final(s)@ == old(s)@.push(ch),
;

/// The lower-case hexadecimal digit for `n`.
pub open spec fn hex_digit(n: int) -> char
    recommends
        0 <= n < 16,
{
    if n < 10 {
        ('0' as int + n) as char
    } else {
        ('a' as int + n - 10) as char
    }
}

/// How one character stands inside a JSON string.
pub open spec fn escaped_char(c: char) -> Seq<char> {
    if c == '"' {
        seq!['\\', '"']
    } else if c == '\\' {
        seq!['\\', '\\']
    } else if c == '\u{08}' {
        seq!['\\', 'b']
    } else if c == '\t' {
        seq!['\\', 't']
    } else if c == '\n' {
        seq!['\\', 'n']
    } else if c == '\u{0c}' {
        seq!['\\', 'f']
    } else if c == '\r' {
        seq!['\\', 'r']
    } else if (c as int) < 0x20 {
        seq!['\\', 'u', '0', '0', hex_digit((c as int) / 16), hex_digit((c as int) % 16)]
    } else {
        seq![c]
    }
}

/// The characters of `s` with each one escaped, in order.
pub open spec fn escaped(s: Seq<char>) -> Seq<char>
    decreases s.len(),
{
    if s.len() == 0 {
        Seq::empty()
    } else {
        escaped(s.drop_last()) + escaped_char(s.last())
    }
}

/// `s` as a JSON string: quoted and escaped.
pub open spec fn json_string(s: Seq<char>) -> Seq<char> {
    seq!['"'] + escaped(s) + seq!['"']
}

fn push_hex_digit(out: &mut String, n: u8)
    requires
        n < 16,
    ensures
        final(out)@ == old(out)@.push(hex_digit(n as int)),
{
    let c: char = if n < 10 {
        (48u8 + n) as char
    } else {
        (97u8 + (n - 10)) as char
    };
    out.push(c);
}

/// Appends one character of a JSON string to `out`.
pub fn push_escaped_char(out: &mut String, c: char)
    ensures
        final(out)@ == old(out)@ + escaped_char(c),
{
    if c == '"' {
        out.push('\\');
        out.push('"');
    } else if c == '\\' {
        out.push('\\');
        out.push('\\');
    } else if c == '\u{08}' {
        out.push('\\');
        out.push('b');
    } else if c == '\t' {
        out.push('\\');
        out.push('t');
    } else if c == '\n' {
        out.push('\\');
        out.push('n');
    } else if c == '\u{0c}' {
        out.push('\\');
        out.push('f');
    } else if c == '\r' {
        out.push('\\');
        out.push('r');
    } else if (c as u32) < 0x20 {
        let code: u8 = c as u8;
        out.push('\\');
        out.push('u');
        out.push('0');
        out.push('0');
        push_hex_digit(out, code / 16);
        push_hex_digit(out, code % 16);
    } else {
        out.push(c);
    }
    assert(out@ =~= old(out)@ + escaped_char(c));
}

/// A character that stands for itself inside a JSON string.
pub open spec fn is_plain(c: char) -> bool {
    (c as int) >= 0x20 && c != '"' && c != '\\'
}

/// Text of plain characters is its own escaped form.
pub proof fn plain_text_escapes_to_itself(s: Seq<char>)
    requires
        forall|i: int| 0 <= i < s.len() ==> is_plain(#[trigger] s[i]),
    ensures
        escaped(s) == s,
        json_string(s) == seq!['"'] + s + seq!['"'],
    decreases s.len(),
{
    if s.len() > 0 {
        plain_text_escapes_to_itself(s.drop_last());
        assert(is_plain(s.last()));
        assert(escaped_char(s.last()) == seq![s.last()]);
        assert(s.drop_last() + seq![s.last()] =~= s);
    }
}

/// The decimal digits of `n`, without sign or leading zeros.
pub open spec fn decimal(n: nat) -> Seq<char>
    decreases n,
{
    if n < 10 {
        seq![hex_digit(n as int)]
    } else {
        decimal(n / 10).push(hex_digit((n % 10) as int))
    }
}

/// Appends `n` to `out` as a JSON number.
pub fn push_decimal(out: &mut String, n: usize)
    ensures
        final(out)@ == old(out)@ + decimal(n as nat),
    decreases n,
{
    if n >= 10 {
        push_decimal(out, n / 10);
    }
    push_hex_digit(out, (n % 10) as u8);
    assert(out@ =~= old(out)@ + decimal(n as nat));
}

/// The items of `list` as JSON strings, separated by commas.
pub open spec fn json_string_items(list: Seq<Seq<char>>) -> Seq<char>
    decreases list.len(),
{
    if list.len() == 0 {
        Seq::empty()
    } else if list.len() == 1 {
        json_string(list[0])
    } else {
        json_string_items(list.drop_last()) + seq![','] + json_string(list.last())
    }
}

/// `list` as a JSON array of strings.
pub open spec fn json_string_array(list: Seq<Seq<char>>) -> Seq<char> {
    seq!['['] + json_string_items(list) + seq![']']
}

/// Appends `s` to `out` as a JSON string.
pub fn push_json_string(out: &mut String, s: &str)
    ensures
        final(out)@ == old(out)@ + json_string(s@),
{
    out.push('"');
    let ghost start = out@;
    assert(s@.take(0) =~= Seq::<char>::empty());
    for c in it: s.chars()
        invariant
            it.seq() == s@,
            out@ == start + escaped(s@.take(it.index())),
    {
        assert(s@.take(it.index() + 1).drop_last() =~= s@.take(it.index()));
        push_escaped_char(out, c);
    }
    assert(s@.take(s@.len() as int) =~= s@);
    out.push('"');
    assert(out@ =~= old(out)@ + json_string(s@));
}

/// Appends `list` to `out` as a JSON array of strings.
pub fn push_json_string_array(out: &mut String, list: &Vec<String>)
    ensures
        final(out)@ == old(out)@ + json_string_array(list.deep_view()),
{
    out.push('[');
    let ghost start = out@;
    let ghost items = list.deep_view();
    let mut i: usize = 0;
    assert(items.take(0) =~= Seq::<Seq<char>>::empty());
    while i < list.len()
        invariant
            i <= list.len(),
            items == list.deep_view(),
            items.len() == list.len(),
            out@ == start + json_string_items(items.take(i as int)),
        decreases list.len() - i,
    {
        assert(items.take(i + 1).drop_last() =~= items.take(i as int));
        assert(items.take(i + 1).last() == list[i as int]@);
        if i > 0 {
            out.push(',');
        }
        push_json_string(out, list[i].as_str());
        assert(out@ =~= start + json_string_items(items.take(i + 1)));
        i = i + 1;
    }
    assert(items.take(items.len() as int) =~= items);
    out.push(']');
    assert(out@ =~= old(out)@ + json_string_array(items));
}

} // verus!
