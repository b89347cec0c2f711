//! Character-level text building: lowercase hex encoding and the JSON and
//! HTML escaping used by the response projections.

use vstd::prelude::*;

verus! {

/// Relies on std's String::push: appends exactly the given character.
#[verifier::external_body]
pub(crate) fn push_char(s: &mut String, c: char)
    ensures
        final(s)@ == old(s)@.push(c),
{
    s.push(c);
}

/// The lowercase hexadecimal digit for a value below sixteen.
pub open spec fn hex_char(n: int) -> char {
    if n == 0 { '0' }
    else if n == 1 { '1' }
    else if n == 2 { '2' }
    else if n == 3 { '3' }
    else if n == 4 { '4' }
    else if n == 5 { '5' }
    else if n == 6 { '6' }
    else if n == 7 { '7' }
    else if n == 8 { '8' }
    else if n == 9 { '9' }
    else if n == 10 { 'a' }
    else if n == 11 { 'b' }
    else if n == 12 { 'c' }
    else if n == 13 { 'd' }
    else if n == 14 { 'e' }
    else { 'f' }
}

/// Lowercase hex rendering of a byte string, two digits per byte.
pub open spec fn hex_of(data: Seq<u8>) -> Seq<char>
    decreases data.len(),
{
    if data.len() == 0 {
        seq![]
    } else {
        seq![hex_char(data.first() as int / 16), hex_char(data.first() as int % 16)]
            + hex_of(data.drop_first())
    }
}

pub proof fn lemma_hex_of_len(data: Seq<u8>)
    ensures
        hex_of(data).len() == 2 * data.len(),
    decreases data.len(),
{
    if data.len() > 0 {
        lemma_hex_of_len(data.drop_first());
    }
}

fn hex_digit(n: u8) -> (c: char)
    requires
        n < 16,
    ensures
        c == hex_char(n as int),
{
    match n {
        0 => '0',
        1 => '1',
        2 => '2',
        3 => '3',
        4 => '4',
        5 => '5',
        6 => '6',
        7 => '7',
        8 => '8',
        9 => '9',
        10 => 'a',
        11 => 'b',
        12 => 'c',
        13 => 'd',
        14 => 'e',
        _ => 'f',
    }
}

/// Renders a byte string as lowercase hex, two digits per byte.
pub fn to_hex_lower(data: &[u8]) -> (res: String)
    ensures
        res@ == hex_of(data@),
        res@.len() == 2 * data@.len(),
{
    let mut res = String::new();
    assert(data@.skip(0) == data@);
    let data_len = data.len();
    for i in 0..data_len
        invariant
            data_len == data@.len(),
            hex_of(data@) =~= res@ + hex_of(data@.skip(i as int)),
            res@.len() == 2 * i,
    {
        let byte = data[i];
        push_char(&mut res, hex_digit(byte / 16));
        push_char(&mut res, hex_digit(byte % 16));
        assert(data@.skip(i as int).drop_first() == data@.skip(i + 1));
    }
    proof {
        lemma_hex_of_len(data@);
    }
    res
}

/// How a single character appears inside a JSON string literal: quote,
/// backslash and control characters are escaped, everything else stands
/// as itself.
pub open spec fn json_escape_char(c: char) -> Seq<char> {
    if c == '"' {
        seq!['\\', '"']
    } else if c == '\\' {
        seq!['\\', '\\']
    } else if c == '\n' {
        seq!['\\', 'n']
    } else if c == '\r' {
        seq!['\\', 'r']
    } else if c == '\t' {
        seq!['\\', 't']
    } else if (c as int) < 0x20 {
        seq!['\\', 'u', '0', '0', hex_char(c as int / 16), hex_char(c as int % 16)]
    } else {
        seq![c]
    }
}

/// A string escaped for inclusion in a JSON string literal.
pub open spec fn json_escaped(s: Seq<char>) -> Seq<char>
    decreases s.len(),
{
    if s.len() == 0 {
        seq![]
    } else {
        json_escape_char(s.first()) + json_escaped(s.drop_first())
    }
}

fn push_json_escaped_char(res: &mut String, c: char)
    ensures
        final(res)@ == old(res)@ + json_escape_char(c),
{
    if c == '"' {
        push_char(res, '\\');
        push_char(res, '"');
        assert(res@ =~= old(res)@ + json_escape_char(c));
    } else if c == '\\' {
        push_char(res, '\\');
        push_char(res, '\\');
        assert(res@ =~= old(res)@ + json_escape_char(c));
    } else if c == '\n' {
        push_char(res, '\\');
        push_char(res, 'n');
        assert(res@ =~= old(res)@ + json_escape_char(c));
    } else if c == '\r' {
        push_char(res, '\\');
        push_char(res, 'r');
        assert(res@ =~= old(res)@ + json_escape_char(c));
    } else if c == '\t' {
        push_char(res, '\\');
        push_char(res, 't');
        assert(res@ =~= old(res)@ + json_escape_char(c));
    } else if (c as u32) < 0x20 {
        push_char(res, '\\');
        push_char(res, 'u');
        push_char(res, '0');
        push_char(res, '0');
        let code = c as u32;
        push_char(res, hex_digit((code / 16) as u8));
        push_char(res, hex_digit((code % 16) as u8));
        assert(res@ =~= old(res)@ + json_escape_char(c));
    } else {
        push_char(res, c);
        assert(res@ =~= old(res)@ + json_escape_char(c));
    }
}

/// Escapes a string for inclusion in a JSON string literal.
pub fn json_escape(s: &str) -> (res: String)
    ensures
        res@ == json_escaped(s@),
{
    let mut res = String::new();
    assert(s@.skip(0) == s@);
    let n = s.unicode_len();
    for i in 0..n
        invariant
            n == s@.len(),
            json_escaped(s@) =~= res@ + json_escaped(s@.skip(i as int)),
    {
        let c = s.get_char(i);
        proof {
            assert(s@.skip(i as int).first() == s@[i as int]);
            assert(s@.skip(i as int).drop_first() == s@.skip(i + 1));
        }
        push_json_escaped_char(&mut res, c);
    }
    assert(s@.skip(n as int) =~= Seq::<char>::empty());
    res
}

/// A character that JSON escaping leaves as itself.
pub open spec fn json_plain_char(c: char) -> bool {
    c != '"' && c != '\\' && c as int >= 0x20
}

/// Escaping changes nothing in a string of plain characters.
pub proof fn lemma_json_escaped_plain(s: Seq<char>)
    requires
        forall|i: int| 0 <= i < s.len() ==> json_plain_char(#[trigger] s[i]),
    ensures
        json_escaped(s) == s,
    decreases s.len(),
{
    if s.len() == 0 {
        assert(json_escaped(s) =~= s);
    } else {
        assert(json_plain_char(s[0]));
        assert(json_escape_char(s.first()) == seq![s.first()]);
        assert forall|i: int| 0 <= i < s.drop_first().len() implies json_plain_char(
            #[trigger] s.drop_first()[i],
        ) by {
            assert(s.drop_first()[i] == s[i + 1]);
        }
        lemma_json_escaped_plain(s.drop_first());
        assert(json_escaped(s) =~= s);
    }
}

/// How a single character appears inside HTML text content: the five
/// markup-significant characters become entities, everything else stands
/// as itself.
pub open spec fn html_escape_char(c: char) -> Seq<char> {
    if c == '&' {
        seq!['&', 'a', 'm', 'p', ';']
    } else if c == '<' {
        seq!['&', 'l', 't', ';']
    } else if c == '>' {
        seq!['&', 'g', 't', ';']
    } else if c == '"' {
        seq!['&', 'q', 'u', 'o', 't', ';']
    } else if c == '\'' {
        seq!['&', '#', 'x', '2', '7', ';']
    } else {
        seq![c]
    }
}

/// A string escaped for inclusion in HTML text content.
pub open spec fn html_escaped(s: Seq<char>) -> Seq<char>
    decreases s.len(),
{
    if s.len() == 0 {
        seq![]
    } else {
        html_escape_char(s.first()) + html_escaped(s.drop_first())
    }
}

fn push_html_escaped_char(res: &mut String, c: char)
    ensures
        final(res)@ == old(res)@ + html_escape_char(c),
{
    if c == '&' {
        push_char(res, '&');
        push_char(res, 'a');
        push_char(res, 'm');
        push_char(res, 'p');
        push_char(res, ';');
        assert(res@ =~= old(res)@ + html_escape_char(c));
    } else if c == '<' {
        push_char(res, '&');
        push_char(res, 'l');
        push_char(res, 't');
        push_char(res, ';');
        assert(res@ =~= old(res)@ + html_escape_char(c));
    } else if c == '>' {
        push_char(res, '&');
        push_char(res, 'g');
        push_char(res, 't');
        push_char(res, ';');
        assert(res@ =~= old(res)@ + html_escape_char(c));
    } else if c == '"' {
        push_char(res, '&');
        push_char(res, 'q');
        push_char(res, 'u');
        push_char(res, 'o');
        push_char(res, 't');
        push_char(res, ';');
        assert(res@ =~= old(res)@ + html_escape_char(c));
    } else if c == '\'' {
        push_char(res, '&');
        push_char(res, '#');
        push_char(res, 'x');
        push_char(res, '2');
        push_char(res, '7');
        push_char(res, ';');
        assert(res@ =~= old(res)@ + html_escape_char(c));
    } else {
        push_char(res, c);
        assert(res@ =~= old(res)@ + html_escape_char(c));
    }
}

/// Escapes a string for inclusion in HTML text content.
pub fn html_escape(s: &str) -> (res: String)
    ensures
        res@ == html_escaped(s@),
{
    let mut res = String::new();
    assert(s@.skip(0) == s@);
    let n = s.unicode_len();
    for i in 0..n
        invariant
            n == s@.len(),
            html_escaped(s@) =~= res@ + html_escaped(s@.skip(i as int)),
    {
        let c = s.get_char(i);
        proof {
            assert(s@.skip(i as int).first() == s@[i as int]);
            assert(s@.skip(i as int).drop_first() == s@.skip(i + 1));
        }
        push_html_escaped_char(&mut res, c);
    }
    assert(s@.skip(n as int) =~= Seq::<char>::empty());
    res
}

} // verus!
