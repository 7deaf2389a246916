//! A text made safe to stand between the quotes of a JSON string.
//!
//! What comes out is plain ASCII: the control characters that JSON has a
//! short form for take it, a space and every visible ASCII character stand
//! for themselves, and everything else is written as `\u` and four
//! hexadecimal digits for each of its UTF-16 units. A backslash is put out
//! as it is.

use vstd::prelude::*;
use vstd::string::StringExecFns;

verus! {

/// `String::push` of the standard library: puts `c` at the end of `text`.
#[verifier::external_body]
fn push_char(text: &mut String, c: char)
    ensures
        final(text)@ == old(text)@.push(c),
{
    text.push(c)
}

/// The hexadecimal digit for a number below sixteen, in upper case.
pub open spec fn spec_hex_digit(n: int) -> char {
    if n == 0 {
        '0'
    } else if n == 1 {
        '1'
    } else if n == 2 {
        '2'
    } else if n == 3 {
        '3'
    } else if n == 4 {
        '4'
    } else if n == 5 {
        '5'
    } else if n == 6 {
        '6'
    } else if n == 7 {
        '7'
    } else if n == 8 {
        '8'
    } else if n == 9 {
        '9'
    } else if n == 10 {
        'A'
    } else if n == 11 {
        'B'
    } else if n == 12 {
        'C'
    } else if n == 13 {
        'D'
    } else if n == 14 {
        'E'
    } else {
        'F'
    }
}

/// One UTF-16 unit as `\u` and four hexadecimal digits.
pub open spec fn spec_escape_unit(unit: int) -> Seq<char> {
    "\\u"@ + seq![
        spec_hex_digit(unit / 4096 % 16),
        spec_hex_digit(unit / 256 % 16),
        spec_hex_digit(unit / 16 % 16),
        spec_hex_digit(unit % 16),
    ]
}

/// A code point by its UTF-16 units: one unit below `0x10000`, else a high
/// and a low surrogate.
pub open spec fn spec_escape_units(code: int) -> Seq<char> {
    if code < 0x10000 {
        spec_escape_unit(code)
    } else {
        spec_escape_unit(0xD800 + (code - 0x10000) / 0x400) + spec_escape_unit(
            0xDC00 + (code - 0x10000) % 0x400,
        )
    }
}

/// Whether `c` is a visible ASCII character.
pub open spec fn spec_is_ascii_graphic(c: char) -> bool {
    0x21 <= c as u32 <= 0x7e
}

/// What stands for one character.
#[verifier::opaque]
pub open spec fn spec_escape_char(c: char) -> Seq<char> {
    if c == '\u{8}' {
        "\\b"@
    } else if c == '\u{c}' {
        "\\f"@
    } else if c == '\n' {
        "\\n"@
    } else if c == '\r' {
        "\\r"@
    } else if c == '\t' {
        "\\t"@
    } else if c == '"' {
        "\\\""@
    } else if c == '\\' {
        "\\"@
    } else if c == ' ' || spec_is_ascii_graphic(c) {
        seq![c]
    } else {
        spec_escape_units(c as u32 as int)
    }
}

/// What stands for a text: what stands for each of its characters, in turn.
pub open spec fn spec_escape_json(text: Seq<char>) -> Seq<char>
    decreases text.len(),
{
    if text.len() == 0 {
        Seq::empty()
    } else {
        spec_escape_char(text[0]) + spec_escape_json(text.drop_first())
    }
}

/// A text that is to be written in its escaped form.
#[derive(Clone, Copy, Debug)]
pub struct EscapeJson<'a>(&'a str);

/// Texts that can be written in an escaped form.
pub trait EscapeExt {
    /// The text on which the result stands.
    spec fn spec_text(&self) -> Seq<char>;

    /// The text, to be written in its escaped form.
    fn escape_json(&self) -> (out: EscapeJson<'_>)
        ensures
            out@ == self.spec_text(),
    ;
}

impl EscapeExt for str {
    open spec fn spec_text(&self) -> Seq<char> {
        self@
    }

    fn escape_json(&self) -> (out: EscapeJson<'_>) {
        EscapeJson(self)
    }
}

impl<'a> View for EscapeJson<'a> {
    type V = Seq<char>;

    closed spec fn view(&self) -> Seq<char> {
        self.0@
    }
}

/// The hexadecimal digit for `n`, in upper case.
fn hex_digit(n: u32) -> (c: char)
    requires
        n < 16,
    ensures
        c == spec_hex_digit(n as int),
{
    if n == 0 {
        '0'
    } else if n == 1 {
        '1'
    } else if n == 2 {
        '2'
    } else if n == 3 {
        '3'
    } else if n == 4 {
        '4'
    } else if n == 5 {
        '5'
    } else if n == 6 {
        '6'
    } else if n == 7 {
        '7'
    } else if n == 8 {
        '8'
    } else if n == 9 {
        '9'
    } else if n == 10 {
        'A'
    } else if n == 11 {
        'B'
    } else if n == 12 {
        'C'
    } else if n == 13 {
        'D'
    } else if n == 14 {
        'E'
    } else {
        'F'
    }
}

/// Writes one UTF-16 unit as `\u` and four hexadecimal digits.
fn put_unit(out: &mut String, unit: u32)
    requires
        unit < 0x10000,
    ensures
        final(out)@ == old(out)@ + spec_escape_unit(unit as int),
{
    out.append("\\u");
    push_char(out, hex_digit(unit / 4096 % 16));
    push_char(out, hex_digit(unit / 256 % 16));
    push_char(out, hex_digit(unit / 16 % 16));
    push_char(out, hex_digit(unit % 16));
    assert(out@ =~= old(out)@ + spec_escape_unit(unit as int));
}

/// Writes what stands for one character.
fn put_char(out: &mut String, c: char)
    ensures
        final(out)@ == old(out)@ + spec_escape_char(c),
{
    reveal(spec_escape_char);
    let code: u32 = c as u32;
    if c == '\u{8}' {
        out.append("\\b");
    } else if c == '\u{c}' {
        out.append("\\f");
    } else if c == '\n' {
        out.append("\\n");
    } else if c == '\r' {
        out.append("\\r");
    } else if c == '\t' {
        out.append("\\t");
    } else if c == '"' {
        out.append("\\\"");
    } else if c == '\\' {
        out.append("\\");
    } else if c == ' ' || (0x21 <= code && code <= 0x7e) {
        push_char(out, c);
        assert(out@ =~= old(out)@ + seq![c]);
    } else if code < 0x10000 {
        put_unit(out, code);
    } else {
        let high: u32 = 0xD800 + (code - 0x10000) / 0x400;
        let low: u32 = 0xDC00 + (code - 0x10000) % 0x400;
        put_unit(out, high);
        put_unit(out, low);
        assert(out@ =~= old(out)@ + spec_escape_units(code as int));
    }
}

/// What stands for two texts in a row is what stands for the first and then
/// what stands for the second.
pub proof fn lemma_escape_json_concat(a: Seq<char>, b: Seq<char>)
    ensures
        spec_escape_json(a + b) == spec_escape_json(a) + spec_escape_json(b),
    decreases a.len(),
{
    if a.len() == 0 {
        assert(a + b =~= b);
        assert(spec_escape_json(a) + spec_escape_json(b) =~= spec_escape_json(b));
    } else {
        lemma_escape_json_concat(a.drop_first(), b);
        assert((a + b).drop_first() =~= a.drop_first() + b);
        assert(spec_escape_json(a + b) =~= spec_escape_json(a) + spec_escape_json(b));
    }
}

/// What stands for a text with one more character is what stands for the
/// text and then what stands for the character.
pub proof fn lemma_escape_json_push(done: Seq<char>, c: char)
    ensures
        spec_escape_json(done.push(c)) == spec_escape_json(done) + spec_escape_char(c),
{
    lemma_escape_json_concat(done, seq![c]);
    let one = seq![c];
    assert(one.len() == 1 && one[0] == c);
    assert(one.drop_first() =~= Seq::<char>::empty());
    assert(spec_escape_json(one.drop_first()) =~= Seq::<char>::empty());
    assert(spec_escape_json(one) =~= spec_escape_char(c) + Seq::<char>::empty());
    assert(spec_escape_json(one) =~= spec_escape_char(c));
    assert(done + seq![c] =~= done.push(c));
}

impl<'a> EscapeJson<'a> {
    /// The escaped form of the text.
    pub fn escaped(&self) -> (out: String)
        ensures
            out@ == spec_escape_json(self@),
    {
        broadcast use vstd::string::group_string_axioms;

        let mut out = String::new();
        for c in it: self.0.chars()
            invariant
                it.seq() == self@,
                out@ == spec_escape_json(it.seq().subrange(0, it.index() as int)),
        {
            let ghost done = it.seq().subrange(0, it.index() as int);
            put_char(&mut out, c);
            proof {
                lemma_escape_json_push(done, c);
                assert(it.seq().subrange(0, it.index() + 1) =~= done.push(c));
            }
        }
        assert(self@.subrange(0, self@.len() as int) =~= self@);
        out
    }
}

} // verus!
