//! The start-up handshake between the runtime and its host.
//!
//! Before anything else the runtime names the endpoint it listens on: the
//! length of the name in decimal digits, one NUL byte, and then the name.
//! The host reads the digits up to the NUL, then exactly that many bytes,
//! and refuses anything that does not have this shape.

use crate::decode::string_from_utf8;
use vstd::prelude::*;
use vstd::slice::slice_subrange;
use vstd::slice::slice_to_vec;
use vstd::utf8::*;

verus! {

/// The byte that ends the decimal length.
pub const NUL: u8 = 0;

/// Why the bytes that a runtime sent are no handshake.
#[derive(Clone, Copy, Debug, PartialEq, Eq, Structural)]
pub enum HandshakeError {
    /// The runtime's output ended before the NUL that ends the length.
    MissingTerminator,
    /// What stands before the NUL is no decimal number that fits 64 bits:
    /// it is empty, holds something other than digits, or is too large.
    InvalidLength,
    /// The announced length is more than this machine can address.
    TooLong,
    /// Fewer bytes followed than were announced.
    IncorrectLength,
    /// The endpoint's name is not UTF-8.
    InvalidUtf8,
}

/// Whether `b` is one of the ASCII digits.
pub open spec fn is_digit(b: u8) -> bool {
    48 <= b <= 57
}

/// The position behind the digits that stand at `from`.
pub open spec fn digit_run(s: Seq<u8>, from: int) -> int
    decreases s.len() - from,
{
    if 0 <= from < s.len() && is_digit(s[from]) {
        digit_run(s, from + 1)
    } else {
        from
    }
}

/// The number that a sequence of digits spells.
pub open spec fn decimal_value(s: Seq<u8>) -> nat
    decreases s.len(),
{
    if s.len() == 0 {
        0
    } else {
        10 * decimal_value(s.drop_last()) + (s.last() - 48) as nat
    }
}

/// The digits of `n`, without leading zeros.
pub open spec fn decimal_digits(n: nat) -> Seq<u8>
    decreases n,
{
    if n < 10 {
        seq![(48 + n) as u8]
    } else {
        decimal_digits(n / 10) + seq![(48 + n % 10) as u8]
    }
}

/// What `atoi::atoi::<u64>` makes of `text`: an optional sign, then the
/// digits that follow it, and nothing of what comes after them. There is no
/// number where the text has neither sign nor digit, where the digits spell
/// more than 64 bits hold, and where a minus stands before anything but
/// zeros.
pub open spec fn spec_atoi_u64(text: Seq<u8>) -> Option<u64> {
    let minus = text.len() > 0 && text[0] == 45;
    let plus = text.len() > 0 && text[0] == 43;
    let start: int = if minus || plus {
        1
    } else {
        0
    };
    let end = digit_run(text, start);
    let value = decimal_value(text.subrange(start, end));
    if end == 0 {
        None
    } else if minus {
        if value == 0 {
            Some(0u64)
        } else {
            None
        }
    } else if value <= u64::MAX {
        Some(value as u64)
    } else {
        None
    }
}

/// `atoi::atoi::<u64>`: the number at the front of `text`, as
/// [`spec_atoi_u64`] states it.
#[verifier::external_body]
fn atoi_u64(text: &[u8]) -> (out: Option<u64>)
    ensures
        out == spec_atoi_u64(text@),
{
    atoi::atoi::<u64>(text)
}

/// `itoa::Buffer::format` on a `usize`: the decimal digits of `n`, without
/// sign or leading zeros.
#[verifier::external_body]
fn format_decimal(n: usize) -> (out: Vec<u8>)
    ensures
        out@ == decimal_digits(n as nat),
{
    itoa::Buffer::new().format(n).as_bytes().to_vec()
}

/// Whether `s` is a decimal number: digits, at least one, and nothing else.
pub open spec fn spec_is_decimal(s: Seq<u8>) -> bool {
    s.len() > 0 && digit_run(s, 0) == s.len()
}

/// The handshake that announces `name`.
pub open spec fn spec_handshake_message(name: Seq<u8>) -> Seq<u8> {
    decimal_digits(name.len()) + seq![NUL] + name
}

/// The length that a header announces; the header is what was read up to
/// and with the first NUL, or up to the end of the output. What stands
/// before the NUL has to be a decimal number and nothing else: no sign, no
/// blank, nothing behind the digits.
pub open spec fn spec_handshake_length(header: Seq<u8>) -> Result<nat, HandshakeError> {
    if header.len() == 0 || header.last() != NUL {
        Err(HandshakeError::MissingTerminator)
    } else if !spec_is_decimal(header.drop_last()) || decimal_value(header.drop_last())
        > u64::MAX {
        Err(HandshakeError::InvalidLength)
    } else {
        Ok(decimal_value(header.drop_last()))
    }
}

/// The endpoint that `name` spells if it has the announced length.
pub open spec fn spec_handshake_name(name: Seq<u8>, announced: nat) -> Result<
    Seq<char>,
    HandshakeError,
> {
    if name.len() != announced {
        Err(HandshakeError::IncorrectLength)
    } else if !valid_utf8(name) {
        Err(HandshakeError::InvalidUtf8)
    } else {
        Ok(decode_utf8(name))
    }
}

/// The position of the first NUL at or behind `from`, or the length of `s`.
pub open spec fn first_nul(s: Seq<u8>, from: int) -> int
    decreases s.len() - from,
{
    if 0 <= from < s.len() && s[from] != NUL {
        first_nul(s, from + 1)
    } else {
        from
    }
}

/// The endpoint that a runtime's whole output announces.
pub open spec fn spec_parse_handshake(out: Seq<u8>) -> Result<Seq<char>, HandshakeError> {
    let nul = first_nul(out, 0);
    if nul >= out.len() {
        Err(HandshakeError::MissingTerminator)
    } else {
        match spec_handshake_length(out.subrange(0, nul + 1)) {
            Err(e) => Err(e),
            Ok(n) => if nul + 1 + n <= out.len() {
                spec_handshake_name(out.subrange(nul + 1, nul + 1 + n), n)
            } else {
                Err(HandshakeError::IncorrectLength)
            },
        }
    }
}

/// Builds the handshake that announces `name`.
pub fn handshake_message(name: &[u8]) -> (msg: Vec<u8>)
    ensures
        msg@ == spec_handshake_message(name@),
{
    let mut msg = format_decimal(name.len());
    msg.push(NUL);
    msg.extend_from_slice(name);
    msg
}

/// Whether `field` is a decimal number: digits, at least one, and nothing
/// else.
pub fn is_decimal(field: &[u8]) -> (decimal: bool)
    ensures
        decimal == spec_is_decimal(field@),
{
    let len: usize = field.len();
    let mut i: usize = 0;
    while i < len && 48 <= field[i] && field[i] <= 57
        invariant
            i <= len == field@.len(),
            digit_run(field@, 0) == digit_run(field@, i as int),
        decreases len - i,
    {
        i = i + 1;
    }
    len > 0 && i == len
}

/// Reads the announced length from a header: the bytes that were read up to
/// and with the first NUL, or up to the end of the runtime's output.
pub fn handshake_length(header: &[u8]) -> (out: Result<usize, HandshakeError>)
    ensures
        match spec_handshake_length(header@) {
            Err(e) => out == Err::<usize, HandshakeError>(e),
            Ok(n) => if n <= usize::MAX {
                out == Ok::<usize, HandshakeError>(n as usize)
            } else {
                out == Err::<usize, HandshakeError>(HandshakeError::TooLong)
            },
        },
{
    let len: usize = header.len();
    if len == 0 || header[len - 1] != NUL {
        return Err(HandshakeError::MissingTerminator);
    }
    let digits = slice_subrange(header, 0, len - 1);
    assert(digits@ =~= header@.drop_last());
    if !is_decimal(digits) {
        return Err(HandshakeError::InvalidLength);
    }
    proof {
        lemma_atoi_of_decimal(digits@);
    }
    match atoi_u64(digits) {
        None => Err(HandshakeError::InvalidLength),
        Some(n) => {
            if n > usize::MAX as u64 {
                Err(HandshakeError::TooLong)
            } else {
                Ok(n as usize)
            }
        },
    }
}

/// Checks the bytes that followed the header against the announced length
/// and reads them as the endpoint's name.
pub fn handshake_name(name: Vec<u8>, announced: usize) -> (out: Result<String, HandshakeError>)
    ensures
        match (spec_handshake_name(name@, announced as nat), out) {
            (Err(e), Err(got)) => got == e,
            (Ok(text), Ok(got)) => got@ == text,
            _ => false,
        },
{
    if name.len() != announced {
        return Err(HandshakeError::IncorrectLength);
    }
    match string_from_utf8(name) {
        Some(text) => Ok(text),
        None => Err(HandshakeError::InvalidUtf8),
    }
}

/// Finds the first NUL of `bytes`, or their length where there is none.
pub fn find_nul(bytes: &[u8]) -> (at: usize)
    ensures
        at == first_nul(bytes@, 0),
        at <= bytes@.len(),
{
    let len: usize = bytes.len();
    let mut i: usize = 0;
    while i < len && bytes[i] != NUL
        invariant
            i <= len == bytes@.len(),
            first_nul(bytes@, 0) == first_nul(bytes@, i as int),
        decreases len - i,
    {
        i = i + 1;
    }
    i
}

/// Reads the endpoint's name from everything that a runtime wrote before it
/// began to listen. Bytes behind the announced name are not looked at.
pub fn parse_handshake(output: &[u8]) -> (out: Result<String, HandshakeError>)
    ensures
        match (spec_parse_handshake(output@), out) {
            (Err(e), Err(got)) => got == e,
            (Ok(text), Ok(got)) => got@ == text,
            _ => false,
        },
{
    let len: usize = output.len();
    let nul: usize = find_nul(output);
    if nul >= len {
        return Err(HandshakeError::MissingTerminator);
    }
    let announced: usize = match handshake_length(slice_subrange(output, 0, nul + 1)) {
        Ok(n) => n,
        Err(HandshakeError::TooLong) => {
            return Err(HandshakeError::IncorrectLength);
        },
        Err(e) => {
            return Err(e);
        },
    };
    if announced > len - (nul + 1) {
        return Err(HandshakeError::IncorrectLength);
    }
    let name = slice_to_vec(slice_subrange(output, nul + 1, nul + 1 + announced));
    handshake_name(name, announced)
}

/// The digits of a number are digits, and there is at least one.
pub proof fn lemma_decimal_digits_shape(n: nat)
    ensures
        decimal_digits(n).len() >= 1,
        forall|i: int| 0 <= i < decimal_digits(n).len() ==> is_digit(#[trigger] decimal_digits(n)[i]),
    decreases n,
{
    if n >= 10 {
        lemma_decimal_digits_shape(n / 10);
    }
}

/// The digits of a number spell that number.
pub proof fn lemma_decimal_value_of_digits(n: nat)
    ensures
        decimal_value(decimal_digits(n)) == n,
    decreases n,
{
    let d = decimal_digits(n);
    if n < 10 {
        assert(d.drop_last() =~= Seq::<u8>::empty());
        assert(decimal_value(d.drop_last()) == 0);
    } else {
        lemma_decimal_value_of_digits(n / 10);
        assert(d.drop_last() =~= decimal_digits(n / 10));
        assert(d.last() == (48 + n % 10) as u8);
    }
}

/// Digits all the way from `from` make the run end at the end.
pub proof fn lemma_digit_run_to(s: Seq<u8>, from: int, to: int)
    requires
        0 <= from <= to <= s.len(),
        forall|i: int| from <= i < to ==> is_digit(#[trigger] s[i]),
        to == s.len() || !is_digit(s[to]),
    ensures
        digit_run(s, from) == to,
    decreases to - from,
{
    if from < to {
        lemma_digit_run_to(s, from + 1, to);
    }
}

/// The first NUL behind a stretch without one is found.
pub proof fn lemma_first_nul_at(s: Seq<u8>, from: int, at: int)
    requires
        0 <= from <= at < s.len(),
        forall|i: int| from <= i < at ==> #[trigger] s[i] != NUL,
        s[at] == NUL,
    ensures
        first_nul(s, from) == at,
    decreases at - from,
{
    if from < at {
        lemma_first_nul_at(s, from + 1, at);
    }
}

/// Of a decimal number the number parser makes its value, or nothing where
/// the value is more than 64 bits hold.
pub proof fn lemma_atoi_of_decimal(s: Seq<u8>)
    requires
        spec_is_decimal(s),
    ensures
        spec_atoi_u64(s) == if decimal_value(s) <= u64::MAX {
            Some(decimal_value(s) as u64)
        } else {
            None
        },
{
    assert(is_digit(s[0]));
    assert(s.subrange(0, s.len() as int) =~= s);
}

/// The digits of a number are a decimal number.
pub proof fn lemma_digits_are_decimal(n: nat)
    ensures
        spec_is_decimal(decimal_digits(n)),
        decimal_value(decimal_digits(n)) == n,
{
    let d = decimal_digits(n);
    lemma_decimal_digits_shape(n);
    lemma_decimal_value_of_digits(n);
    lemma_digit_run_to(d, 0, d.len() as int);
}

/// The run of digits ends at the first byte that is no digit, or before.
pub proof fn lemma_digit_run_stops(s: Seq<u8>, from: int, at: int)
    requires
        0 <= from <= at < s.len(),
        !is_digit(s[at]),
    ensures
        from <= digit_run(s, from) <= at,
    decreases at - from,
{
    if from < at && is_digit(s[from]) {
        lemma_digit_run_stops(s, from + 1, at);
    }
}

/// A header whose length field holds anything but digits is refused: a
/// sign, a blank, a letter behind the digits, or nothing at all.
pub proof fn lemma_length_field_must_be_digits(header: Seq<u8>, at: int)
    requires
        header.len() > 0,
        header.last() == NUL,
        header.len() == 1 || (0 <= at < header.len() - 1 && !is_digit(header[at])),
    ensures
        spec_handshake_length(header) == Err::<nat, HandshakeError>(HandshakeError::InvalidLength),
{
    let field = header.drop_last();
    if header.len() > 1 {
        assert(field[at] == header[at]);
        lemma_digit_run_stops(field, 0, at);
    }
}

/// An output whose length field is no decimal number is no handshake,
/// whatever follows the NUL.
pub proof fn lemma_handshake_needs_digits(out: Seq<u8>)
    requires
        first_nul(out, 0) < out.len(),
        !spec_is_decimal(out.subrange(0, first_nul(out, 0))),
    ensures
        spec_parse_handshake(out) == Err::<Seq<char>, HandshakeError>(
            HandshakeError::InvalidLength,
        ),
{
    let nul = first_nul(out, 0);
    lemma_first_nul_bounds(out, 0);
    let header = out.subrange(0, nul + 1);
    assert(header.last() == NUL);
    assert(header.drop_last() =~= out.subrange(0, nul));
}

/// A host that reads the handshake of a runtime learns the name that the
/// runtime announced, whatever the runtime writes after it.
pub proof fn lemma_handshake_round_trip(name: Seq<u8>, rest: Seq<u8>)
    requires
        name.len() <= u64::MAX,
        valid_utf8(name),
    ensures
        spec_parse_handshake(spec_handshake_message(name) + rest) == Ok::<
            Seq<char>,
            HandshakeError,
        >(decode_utf8(name)),
{
    let digits = decimal_digits(name.len());
    let out = spec_handshake_message(name) + rest;
    let nul = digits.len() as int;
    lemma_decimal_digits_shape(name.len());
    lemma_digits_are_decimal(name.len());
    assert forall|i: int| 0 <= i < nul implies #[trigger] out[i] != NUL by {
        assert(out[i] == digits[i]);
        assert(is_digit(digits[i]));
    }
    lemma_first_nul_at(out, 0, nul);
    let header = out.subrange(0, nul + 1);
    assert(header.drop_last() =~= digits);
    assert(header.last() == NUL);
    assert(out.subrange(nul + 1, nul + 1 + name.len()) =~= name);
}

/// An output without any NUL byte is no handshake.
pub proof fn lemma_handshake_needs_terminator(out: Seq<u8>)
    requires
        forall|i: int| 0 <= i < out.len() ==> #[trigger] out[i] != NUL,
    ensures
        spec_parse_handshake(out) == Err::<Seq<char>, HandshakeError>(
            HandshakeError::MissingTerminator,
        ),
{
    lemma_first_nul_bounds(out, 0);
}

/// The first NUL lies in the sequence or at its end, and nothing before it
/// is a NUL.
pub proof fn lemma_first_nul_bounds(s: Seq<u8>, from: int)
    requires
        0 <= from <= s.len(),
    ensures
        from <= first_nul(s, from) <= s.len(),
        first_nul(s, from) < s.len() ==> s[first_nul(s, from)] == NUL,
        forall|i: int| from <= i < first_nul(s, from) ==> #[trigger] s[i] != NUL,
    decreases s.len() - from,
{
    if from < s.len() && s[from] != NUL {
        lemma_first_nul_bounds(s, from + 1);
    }
}

} // verus!
