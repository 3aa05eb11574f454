//! The structured error body the identity gate serializes on a denied request.

use vstd::prelude::*;

verus! {

/// The decimal digit character for `d`, defined for `d < 10`.
pub open spec fn spec_digit(d: nat) -> char {
    if d == 0 {
        '0'
    } else if d == 1 {
        '1'
    } else if d == 2 {
        '2'
    } else if d == 3 {
        '3'
    } else if d == 4 {
        '4'
    } else if d == 5 {
        '5'
    } else if d == 6 {
        '6'
    } else if d == 7 {
        '7'
    } else if d == 8 {
        '8'
    } else {
        '9'
    }
}

/// The decimal representation of `n`, most significant digit first,
/// with no leading zeros (a single `'0'` for zero).
pub open spec fn spec_digits(n: nat) -> Seq<char>
    decreases n,
{
    if n < 10 {
        seq![spec_digit(n)]
    } else {
        spec_digits(n / 10).push(spec_digit(n % 10))
    }
}

fn digit_char(d: u8) -> (c: char)
    requires
        d < 10,
    ensures
        c == spec_digit(d as nat),
{
    if d == 0 {
        '0'
    } else if d == 1 {
        '1'
    } else if d == 2 {
        '2'
    } else if d == 3 {
        '3'
    } else if d == 4 {
        '4'
    } else if d == 5 {
        '5'
    } else if d == 6 {
        '6'
    } else if d == 7 {
        '7'
    } else if d == 8 {
        '8'
    } else {
        '9'
    }
}

/// Relies on `String::push` from std: appends the given character at the
/// end of the string.
#[verifier::external_body]
fn push_char(s: &mut String, c: char)
    ensures
        final(s)@ == old(s)@.push(c),
{
    s.push(c);
}

/// The decimal digits of `n` as a string.
pub fn decimal_string(n: u16) -> (r: String)
    ensures
        r@ == spec_digits(n as nat),
    decreases n,
{
    if n < 10 {
        let mut s = String::new();
        push_char(&mut s, digit_char(n as u8));
        proof {
            assert(s@ =~= spec_digits(n as nat));
        }
        s
    } else {
        let mut s = decimal_string(n / 10);
        push_char(&mut s, digit_char((n % 10) as u8));
        s
    }
}

/// The hexadecimal digit character for `d`, defined for `d < 16`.
pub open spec fn spec_hex_digit(d: nat) -> char {
    if d < 10 {
        spec_digit(d)
    } else if d == 10 {
        'a'
    } else if d == 11 {
        'b'
    } else if d == 12 {
        'c'
    } else if d == 13 {
        'd'
    } else if d == 14 {
        'e'
    } else {
        'f'
    }
}

fn hex_digit_char(d: u8) -> (c: char)
    requires
        d < 16,
    ensures
        c == spec_hex_digit(d as nat),
{
    if d < 10 {
        digit_char(d)
    } else if d == 10 {
        'a'
    } else if d == 11 {
        'b'
    } else if d == 12 {
        'c'
    } else if d == 13 {
        'd'
    } else if d == 14 {
        'e'
    } else {
        'f'
    }
}

/// How one character appears inside a JSON string literal: quotes,
/// backslashes and control characters are escaped, every other
/// character stands for itself.
pub open spec fn spec_escape_char(c: char) -> Seq<char> {
    if c == '"' {
        seq!['\\', '"']
    } else if c == '\\' {
        seq!['\\', '\\']
    } else if c == '\u{8}' {
        seq!['\\', 'b']
    } else if c == '\u{c}' {
        seq!['\\', 'f']
    } else if c == '\n' {
        seq!['\\', 'n']
    } else if c == '\r' {
        seq!['\\', 'r']
    } else if c == '\t' {
        seq!['\\', 't']
    } else if (c as nat) < 32 {
        seq!['\\', 'u', '0', '0', spec_hex_digit((c as nat) / 16), spec_hex_digit((c as nat) % 16)]
    } else {
        seq![c]
    }
}

/// The body of a JSON string literal holding the characters `s`.
pub open spec fn spec_escaped(s: Seq<char>) -> Seq<char>
    decreases s.len(),
{
    if s.len() == 0 {
        Seq::<char>::empty()
    } else {
        spec_escaped(s.drop_last()) + spec_escape_char(s.last())
    }
}

fn append_escaped_char(out: &mut String, c: char)
    ensures
        final(out)@ == old(out)@ + spec_escape_char(c),
{
    let code: u32 = c as u32;
    if c == '"' {
        push_char(out, '\\');
        push_char(out, '"');
    } else if c == '\\' {
        push_char(out, '\\');
        push_char(out, '\\');
    } else if c == '\u{8}' {
        push_char(out, '\\');
        push_char(out, 'b');
    } else if c == '\u{c}' {
        push_char(out, '\\');
        push_char(out, 'f');
    } else if c == '\n' {
        push_char(out, '\\');
        push_char(out, 'n');
    } else if c == '\r' {
        push_char(out, '\\');
        push_char(out, 'r');
    } else if c == '\t' {
        push_char(out, '\\');
        push_char(out, 't');
    } else if code < 32 {
        push_char(out, '\\');
        push_char(out, 'u');
        push_char(out, '0');
        push_char(out, '0');
        push_char(out, hex_digit_char((code / 16) as u8));
        push_char(out, hex_digit_char((code % 16) as u8));
    } else {
        push_char(out, c);
    }
    proof {
        assert(out@ =~= old(out)@ + spec_escape_char(c));
    }
}

/// Appends to `out` the JSON-escaped form of every character of `msg`.
fn append_escaped(out: &mut String, msg: &str)
    ensures
        final(out)@ == old(out)@ + spec_escaped(msg@),
{
    let len = msg.unicode_len();
    let mut i: usize = 0;
    while i < len
        invariant
            i <= len,
            len == msg@.len(),
            out@ == old(out)@ + spec_escaped(msg@.take(i as int)),
        decreases len - i,
    {
        let c = msg.get_char(i);
        append_escaped_char(out, c);
        proof {
            assert(msg@.take(i + 1 as int).drop_last() =~= msg@.take(i as int));
            assert(msg@.take(i + 1 as int).last() == c);
            assert(out@ =~= old(out)@ + spec_escaped(msg@.take(i + 1 as int)));
        }
        i = i + 1;
    }
    proof {
        assert(msg@.take(len as int) =~= msg@);
    }
}

/// A string with no quote, backslash or control character serializes to
/// itself: escaping touches nothing in it.
pub proof fn lemma_escaped_plain(s: Seq<char>)
    requires
        forall|i: int| 0 <= i < s.len() ==> spec_escape_char(s[i]) == seq![s[i]],
    ensures
        spec_escaped(s) == s,
    decreases s.len(),
{
    if s.len() == 0 {
        assert(spec_escaped(s) =~= s);
    } else {
        lemma_escaped_plain(s.drop_last());
        assert(spec_escape_char(s.last()) == seq![s.last()]);
        assert(spec_escaped(s) =~= s);
    }
}

/// The serialized JSON object `{"status_code":<status>,"message":"<message>"}`.
pub open spec fn spec_error_json(status: nat, message: Seq<char>) -> Seq<char> {
    "{\"status_code\":"@ + spec_digits(status) + ",\"message\":\""@ + spec_escaped(message)
        + "\"}"@
}

/// The structured body returned to the caller when a request is denied:
/// a status code and a human-readable message.
pub struct ErrorResponse {
    pub status_code: u16,
    pub message: String,
}

impl ErrorResponse {
    /// Builds an error body from a status code and a message.
    pub fn new(status_code: u16, message: String) -> (r: ErrorResponse)
        ensures
            r.status_code == status_code,
            r.message@ == message@,
    {
        ErrorResponse { status_code, message }
    }

    /// Serializes the error body as a JSON object.
    pub fn to_json(&self) -> (r: String)
        ensures
            r@ == spec_error_json(self.status_code as nat, self.message@),
    {
        let mut out = String::from_str("{\"status_code\":");
        let digits = decimal_string(self.status_code);
        out.append(digits.as_str());
        out.append(",\"message\":\"");
        append_escaped(&mut out, self.message.as_str());
        out.append("\"}");
        out
    }
}

} // verus!
