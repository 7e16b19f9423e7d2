//! Text building blocks: how identifiers are printed, how SQL assignment
//! clauses are joined, and JSON string encoding.

use vstd::prelude::*;

verus! {

/// The lowercase hexadecimal digit for `n` in `0..16`.
pub open spec fn hex_digit(n: int) -> char {
    if n < 10 {
        (n + 48) as char
    } else {
        (n + 87) as char
    }
}

/// The `k`-th of the 32 nibbles of `id`, the most significant first.
pub open spec fn nibble_of(id: u128, k: int) -> int {
    ((id >> ((124 - 4 * k) as u128)) & 15u128) as int
}

/// How many hyphens precede position `p` of the hyphenated form.
pub open spec fn hyphens_before(p: int) -> int {
    if p < 8 {
        0
    } else if p < 13 {
        1
    } else if p < 18 {
        2
    } else if p < 23 {
        3
    } else {
        4
    }
}

/// The hyphenated lowercase form of an identifier, such as
/// `67e55044-10b1-426f-9247-bb680e5fe0c8`: 32 hexadecimal digits, most
/// significant first, with a hyphen after the 8th, 12th, 16th and 20th digit.
pub open spec fn uuid_text(id: u128) -> Seq<char> {
    Seq::new(
        36,
        |p: int|
            if p == 8 || p == 13 || p == 18 || p == 23 {
                '-'
            } else {
                hex_digit(nibble_of(id, p - hyphens_before(p)))
            },
    )
}

/// Prints an identifier the way `uuid::Uuid`'s `Display` does.
///
/// Trusted: calls `uuid::Uuid::from_u128` (big-endian) and `to_string`, which
/// the `uuid` crate documents and implements as the hyphenated lowercase form.
#[verifier::external_body]
pub(crate) fn uuid_to_string(id: u128) -> (s: String)
    ensures
        s@ == uuid_text(id),
{
    uuid::Uuid::from_u128(id).to_string()
}

/// How JSON writes one character inside a string literal: a quote and a
/// backslash behind a backslash; backspace, tab, line feed, form feed and
/// carriage return as `\b`, `\t`, `\n`, `\f`, `\r`; every other control
/// character below 0x20 as `\u00` and two lowercase hexadecimal digits;
/// anything else as it is.
pub open spec fn json_escape_char(c: char) -> Seq<char> {
    let n = c as int;
    if c == '"' {
        seq!['\\', '"']
    } else if c == '\\' {
        seq!['\\', '\\']
    } else if n == 8 {
        seq!['\\', 'b']
    } else if n == 9 {
        seq!['\\', 't']
    } else if n == 10 {
        seq!['\\', 'n']
    } else if n == 12 {
        seq!['\\', 'f']
    } else if n == 13 {
        seq!['\\', 'r']
    } else if n < 32 {
        seq!['\\', 'u', '0', '0', hex_digit(n / 16), hex_digit(n % 16)]
    } else {
        seq![c]
    }
}

/// The characters of `s`, each as JSON writes it inside a string literal.
pub open spec fn json_escape(s: Seq<char>) -> Seq<char>
    decreases s.len(),
{
    if s.len() == 0 {
        Seq::empty()
    } else {
        json_escape(s.drop_last()) + json_escape_char(s.last())
    }
}

/// The JSON string literal of `s`: its escaped characters between quotes.
pub open spec fn json_string(s: Seq<char>) -> Seq<char> {
    seq!['"'] + json_escape(s) + seq!['"']
}

/// Encodes a string as a JSON string literal.
///
/// Trusted: calls `serde_json::to_string` on a `&str`, which writes the
/// string, escaped by serde_json's escape table, between quotes into a
/// vector of bytes, a write that cannot fail. Its error type is handed back
/// as text, though no error occurs.
#[verifier::external_body]
pub(crate) fn json_string_literal(s: &str) -> (r: Result<String, String>)
    ensures
        r is Ok,
        r matches Ok(t) ==> t@ == json_string(s@),
{
    match serde_json::to_string(s) {
        Ok(t) => Ok(t),
        Err(e) => Err(e.to_string()),
    }
}

/// `'v'`: a value quoted as an SQL string.
pub open spec fn quoted(v: Seq<char>) -> Seq<char> {
    "'"@ + v + "'"@
}

/// `SET "field" = value`: one assignment of an `Update` statement.
pub open spec fn assignment(field: Seq<char>, value: Seq<char>) -> Seq<char> {
    "SET \""@ + field + "\" = "@ + value
}

/// The assignments joined by commas, in order.
pub open spec fn join_clauses(parts: Seq<Seq<char>>) -> Seq<char>
    decreases parts.len(),
{
    if parts.len() == 0 {
        Seq::empty()
    } else if parts.len() == 1 {
        parts[0]
    } else {
        join_clauses(parts.drop_last()) + ","@ + parts.last()
    }
}

/// The text of a boolean, as `Display` prints it.
pub open spec fn bool_text(b: bool) -> Seq<char> {
    if b {
        "true"@
    } else {
        "false"@
    }
}

/// `'text'`.
pub fn quote(text: &str) -> (r: String)
    ensures
        r@ == quoted(text@),
{
    let mut r = String::from_str("'");
    r.append(text);
    r.append("'");
    r
}

/// Prints a boolean as `true` or `false`.
pub fn bool_to_text(b: bool) -> (r: String)
    ensures
        r@ == bool_text(b),
{
    if b {
        String::from_str("true")
    } else {
        String::from_str("false")
    }
}

/// Appends the assignment `SET "field" = value` to the clauses built so far,
/// with a comma before it unless it is the first.
pub(crate) fn push_assignment(
    acc: &mut String,
    Ghost(parts): Ghost<Seq<Seq<char>>>,
    first: bool,
    field: &str,
    value: &str,
)
    requires
        old(acc)@ == join_clauses(parts),
        first == (parts.len() == 0),
    ensures
        final(acc)@ == join_clauses(parts.push(assignment(field@, value@))),
{
    let ghost next = parts.push(assignment(field@, value@));
    assert(next.drop_last() =~= parts);
    if !first {
        acc.append(",");
    }
    acc.append("SET \"");
    acc.append(field);
    acc.append("\" = ");
    acc.append(value);
    if first {
        assert(acc@ =~= assignment(field@, value@));
    } else {
        assert(acc@ =~= join_clauses(parts) + ","@ + assignment(field@, value@));
    }
}

} // verus!
