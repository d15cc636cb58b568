//! Names: from the names written in a schema to Rust identifiers.

use vstd::prelude::*;
use vstd::string::*;

verus! {

/// The upper camel case form of a text, as `heck` computes it.
pub uninterp spec fn upper_camel_case(text: Seq<char>) -> Seq<char>;

/// The snake case form of a text, as `heck` computes it.
pub uninterp spec fn snake_case(text: Seq<char>) -> Seq<char>;

/// Whether Unicode gives a character XID_Start, by the tables of
/// `unicode-ident`.
pub uninterp spec fn xid_start(c: char) -> bool;

/// Whether Unicode gives a character XID_Continue, by the tables of
/// `unicode-ident`.
pub uninterp spec fn xid_continue(c: char) -> bool;

/// Calls `heck::ToUpperCamelCase::to_upper_camel_case`. Trusted: the result
/// is the crate's upper camel case form of the text. Words are cut at every
/// character that is not alphanumeric and joined without a separator, so no
/// full stop is left in the result.
#[verifier::external_body]
fn heck_upper_camel_case(text: &str) -> (out: String)
    ensures
        out@ == upper_camel_case(text@),
        !out@.contains('.'),
{
    heck::ToUpperCamelCase::to_upper_camel_case(text)
}

/// Calls `heck::ToSnakeCase::to_snake_case`. Trusted: the result is the
/// crate's snake case form of the text.
#[verifier::external_body]
fn heck_snake_case(text: &str) -> (out: String)
    ensures
        out@ == snake_case(text@),
{
    heck::ToSnakeCase::to_snake_case(text)
}

/// Calls `unicode_ident::is_xid_start`. Trusted: the result is the crate's
/// answer for the character.
#[verifier::external_body]
fn unicode_xid_start(c: char) -> (r: bool)
    ensures
        r == xid_start(c),
{
    unicode_ident::is_xid_start(c)
}

/// Calls `unicode_ident::is_xid_continue`. Trusted: the result is the
/// crate's answer for the character.
#[verifier::external_body]
fn unicode_xid_continue(c: char) -> (r: bool)
    ensures
        r == xid_continue(c),
{
    unicode_ident::is_xid_continue(c)
}

/// The text with every full stop turned into an underscore.
pub open spec fn replace_dots(text: Seq<char>) -> Seq<char> {
    Seq::new(text.len(), |i: int| if text[i] == '.' { '_' } else { text[i] })
}

/// The name of the Rust type that stands for the schema name `text`.
pub open spec fn type_identifier(text: Seq<char>) -> Seq<char> {
    upper_camel_case(replace_dots(text))
}

/// The name of the Rust field that stands for the schema name `text`.
pub open spec fn field_identifier(text: Seq<char>) -> Seq<char> {
    snake_case(text)
}

/// Whether `c` is one of the letters `a` to `z` and `A` to `Z`.
pub open spec fn is_ascii_letter(c: char) -> bool {
    ('a' <= c && c <= 'z') || ('A' <= c && c <= 'Z')
}

/// Whether `c` is one of the digits `0` to `9`.
pub open spec fn is_ascii_digit(c: char) -> bool {
    '0' <= c && c <= '9'
}

/// Whether an identifier may begin with `c`: an underscore, an ASCII letter,
/// or a character beyond ASCII with XID_Start.
pub open spec fn identifier_start(c: char) -> bool {
    c == '_' || if (c as u32) < 128 {
        is_ascii_letter(c)
    } else {
        xid_start(c)
    }
}

/// Whether an identifier may go on with `c`: an underscore, an ASCII letter
/// or digit, or a character beyond ASCII with XID_Continue.
pub open spec fn identifier_continue(c: char) -> bool {
    if (c as u32) < 128 {
        c == '_' || is_ascii_letter(c) || is_ascii_digit(c)
    } else {
        xid_continue(c)
    }
}

/// Whether `text` is an identifier: not empty, a start character first and
/// only continue characters after it.
pub open spec fn is_identifier(text: Seq<char>) -> bool {
    &&& text.len() > 0
    &&& identifier_start(text[0])
    &&& forall|i: int| 1 <= i < text.len() ==> identifier_continue(#[trigger] text[i])
}

fn ascii_letter(c: char) -> (r: bool)
    ensures
        r == is_ascii_letter(c),
{
    let n: u32 = c as u32;
    (0x61 <= n && n <= 0x7a) || (0x41 <= n && n <= 0x5a)
}

fn ascii_digit(c: char) -> (r: bool)
    ensures
        r == is_ascii_digit(c),
{
    let n: u32 = c as u32;
    0x30 <= n && n <= 0x39
}

fn starts_identifier(c: char) -> (r: bool)
    ensures
        r == identifier_start(c),
{
    if c == '_' {
        true
    } else if (c as u32) < 128 {
        ascii_letter(c)
    } else {
        unicode_xid_start(c)
    }
}

fn continues_identifier(c: char) -> (r: bool)
    ensures
        r == identifier_continue(c),
{
    if (c as u32) < 128 {
        c == '_' || ascii_letter(c) || ascii_digit(c)
    } else {
        unicode_xid_continue(c)
    }
}

/// Tells whether `text` can stand as an identifier in the emitted code.
pub fn is_valid_identifier(text: &str) -> (r: bool)
    ensures
        r == is_identifier(text@),
{
    let n: usize = text.unicode_len();
    if n == 0 {
        return false;
    }
    if !starts_identifier(text.get_char(0)) {
        return false;
    }
    let mut i: usize = 1;
    while i < n
        invariant
            1 <= i <= n,
            n == text@.len(),
            forall|j: int| 1 <= j < i ==> identifier_continue(#[trigger] text@[j]),
        decreases n - i,
    {
        if !continues_identifier(text.get_char(i)) {
            return false;
        }
        i += 1;
    }
    true
}

fn without_dots(text: &str) -> (out: String)
    ensures
        out@ == replace_dots(text@),
{
    let n: usize = text.unicode_len();
    let mut out = String::new();
    let mut i: usize = 0;
    while i < n
        invariant
            i <= n,
            n == text@.len(),
            out@ == replace_dots(text@).take(i as int),
        decreases n - i,
    {
        let c = text.get_char(i);
        if c == '.' {
            proof {
                reveal_strlit("_");
            }
            out.append("_");
        } else {
            out.append(text.substring_char(i, i + 1));
        }
        i += 1;
    }
    out
}

/// Turns a schema name into the name of a Rust type: full stops become
/// underscores, and the result is put in upper camel case. The same name
/// always gives the same type name, and no full stop is left in it.
pub fn to_type_name(schema_name: &str) -> (out: String)
    ensures
        out@ == type_identifier(schema_name@),
        !out@.contains('.'),
{
    let plain = without_dots(schema_name);
    heck_upper_camel_case(plain.as_str())
}

/// Turns a schema name into the name of a Rust field, in snake case. The
/// name as the document writes it stays with the field as its wire name.
pub fn to_field_name(schema_name: &str) -> (out: String)
    ensures
        out@ == field_identifier(schema_name@),
{
    heck_snake_case(schema_name)
}

} // verus!
