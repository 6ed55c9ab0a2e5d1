//! Identifiers of entities: UUIDs, held as their 128-bit value. Reading one
//! from text and writing it out is the `uuid` crate's work.

use vstd::prelude::*;

verus! {

/// What `uuid::Uuid::parse_str` makes of a text: the value of the UUID, or
/// the message of its error.
pub uninterp spec fn uuid_of_text(text: Seq<char>) -> Result<u128, Seq<char>>;

/// The sixteen hexadecimal digits, lower case.
pub open spec fn hex_digits() -> Seq<char> {
    "0123456789abcdef"@
}

/// Whether a hyphen stands at position `i` of the hyphenated form.
pub open spec fn is_hyphen_position(i: int) -> bool {
    i == 8 || i == 13 || i == 18 || i == 23
}

/// Which of the 32 digits stands at position `i` of the hyphenated form,
/// counted from the most significant.
pub open spec fn digit_at(i: int) -> int {
    if i < 8 {
        i
    } else if i < 13 {
        i - 1
    } else if i < 18 {
        i - 2
    } else if i < 23 {
        i - 3
    } else {
        i - 4
    }
}

/// The `k`-th of the 32 four-bit digits of a value, counted from the most
/// significant.
pub open spec fn nibble(value: u128, k: int) -> u128 {
    (value >> ((4 * (31 - k)) as u128)) & 0xf
}

/// The hyphenated lower-case form of the UUID of a value: its 32 hexadecimal
/// digits in groups of 8, 4, 4, 4 and 12.
pub open spec fn uuid_text(value: u128) -> Seq<char> {
    Seq::new(
        36,
        |i: int|
            if is_hyphen_position(i) {
                '-'
            } else {
                hex_digits()[nibble(value, digit_at(i)) as int]
            },
    )
}

/// Calls `uuid::Uuid::parse_str`, which accepts the simple, hyphenated, URN
/// and braced forms. The contract claims only that the outcome is the one
/// named [`uuid_of_text`]; an error is handed on as its message.
#[verifier::external_body]
pub(crate) fn parse_uuid(text: &str) -> (r: Result<u128, String>)
    ensures
        match r {
            Ok(value) => uuid_of_text(text@) == Ok::<u128, Seq<char>>(value),
            Err(message) => uuid_of_text(text@) == Err::<u128, Seq<char>>(message@),
        },
{
    uuid::Uuid::parse_str(text).map(|id| id.as_u128()).map_err(|error| error.to_string())
}

/// Calls `uuid::Uuid::hyphenated` on the UUID of `value` and writes it out.
/// The contract claims that the text is the hyphenated lower-case form that
/// [`uuid_text`] spells out, and that `parse_str` reads the same value back
/// from it, as the crate documents of every form it writes.
#[verifier::external_body]
pub(crate) fn format_uuid(value: u128) -> (r: String)
    ensures
        r@ == uuid_text(value),
        uuid_of_text(r@) == (Ok::<u128, Seq<char>>(value)),
{
    uuid::Uuid::from_u128(value).hyphenated().to_string()
}

/// Text of the rejection of an identifier that is no UUID.
pub open spec fn bad_uuid_text(value: Seq<char>, message: Seq<char>) -> Seq<char> {
    "Failed to parse id \""@ + value + "\" as uuid. Message from uuid crate: "@ + message
}

/// What reading an identifier yields, given what the parser made of it.
pub open spec fn identifier_of(value: Seq<char>, parsed: Result<u128, Seq<char>>) -> Result<
    u128,
    Seq<char>,
> {
    match parsed {
        Ok(id) => Ok(id),
        Err(message) => Err(bad_uuid_text(value, message)),
    }
}

/// Turns the parser's answer for `value` into an identifier or the text of
/// its rejection.
pub fn identifier_from_parsed(value: &str, parsed: Result<u128, String>) -> (r: Result<u128, String>)
    ensures
        match identifier_of(
            value@,
            match parsed {
                Ok(id) => Ok(id),
                Err(message) => Err(message@),
            },
        ) {
            Ok(id) => r == Ok::<u128, String>(id),
            Err(text) => r matches Err(t) && t@ == text,
        },
{
    match parsed {
        Ok(id) => Ok(id),
        Err(message) => {
            let mut text = "Failed to parse id \"".to_string();
            text.append(value);
            text.append("\" as uuid. Message from uuid crate: ");
            text.append(message.as_str());
            Err(text)
        },
    }
}

/// Reads an identifier from text.
pub fn read_identifier(value: &str) -> (r: Result<u128, String>)
    ensures
        match identifier_of(value@, uuid_of_text(value@)) {
            Ok(id) => r == Ok::<u128, String>(id),
            Err(text) => r matches Err(t) && t@ == text,
        },
{
    let parsed = parse_uuid(value);
    identifier_from_parsed(value, parsed)
}

/// Writes an identifier in its hyphenated form.
pub fn write_identifier(id: u128) -> (text: String)
    ensures
        text@ == uuid_text(id),
        identifier_of(text@, uuid_of_text(text@)) == Ok::<u128, Seq<char>>(id),
{
    format_uuid(id)
}

} // verus!
