//! User identifiers and token identifiers: UUIDs as 128-bit values, and
//! their text.

use vstd::prelude::*;
use crate::json::{hex_digit, is_plain, json_string, plain_text_escapes_to_itself};

verus! {

/// The 128-bit value that `uuid::Uuid::parse_str` reads out of `text`, or
/// `None` where it rejects the text.
pub uninterp spec fn uuid_from_text(text: Seq<char>) -> Option<u128>;

/// The last `count` hexadecimal digits of `value`, in lower case, the most
/// significant first.
pub open spec fn hex_digits(value: nat, count: nat) -> Seq<char>
    decreases count,
{
    if count == 0 {
        Seq::empty()
    } else {
        hex_digits(value / 16, (count - 1) as nat).push(hex_digit((value % 16) as int))
    }
}

/// The text of the UUID with the 128-bit value `id`: its 32 hexadecimal
/// digits in lower case, in groups of 8, 4, 4, 4 and 12 with hyphens
/// between them.
pub open spec fn uuid_text(id: u128) -> Seq<char> {
    let digits = hex_digits(id as nat, 32);
    digits.subrange(0, 8) + seq!['-'] + digits.subrange(8, 12) + seq!['-'] + digits.subrange(
        12,
        16,
    ) + seq!['-'] + digits.subrange(16, 20) + seq!['-'] + digits.subrange(20, 32)
}

/// The text of a UUID has 36 characters, each of which stands for itself
/// inside a JSON string: as a claim, the text is the text between quotes.
pub proof fn uuid_text_is_plain(id: u128)
    ensures
        uuid_text(id).len() == 36,
        forall|i: int| 0 <= i < 36 ==> is_plain(#[trigger] uuid_text(id)[i]),
        json_string(uuid_text(id)) == seq!['"'] + uuid_text(id) + seq!['"'],
{
    hex_digits_are_plain(id as nat, 32);
    let digits = hex_digits(id as nat, 32);
    let text = uuid_text(id);
    assert forall|i: int| 0 <= i < 36 implies is_plain(#[trigger] text[i]) by {
        if i < 8 {
            assert(text[i] == digits[i]);
        } else if i == 8 {
        } else if i < 13 {
            assert(text[i] == digits[i - 1]);
        } else if i == 13 {
        } else if i < 18 {
            assert(text[i] == digits[i - 2]);
        } else if i == 18 {
        } else if i < 23 {
            assert(text[i] == digits[i - 3]);
        } else if i == 23 {
        } else {
            assert(text[i] == digits[i - 4]);
        }
    }
    plain_text_escapes_to_itself(text);
}

/// Hexadecimal digits are as many as asked for, and each stands for itself
/// inside a JSON string.
pub proof fn hex_digits_are_plain(value: nat, count: nat)
    ensures
        hex_digits(value, count).len() == count,
        forall|i: int| 0 <= i < count ==> is_plain(#[trigger] hex_digits(value, count)[i]),
    decreases count,
{
    if count > 0 {
        hex_digits_are_plain(value / 16, (count - 1) as nat);
        let digit = hex_digit((value % 16) as int);
        assert(is_plain(digit));
    }
}

/// The value carries the version and variant marks of a random UUID.
pub open spec fn is_random_uuid(id: u128) -> bool {
    (id >> 76) & 0xf == 4 && (id >> 62) & 0x3 == 2
}

/// Parses a UUID with `uuid::Uuid::parse_str` and hands out its 128-bit
/// value.
///
/// Trusted: the result is a function of the text alone.
#[verifier::external_body]
pub(crate) fn parse_uuid(text: &str) -> (id: Option<u128>)
    ensures
        id == uuid_from_text(text@),
{
    uuid::Uuid::parse_str(text).ok().map(|parsed| parsed.as_u128())
}

/// Writes a UUID as text, as `uuid::Uuid`'s `Display` does.
///
/// Trusted: the text is the lower-case hyphenated form, and
/// `Uuid::parse_str` reads the same value back out of it.
#[verifier::external_body]
pub(crate) fn format_uuid(id: u128) -> (text: String)
    ensures
        text@ == uuid_text(id),
        uuid_from_text(text@) == Some(id),
{
    uuid::Uuid::from_u128(id).to_string()
}

/// Draws a random UUID with `uuid::Uuid::new_v4`.
///
/// Trusted: whatever is drawn carries version 4 and the RFC variant.
#[verifier::external_body]
pub(crate) fn random_uuid() -> (id: u128)
    ensures
        is_random_uuid(id),
{
    uuid::Uuid::new_v4().as_u128()
}

/// The text of a user identifier, as it is stored with a refresh token and
/// written into claims.
pub fn user_id_text(id: u128) -> (text: String)
    ensures
        text@ == uuid_text(id),
        uuid_from_text(text@) == Some(id),
{
    format_uuid(id)
}

/// Reads a user identifier back out of its text.
pub fn parse_user_id(text: &str) -> (id: Option<u128>)
    ensures
        id == uuid_from_text(text@),
{
    parse_uuid(text)
}

/// A fresh token identifier: the text of a random UUID.
pub fn new_token_id() -> (text: String)
    ensures
        exists|id: u128| is_random_uuid(id) && text@ == #[trigger] uuid_text(id),
{
    let id = random_uuid();
    format_uuid(id)
}

} // verus!
