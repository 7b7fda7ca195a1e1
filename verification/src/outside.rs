//! What the backend takes from other crates and from the parts of the standard library that carry
//! no contract of their own. Nothing in this file is proved: each contract states what its callers
//! rely on.
use vstd::prelude::*;
use vstd::utf8::{decode_utf8, is_ascii_chars, valid_utf8};
use crate::text::chars::{ascii_lower, is_digit, texts};
use crate::text::split::join;

verus! {

/// Lower case hexadecimal digits.
pub open spec fn is_hex_digit(c: char) -> bool {
    is_digit(c) || 'a' <= c <= 'f'
}

/// The hyphenated notation of a random (version 4) UUID.
pub open spec fn is_uuid_v4(s: Seq<char>) -> bool {
    &&& s.len() == 36
    &&& s[8] == '-' && s[13] == '-' && s[18] == '-' && s[23] == '-'
    &&& s[14] == '4'
    &&& s[19] == '8' || s[19] == '9' || s[19] == 'a' || s[19] == 'b'
    &&& forall|i: int|
        0 <= i < 36 && i != 8 && i != 13 && i != 18 && i != 23 ==> is_hex_digit(#[trigger] s[i])
}

/// A point in time in UTC, such as "2026-01-01 00:00:00.5 UTC".
pub open spec fn is_utc_time(s: Seq<char>) -> bool {
    &&& s.len() >= 23
    &&& s.skip(s.len() - 4) == seq![' ', 'U', 'T', 'C']
    &&& forall|i: int|
        0 <= i < s.len() - 4 ==> is_digit(#[trigger] s[i]) || s[i] == '-' || s[i] == ':' || s[i]
            == '.' || s[i] == '+' || s[i] == ' '
}

/// Calls `uuid::Uuid::new_v4` and formats the result with its `Display`: the hyphenated lower case
/// notation of a random UUID. Which one comes back is chance, and nothing more is claimed of it.
#[verifier::external_body]
pub(crate) fn random_uuid() -> (res: String)
    ensures
        is_uuid_v4(res@),
{
    uuid::Uuid::new_v4().to_string()
}

/// Calls `chrono::Utc::now` and formats the result with its `Display`: date, time and the word
/// "UTC". Which time comes back depends on the clock, and nothing is claimed of it.
#[verifier::external_body]
pub(crate) fn utc_now() -> (res: String)
    ensures
        is_utc_time(res@),
{
    chrono::Utc::now().to_string()
}

/// The lower case of a text, by the Unicode rules.
pub uninterp spec fn lowercase(s: Seq<char>) -> Seq<char>;

/// Calls `str::to_lowercase`. On ASCII text this is the lower case of each letter; of other text
/// only that it depends on the text alone.
#[verifier::external_body]
pub(crate) fn to_lowercase(s: &str) -> (res: String)
    ensures
        res@ == lowercase(s@),
        is_ascii_chars(s@) ==> res@ == ascii_lower(s@),
{
    s.to_lowercase()
}

/// The characters that bytes denote as UTF-8, with what is not UTF-8 replaced.
pub uninterp spec fn utf8_lossy(bytes: Seq<u8>) -> Seq<char>;

/// Calls `String::from_utf8_lossy`. Valid UTF-8 is decoded; of other bytes only that the result
/// depends on the bytes alone.
#[verifier::external_body]
pub(crate) fn from_utf8_lossy(bytes: &Vec<u8>) -> (res: String)
    ensures
        res@ == utf8_lossy(bytes@),
        valid_utf8(bytes@) ==> res@ == decode_utf8(bytes@),
{
    String::from_utf8_lossy(bytes).to_string()
}

/// Every character is printable ASCII and needs no escape within double quotes.
pub open spec fn is_plain(s: Seq<char>) -> bool {
    forall|i: int|
        0 <= i < s.len() ==> ' ' <= #[trigger] s[i] <= '~' && s[i] != '"' && s[i] != '\\'
}

/// The text within double quotes.
pub open spec fn quoted(s: Seq<char>) -> Seq<char> {
    seq!['"'] + s + seq!['"']
}

/// The diagnostic notation of a list of texts.
pub uninterp spec fn debug_list(list: Seq<Seq<char>>) -> Seq<char>;

/// Formats a list of texts with its `Debug`. Texts that need no escape are quoted, separated by a
/// comma and a space, and set in square brackets; of other texts only that the result depends on
/// the texts alone.
#[verifier::external_body]
pub(crate) fn format_debug(list: &Vec<String>) -> (res: String)
    ensures
        res@ == debug_list(texts(list@)),
        (forall|i: int| 0 <= i < list@.len() ==> is_plain(#[trigger] list@[i]@)) ==> res@ == seq![
            '[',
        ] + join(texts(list@).map_values(|s: Seq<char>| quoted(s)), seq![',', ' ']) + seq![']'],
{
    format!("{:?}", list)
}

} // verus!
