//! Validation of the identifiers that clients send: card ids, device MAC
//! addresses and user ids.  Each check runs the same regular expression as
//! the server always used, through the `regex` crate.
use vstd::prelude::*;
use crate::trusted::regex_is_match;

verus! {

/// An ASCII hexadecimal digit: `[a-fA-F0-9]`.
pub open spec fn is_hex_char(c: char) -> bool {
    ||| ('0' <= c && c <= '9')
    ||| ('a' <= c && c <= 'f')
    ||| ('A' <= c && c <= 'F')
}

/// An ASCII decimal digit: `[0-9]`.
pub open spec fn is_digit_char(c: char) -> bool {
    '0' <= c && c <= '9'
}

/// The whole text is a card id: exactly eight hexadecimal digits.
pub open spec fn is_card_id(s: Seq<char>) -> bool {
    &&& s.len() == 8
    &&& forall|i: int| 0 <= i < 8 ==> #[trigger] is_hex_char(s[i])
}

/// Position `k` (0 to 16) of a MAC address `xx:xx:xx:xx:xx:xx` holds a colon
/// when `k % 3 == 2`, and a hexadecimal digit otherwise.
pub open spec fn mac_char_ok(k: int, c: char) -> bool {
    if k % 3 == 2 { c == ':' } else { is_hex_char(c) }
}

/// A MAC address `xx:xx:xx:xx:xx:xx` starts at index `start` of `s`.
pub open spec fn mac_at(s: Seq<char>, start: int) -> bool {
    &&& 0 <= start
    &&& start + 17 <= s.len()
    &&& forall|k: int| 0 <= k < 17 ==> #[trigger] mac_char_ok(k, s[start + k])
}

/// The text contains a MAC address somewhere (the pattern is not anchored).
pub open spec fn contains_mac(s: Seq<char>) -> bool {
    exists|start: int| #[trigger] mac_at(s, start)
}

/// The whole text is a user id: decimal digits only (possibly none).
pub open spec fn is_user_id(s: Seq<char>) -> bool {
    forall|i: int| 0 <= i < s.len() ==> #[trigger] is_digit_char(s[i])
}

/// The pattern that card ids are checked against.
pub open spec fn card_id_pattern() -> Seq<char> {
    "^[a-fA-F0-9]{8}$"@
}

/// The pattern that device MAC addresses are checked against.
pub open spec fn mac_pattern() -> Seq<char> {
    "[a-fA-F0-9]{2}(:[a-fA-F0-9]{2}){5}"@
}

/// The pattern that user ids are checked against.
pub open spec fn user_id_pattern() -> Seq<char> {
    "^[0-9]*$"@
}

/// Checks a card id against `^[a-fA-F0-9]{8}$`.
pub fn is_valid_card_id(card_id: &str) -> (ok: bool)
    ensures
        ok == is_card_id(card_id@),
{
    match regex_is_match("^[a-fA-F0-9]{8}$", card_id) {
        Some(m) => m,
        None => false,
    }
}

/// Checks a device MAC address against `[a-fA-F0-9]{2}(:[a-fA-F0-9]{2}){5}`,
/// which matches when such an address occurs anywhere in the text.
pub fn is_valid_device_mac(device_mac: &str) -> (ok: bool)
    ensures
        ok == contains_mac(device_mac@),
{
    match regex_is_match("[a-fA-F0-9]{2}(:[a-fA-F0-9]{2}){5}", device_mac) {
        Some(m) => m,
        None => false,
    }
}

/// Checks a user id against `^[0-9]*$`.
pub fn is_valid_user_id(user_id: &str) -> (ok: bool)
    ensures
        ok == is_user_id(user_id@),
{
    match regex_is_match("^[0-9]*$", user_id) {
        Some(m) => m,
        None => false,
    }
}

} // verus!
