//! Canonical form of sender addresses.
//!
//! A Tari address can be written as an emoji string, in Base58 or in hex.
//! Records are stored and compared under the hex form, so that every
//! encoding of one address leads to the same stored sender. A sender text
//! that encodes no address is stored as it is given.

use std::str::FromStr;

use tari_common_types::tari_address::TariAddress;
use vstd::prelude::*;

verus! {

/// The hex form of the Tari address that `text` encodes, or `None` where
/// `text` is not an encoding of a Tari address.
pub uninterp spec fn tari_address_hex(text: Seq<char>) -> Option<Seq<char>>;

/// Parses `text` with `TariAddress::from_str`, which tries the emoji, the
/// Base58 and the hex encoding in turn, and renders the address it found
/// with `TariAddress::to_hex`; `None` where `from_str` failed. Nothing is
/// proved of either call. The contract only gives the outcome its name:
/// both calls are functions of their argument alone, and neither panics.
#[verifier::external_body]
fn parse_address_hex(text: &str) -> (hex: Option<String>)
    ensures
        match hex {
            Some(h) => tari_address_hex(text@) == Some(h@),
            None => tari_address_hex(text@).is_none(),
        },
{
    match TariAddress::from_str(text) {
        Ok(address) => Some(address.to_hex()),
        Err(_) => None,
    }
}

/// The form under which a sender is stored, given the text and the hex
/// form of the address that it encodes: that hex form where there is one,
/// the text itself otherwise.
pub open spec fn canonical_form(text: Seq<char>, address_hex: Option<Seq<char>>) -> Seq<char> {
    match address_hex {
        Some(hex) => hex,
        None => text,
    }
}

/// The canonical form of a sender text.
pub open spec fn canonical_sender(text: Seq<char>) -> Seq<char> {
    canonical_form(text, tari_address_hex(text))
}

/// Chooses the stored form of a sender from the text and the outcome of
/// parsing it as a Tari address.
pub fn choose_canonical(text: &str, address_hex: Option<String>) -> (canonical: String)
    ensures
        canonical@ == canonical_form(
            text@,
            match address_hex {
                Some(hex) => Some(hex@),
                None => None,
            },
        ),
{
    match address_hex {
        Some(hex) => hex,
        None => text.to_owned(),
    }
}

/// Brings a sender text into canonical form.
pub fn canonicalize_sender(text: &str) -> (canonical: String)
    ensures
        canonical@ == canonical_sender(text@),
{
    let address_hex = parse_address_hex(text);
    choose_canonical(text, address_hex)
}

} // verus!
