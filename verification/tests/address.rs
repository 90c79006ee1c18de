use payment_ledger::address::{canonicalize_sender, choose_canonical};

const ADDRESS_A_HEX: &str = "00013c0223f2be5917384926cbe1a3cd32a907963a933c035801e3f99d1902f3e924d09dfde45e45456b7a8935fecfc0ebea431548d105d2f098a488820526395a6115";
const ADDRESS_A_BASE58: &str =
    "126J92Yow5y9UoRFd1DNujPmVFq9C1ZeiYWT95UKxz5Y1rzbfjtHg4SCZS1dk83ivzt3m2XRQHTaYUk9SwmyeCvy5BJ";
const ADDRESS_A_EMOJI: &str = "\u{1f422}\u{1f4df}\u{1f37c}\u{1f308}\u{1f353}\u{1f693}\u{2795}\u{1f3b8}\u{1f346}\u{1f377}\u{1f3a3}\u{1f357}\u{1f4ff}\u{1f602}\u{1f94a}\u{23f0}\u{1f36f}\u{1f47e}\u{1f914}\u{1f452}\u{1f37e}\u{1f440}\u{1f37c}\u{1f30a}\u{1f3b7}\u{1f4df}\u{1f608}\u{1f6a8}\u{1f459}\u{1f348}\u{1f308}\u{1f6f5}\u{1f922}\u{1f354}\u{1f50b}\u{1f459}\u{1f6bd}\u{1f911}\u{1f3bd}\u{1f393}\u{1f393}\u{1f400}\u{1f41c}\u{1f434}\u{1f944}\u{1f6bf}\u{1f4f7}\u{1f4b0}\u{1f476}\u{1f44d}\u{1f389}\u{1f344}\u{1f3a2}\u{1f50c}\u{1f40b}\u{1f6b0}\u{1f691}\u{1f485}\u{1f462}\u{1f982}\u{1f42c}\u{1f40b}\u{1f357}\u{1f378}\u{1f3b9}\u{1f3c0}\u{1f344}";
const ADDRESS_C_HEX: &str = "0002d09dfde45e45456b7a8935fecfc0ebea431548d105d2f098a488820526395a615c";
const ADDRESS_C_BASE58: &str = "1324yPceFvbksLKQ8JE6APDzVY2D6P3SpXwB5LLC3BH4F7oy";
const ADDRESS_C_EMOJI: &str = "\u{1f422}\u{1f308}\u{1f50b}\u{1f459}\u{1f6bd}\u{1f911}\u{1f3bd}\u{1f393}\u{1f393}\u{1f400}\u{1f41c}\u{1f434}\u{1f944}\u{1f6bf}\u{1f4f7}\u{1f4b0}\u{1f476}\u{1f44d}\u{1f389}\u{1f344}\u{1f3a2}\u{1f50c}\u{1f40b}\u{1f6b0}\u{1f691}\u{1f485}\u{1f462}\u{1f982}\u{1f42c}\u{1f40b}\u{1f357}\u{1f378}\u{1f3b9}\u{1f3c0}\u{1f3bb}";

#[test]
fn base58_is_brought_to_hex() {
    assert_eq!(canonicalize_sender(ADDRESS_A_BASE58), ADDRESS_A_HEX);
    assert_eq!(canonicalize_sender(ADDRESS_C_BASE58), ADDRESS_C_HEX);
}

#[test]
fn emoji_is_brought_to_hex() {
    assert_eq!(canonicalize_sender(ADDRESS_A_EMOJI), ADDRESS_A_HEX);
    assert_eq!(canonicalize_sender(ADDRESS_C_EMOJI), ADDRESS_C_HEX);
}

#[test]
fn hex_stays_hex() {
    assert_eq!(canonicalize_sender(ADDRESS_A_HEX), ADDRESS_A_HEX);
    assert_eq!(canonicalize_sender(ADDRESS_C_HEX), ADDRESS_C_HEX);
}

#[test]
fn upper_case_hex_is_brought_to_lower_case() {
    assert_eq!(canonicalize_sender(&ADDRESS_C_HEX.to_uppercase()), ADDRESS_C_HEX);
}

#[test]
fn text_that_is_no_address_is_kept() {
    assert_eq!(canonicalize_sender("addr_hex_1"), "addr_hex_1");
    assert_eq!(canonicalize_sender(""), "");
    assert_eq!(canonicalize_sender("alice"), "alice");
}

#[test]
fn an_address_with_a_wrong_checksum_is_kept_as_text() {
    let mut broken = ADDRESS_C_HEX.to_string();
    broken.pop();
    broken.push('d');
    assert_eq!(canonicalize_sender(&broken), broken);
}

#[test]
fn choose_canonical_prefers_the_address() {
    assert_eq!(choose_canonical("given", Some("00ff".to_string())), "00ff");
    assert_eq!(choose_canonical("given", None), "given");
    assert_eq!(choose_canonical("", Some(String::new())), "");
}
