use crypto_workbench::blake2b::state::State;
use crypto_workbench::blake2b::update::Message;

const BLAKE2B_256_ABC: &str = "bddd813c634239723171ef3fee98579b94964e3bb1cb3e427262c8c068d52319";

#[test]
fn a_new_calculator_hashes_to_256_bits() {
    let state = State::default();
    assert_eq!(state.hex_contents, "");
    assert_eq!(state.hash_length, 256);
    assert_eq!(state.hash, "");
}

#[test]
fn hex_input_is_hashed() {
    let mut state = State::default();
    state.update(Message::HexChanged("616263".to_string()));
    assert_eq!(state.hex_contents, "616263");
    assert_eq!(state.hash, BLAKE2B_256_ABC);
}

#[test]
fn the_width_can_be_changed() {
    let mut state = State::default();
    state.update(Message::HexChanged("616263".to_string()));
    state.update(Message::LengthChanged(224));
    assert_eq!(state.hash_length, 224);
    assert_eq!(state.hash, hex::encode(pallas::crypto::hash::Hasher::<224>::hash(b"abc")));
    assert_eq!(state.hash.len(), 56);
    state.update(Message::LengthChanged(256));
    assert_eq!(state.hash, BLAKE2B_256_ABC);
}

#[test]
fn known_digests_come_out() {
    let mut state = State::default();
    state.update(Message::HexChanged(hex::encode("My transaction")));
    assert_eq!(state.hash, "0d8d00cdd4657ac84d82f0a56067634a7adfdf43da41cb534bcaa45060973d21");
    state.update(Message::LengthChanged(224));
    state.update(Message::HexChanged(hex::encode("My Public Key")));
    assert_eq!(state.hash, "c123c9bc0e9e31a20a4aa23518836ec5fb54bdc85735c56b38eb79a5");
}

#[test]
fn white_space_at_the_ends_is_ignored() {
    let mut state = State::default();
    state.update(Message::HexChanged("  616263\n\t".to_string()));
    assert_eq!(state.hex_contents, "  616263\n\t");
    assert_eq!(state.hash, BLAKE2B_256_ABC);
    state.update(Message::HexChanged("\u{a0}\u{2003}616263\u{3000}".to_string()));
    assert_eq!(state.hash, BLAKE2B_256_ABC);
}

#[test]
fn an_empty_input_keeps_the_digest() {
    let mut state = State::default();
    state.update(Message::HexChanged("616263".to_string()));
    state.update(Message::HexChanged(String::new()));
    assert_eq!(state.hash, BLAKE2B_256_ABC);
    state.update(Message::HexChanged(" \n ".to_string()));
    assert_eq!(state.hash, BLAKE2B_256_ABC);
}

#[test]
fn input_that_is_no_hex_blanks_the_digest() {
    let mut state = State::default();
    state.update(Message::HexChanged("616263".to_string()));
    state.update(Message::HexChanged("61626".to_string()));
    assert_eq!(state.hash, "");
    state.update(Message::HexChanged("616263".to_string()));
    state.update(Message::HexChanged("61 62".to_string()));
    assert_eq!(state.hash, "");
    state.update(Message::HexChanged("616263".to_string()));
    state.update(Message::HexChanged("xyz!".to_string()));
    assert_eq!(state.hash, "");
}

#[test]
fn another_width_keeps_the_digest() {
    let mut state = State::default();
    state.update(Message::HexChanged("616263".to_string()));
    state.update(Message::LengthChanged(160));
    assert_eq!(state.hash_length, 160);
    assert_eq!(state.hash, BLAKE2B_256_ABC);
    state.update(Message::HexChanged("00".to_string()));
    assert_eq!(state.hash, BLAKE2B_256_ABC);
    state.update(Message::HexChanged("0".to_string()));
    assert_eq!(state.hash, "");
}

#[test]
fn the_switch_stands_for_the_two_widths() {
    assert!(matches!(Message::width_switched(true), Message::LengthChanged(256)));
    assert!(matches!(Message::width_switched(false), Message::LengthChanged(224)));
}
