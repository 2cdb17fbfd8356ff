use crypto_workbench::block_inspector::state::{DecodeTxError, MultiEraTx, State};
use crypto_workbench::block_inspector::update::{
    decode_text, tx_decode, Command, Message, TxTextError,
};
use crypto_workbench::block_inspector::view::render_tx;
use crypto_workbench::codec::HexError;
use pallas::codec::minicbor;
use pallas::ledger::primitives::{alonzo, babbage, byron};

const CONWAY: &str = "84a3008182582011111111111111111111111111111111111111111111111111111111\
11111111000181a200581d6122222222222222222222222222222222222222222222222222222222011a000f4240\
021a00029810a0f5f6";

const BYRON: &str = "839f8200d8185824825820333333333333333333333333333333333333333333333333333333\
333333333300ff9f8282d818582183581c44444444444444444444444444444444444444444444444444444444\
a0001a000000001a000f4240ffa0";

/// A legacy transaction with one more entry in its body, in hex.
fn legacy_with(entry: &str) -> String {
    format!(
        "84a400818258201111111111111111111111111111111111111111111111111111111111111111\
         0001818258 1d6122222222222222222222222222222222222222222222222222222222 1a000f4240\
         021a00029810{entry}a0f5f6"
    )
    .replace(' ', "")
}

fn babbage_and_alonzo() -> String {
    legacy_with("048182068200 01").replace(' ', "")
}

fn alonzo_only() -> String {
    legacy_with("1000")
}

/// Two inputs, and two outputs of which the first has the legacy form.
fn two_by_two() -> String {
    "84a300828258201111111111111111111111111111111111111111111111111111111111111111\
     00825820aaaaaaaaaaaaaaaaaaaaaaaaaaaaaaaaaaaaaaaaaaaaaaaaaaaaaaaaaaaaaaaa181a\
     01828258 1d6122222222222222222222222222222222222222222222222222222222 1a000f4240\
     a200581d 6033333333333333333333333333333333333333333333333333333333 0105\
     021a00029810a0f5f6"
        .replace(' ', "")
}

/// One output whose address is a single byte that names no kind of address.
fn bad_address() -> String {
    "84a300818258201111111111111111111111111111111111111111111111111111111111111111\
     000181a2004190 0105 021a00029810a0f5f6"
        .replace(' ', "")
}

#[test]
fn text_that_is_no_hex_fails_before_decoding() {
    assert_eq!(
        decode_text("not hex!!").err(),
        Some(TxTextError::HexDecodeError(HexError::OddLength))
    );
    assert_eq!(
        decode_text("not hex!").err(),
        Some(TxTextError::HexDecodeError(HexError::InvalidHexCharacter { c: 'n', index: 0 }))
    );
    assert!(tx_decode("not hex!!").is_none());
}

#[test]
fn hex_that_is_no_transaction_is_unknown_encoding() {
    assert_eq!(
        decode_text("ff0001").err(),
        Some(TxTextError::UnknownEncoding(DecodeTxError))
    );
    assert!(tx_decode("ff0001").is_none());
}

#[test]
fn empty_text_is_unknown_encoding() {
    assert_eq!(decode_text("").err(), Some(TxTextError::UnknownEncoding(DecodeTxError)));
    assert_eq!(decode_text("  \n").err(), Some(TxTextError::UnknownEncoding(DecodeTxError)));
    assert!(tx_decode("").is_none());
}

#[test]
fn text_is_trimmed_before_it_is_read() {
    let padded = format!("  \t{CONWAY}\r\n ");
    assert!(matches!(decode_text(&padded), Ok(MultiEraTx::Conway(_))));
    assert!(matches!(*tx_decode(&padded), Some(MultiEraTx::Conway(_))));
}

#[test]
fn white_space_inside_the_text_is_no_hex() {
    let split = format!("{} {}", &CONWAY[..10], &CONWAY[10..]);
    assert_eq!(
        decode_text(&split).err(),
        Some(TxTextError::HexDecodeError(HexError::OddLength))
    );
    let split = format!("{}  {}", &CONWAY[..10], &CONWAY[10..]);
    assert_eq!(
        decode_text(&split).err(),
        Some(TxTextError::HexDecodeError(HexError::InvalidHexCharacter { c: ' ', index: 10 }))
    );
}

#[test]
fn upper_case_hex_is_read() {
    assert!(matches!(decode_text(&CONWAY.to_uppercase()), Ok(MultiEraTx::Conway(_))));
}

#[test]
fn each_schema_is_found_from_text() {
    assert!(matches!(*tx_decode(CONWAY), Some(MultiEraTx::Conway(_))));
    assert!(matches!(*tx_decode(&babbage_and_alonzo()), Some(MultiEraTx::Babbage(_))));
    assert!(matches!(*tx_decode(&alonzo_only()), Some(MultiEraTx::AlonzoCompatible(_, _))));
    assert!(matches!(*tx_decode(BYRON), Some(MultiEraTx::Byron(_))));
}

#[test]
fn a_new_inspector_is_empty() {
    let state = State::default();
    assert_eq!(state.tx_cbor, "");
    assert!(state.transaction.is_none());
    assert_eq!(state.latest_request, 0);
}

#[test]
fn an_edit_asks_for_a_decode() {
    let mut state = State::default();
    match state.update(Message::TxCborChanged(CONWAY.to_string())) {
        Command::Decode { request, cbor } => {
            assert_eq!(request, 1);
            assert_eq!(cbor, CONWAY);
        }
        other => panic!("no request: {other:?}"),
    }
    assert_eq!(state.tx_cbor, CONWAY);
    assert_eq!(state.latest_request, 1);
    assert!(state.transaction.is_none());
}

#[test]
fn the_answer_to_the_latest_request_is_shown() {
    let mut state = State::default();
    let command = state.update(Message::TxCborChanged(CONWAY.to_string()));
    let Command::Decode { request, cbor } = command else { panic!("no request") };
    let done = state.update(Message::TxDecoded(request, tx_decode(&cbor)));
    assert!(matches!(done, Command::Nothing));
    assert!(matches!(state.transaction, Some(MultiEraTx::Conway(_))));
    assert_eq!(state.latest_request, 1);
    assert_eq!(state.tx_cbor, CONWAY);
}

#[test]
fn a_failed_decode_clears_the_transaction() {
    let mut state = State::default();
    let Command::Decode { request, cbor } = state.update(Message::TxCborChanged(CONWAY.into()))
    else {
        panic!("no request")
    };
    state.update(Message::TxDecoded(request, tx_decode(&cbor)));
    assert!(state.transaction.is_some());
    let Command::Decode { request, cbor } =
        state.update(Message::TxCborChanged("not hex!!".into()))
    else {
        panic!("no request")
    };
    assert_eq!(request, 2);
    assert!(state.transaction.is_some());
    state.update(Message::TxDecoded(request, tx_decode(&cbor)));
    assert!(state.transaction.is_none());
}

#[test]
fn a_stale_answer_is_dropped() {
    let mut state = State::default();
    let Command::Decode { request: first, cbor: old } =
        state.update(Message::TxCborChanged(CONWAY.into()))
    else {
        panic!("no request")
    };
    let Command::Decode { request: second, cbor: new } =
        state.update(Message::TxCborChanged(BYRON.into()))
    else {
        panic!("no request")
    };
    assert_eq!((first, second), (1, 2));
    // The answers come in the wrong order.
    state.update(Message::TxDecoded(second, tx_decode(&new)));
    assert!(matches!(state.transaction, Some(MultiEraTx::Byron(_))));
    state.update(Message::TxDecoded(first, tx_decode(&old)));
    assert!(matches!(state.transaction, Some(MultiEraTx::Byron(_))));
    // And in the right order: the first is dropped as well.
    let mut state = State::default();
    state.update(Message::TxCborChanged(CONWAY.into()));
    state.update(Message::TxCborChanged(BYRON.into()));
    state.update(Message::TxDecoded(first, tx_decode(&old)));
    assert!(state.transaction.is_none());
    state.update(Message::TxDecoded(second, tx_decode(&new)));
    assert!(matches!(state.transaction, Some(MultiEraTx::Byron(_))));
}

#[test]
fn request_numbers_wrap_around() {
    let mut state = State { tx_cbor: String::new(), transaction: None, latest_request: u64::MAX };
    let Command::Decode { request, .. } = state.update(Message::TxCborChanged("00".into()))
    else {
        panic!("no request")
    };
    assert_eq!(request, 0);
    assert_eq!(state.latest_request, 0);
    let mut state =
        State { tx_cbor: String::new(), transaction: None, latest_request: u64::MAX - 1 };
    state.update(Message::TxCborChanged("00".into()));
    assert_eq!(state.latest_request, u64::MAX);
}

#[test]
fn a_conway_transaction_is_shown_by_its_inputs_and_outputs() {
    let tx = decode_text(CONWAY).unwrap();
    assert_eq!(
        render_tx(&tx),
        Some(vec![
            "Conway".to_string(),
            "total inputs = 1".to_string(),
            "index = 0".to_string(),
            "hash  = 1111111111111111111111111111111111111111111111111111111111111111"
                .to_string(),
            "total outputs = 1".to_string(),
            "address = addr1vy3zyg3zyg3zyg3zyg3zyg3zyg3zyg3zyg3zyg3zyg3zygs44r503".to_string(),
        ])
    );
}

#[test]
fn inputs_and_outputs_are_shown_in_their_order() {
    let tx = decode_text(&two_by_two()).unwrap();
    assert!(matches!(tx, MultiEraTx::Conway(_)));
    let lines = render_tx(&tx).unwrap();
    assert_eq!(lines.len(), 9);
    assert_eq!(lines[0], "Conway");
    assert_eq!(lines[1], "total inputs = 2");
    assert_eq!(lines[2], "index = 0");
    assert_eq!(
        lines[3],
        "hash  = 1111111111111111111111111111111111111111111111111111111111111111"
    );
    assert_eq!(lines[4], "index = 26");
    assert_eq!(
        lines[5],
        "hash  = aaaaaaaaaaaaaaaaaaaaaaaaaaaaaaaaaaaaaaaaaaaaaaaaaaaaaaaaaaaaaaaa"
    );
    assert_eq!(lines[6], "total outputs = 2");
    assert_eq!(lines[7], "address = addr1vy3zyg3zyg3zyg3zyg3zyg3zyg3zyg3zyg3zyg3zyg3zygs44r503");
    assert!(lines[8].starts_with("address = addr_test1"), "{}", lines[8]);
    let bytes = {
        let mut bytes = vec![0x60];
        bytes.extend([0x33; 28]);
        bytes
    };
    let address = pallas::ledger::addresses::Address::from_bytes(&bytes).unwrap();
    assert_eq!(lines[8], format!("address = {}", address.to_bech32().unwrap()));
}

#[test]
fn an_address_without_bech32_form_gives_no_lines() {
    let tx = decode_text(&bad_address()).unwrap();
    assert!(matches!(tx, MultiEraTx::Conway(_)));
    assert_eq!(render_tx(&tx), None);
}

#[test]
fn other_schemas_are_shown_as_a_dump() {
    let bytes = hex::decode(babbage_and_alonzo()).unwrap();
    let tx = MultiEraTx::decode(&bytes).unwrap();
    let inner: babbage::Tx = minicbor::decode(&bytes).unwrap();
    assert_eq!(render_tx(&tx), Some(vec!["Babbage".to_string(), format!("{inner:?}")]));

    let bytes = hex::decode(alonzo_only()).unwrap();
    let tx = MultiEraTx::decode(&bytes).unwrap();
    let inner: alonzo::Tx = minicbor::decode(&bytes).unwrap();
    assert_eq!(
        render_tx(&tx),
        Some(vec![
            "Alonzo Compatible".to_string(),
            "Era: Alonzo".to_string(),
            format!("{inner:?}"),
        ])
    );

    let bytes = hex::decode(BYRON).unwrap();
    let tx = MultiEraTx::decode(&bytes).unwrap();
    let inner: byron::Tx = minicbor::decode(&bytes).unwrap();
    assert_eq!(render_tx(&tx), Some(vec!["Byron".to_string(), format!("{inner:?}")]));
}
