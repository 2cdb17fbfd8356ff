//! The Cardano ledger types that pass through this library, and the calls
//! into the codec that produces them.
//!
//! Nothing in this file is proved. A transaction is opaque here: the library
//! carries it from the codec to the caller and reads it only through the
//! functions below.

use pallas::ledger::primitives::{alonzo, babbage, byron, conway};
use pallas::ledger::primitives::PlutusData;
use vstd::prelude::*;

verus! {

/// `byron::Tx` of pallas: a Byron transaction.
#[verifier::external_type_specification]
#[verifier::external_body]
pub struct ExByronTx(byron::Tx);

/// `alonzo::Tx` of pallas: a transaction of the schema that Shelley,
/// Allegra, Mary and Alonzo share.
#[verifier::external_type_specification]
#[verifier::external_body]
pub struct ExAlonzoTx(alonzo::Tx);

/// `alonzo::AuxiliaryData` of pallas, a part of the newer transactions too.
#[verifier::external_type_specification]
#[verifier::external_body]
pub struct ExAlonzoAuxiliaryData(alonzo::AuxiliaryData);

/// `alonzo::NativeScript` of pallas, a part of the newer outputs too.
#[verifier::external_type_specification]
#[verifier::external_body]
pub struct ExAlonzoNativeScript(alonzo::NativeScript);

/// `alonzo::Value` of pallas, the value of a Babbage output.
#[verifier::external_type_specification]
#[verifier::external_body]
pub struct ExAlonzoValue(alonzo::Value);

/// `PlutusData` of pallas, the datum of an output.
#[verifier::external_type_specification]
#[verifier::external_body]
pub struct ExPlutusData(PlutusData);

/// `babbage::PseudoDatumOption` of pallas.
#[verifier::external_type_specification]
#[verifier::external_body]
#[verifier::reject_recursive_types(T1)]
pub struct ExDatumOption<T1>(babbage::PseudoDatumOption<T1>);

/// `babbage::PseudoPostAlonzoTransactionOutput` of pallas: an output in the
/// form that Babbage brought in.
#[verifier::external_type_specification]
#[verifier::external_body]
#[verifier::reject_recursive_types(T1)]
#[verifier::reject_recursive_types(T2)]
#[verifier::reject_recursive_types(T3)]
pub struct ExPostAlonzoOutput<T1, T2, T3>(babbage::PseudoPostAlonzoTransactionOutput<T1, T2, T3>);

/// `babbage::PseudoScript` of pallas.
#[verifier::external_type_specification]
#[verifier::external_body]
#[verifier::reject_recursive_types(T1)]
pub struct ExBabbageScript<T1>(babbage::PseudoScript<T1>);

/// `babbage::PseudoTransactionOutput` of pallas: an output in either form.
#[verifier::external_type_specification]
#[verifier::external_body]
#[verifier::reject_recursive_types(T)]
pub struct ExBabbageOutput<T>(babbage::PseudoTransactionOutput<T>);

/// `babbage::PseudoTransactionBody` of pallas.
#[verifier::external_type_specification]
#[verifier::external_body]
#[verifier::reject_recursive_types(T1)]
pub struct ExBabbageBody<T1>(babbage::PseudoTransactionBody<T1>);

/// `babbage::WitnessSet` of pallas.
#[verifier::external_type_specification]
#[verifier::external_body]
pub struct ExBabbageWitnessSet(babbage::WitnessSet);

/// `babbage::PseudoTx` of pallas: `babbage::Tx` is this type at the three
/// types above.
#[verifier::external_type_specification]
#[verifier::external_body]
#[verifier::reject_recursive_types(T1)]
#[verifier::reject_recursive_types(T2)]
#[verifier::reject_recursive_types(T3)]
pub struct ExBabbageTx<T1: Clone, T2: Clone, T3: Clone>(babbage::PseudoTx<T1, T2, T3>);

/// `conway::Value` of pallas, the value of a Conway output.
#[verifier::external_type_specification]
#[verifier::external_body]
pub struct ExConwayValue(conway::Value);

/// `conway::PseudoScript` of pallas.
#[verifier::external_type_specification]
#[verifier::external_body]
#[verifier::reject_recursive_types(T1)]
pub struct ExConwayScript<T1>(conway::PseudoScript<T1>);

/// `conway::PseudoTransactionOutput` of pallas: an output in either form.
#[verifier::external_type_specification]
#[verifier::external_body]
#[verifier::reject_recursive_types(T)]
pub struct ExConwayOutput<T>(conway::PseudoTransactionOutput<T>);

/// `conway::PseudoTransactionBody` of pallas.
#[verifier::external_type_specification]
#[verifier::external_body]
#[verifier::reject_recursive_types(T1)]
pub struct ExConwayBody<T1>(conway::PseudoTransactionBody<T1>);

/// `conway::WitnessSet` of pallas.
#[verifier::external_type_specification]
#[verifier::external_body]
pub struct ExConwayWitnessSet(conway::WitnessSet);

/// `conway::PseudoTx` of pallas: `conway::Tx` is this type at the three
/// types above.
#[verifier::external_type_specification]
#[verifier::external_body]
#[verifier::reject_recursive_types(T1)]
#[verifier::reject_recursive_types(T2)]
#[verifier::reject_recursive_types(T3)]
pub struct ExConwayTx<T1: Clone, T2: Clone, T3: Clone>(conway::PseudoTx<T1, T2, T3>);

/// `Clone::clone` of a Byron transaction. Nothing is claimed of the copy.
pub assume_specification[ <byron::Tx as Clone>::clone ](tx: &byron::Tx) -> byron::Tx;

/// `Clone::clone` of a Babbage transaction. Nothing is claimed of the copy.
pub assume_specification<T1, T2, T3>[ <babbage::PseudoTx<T1, T2, T3> as Clone>::clone ](
    tx: &babbage::PseudoTx<T1, T2, T3>,
) -> babbage::PseudoTx<T1, T2, T3> where T1: Clone + Clone, T2: Clone + Clone, T3: Clone + Clone;

/// `Clone::clone` of a Conway transaction. Nothing is claimed of the copy.
pub assume_specification<T1, T2, T3>[ <conway::PseudoTx<T1, T2, T3> as Clone>::clone ](
    tx: &conway::PseudoTx<T1, T2, T3>,
) -> conway::PseudoTx<T1, T2, T3> where T1: Clone + Clone, T2: Clone + Clone, T3: Clone + Clone;

/// What the codec makes of `cbor` when it reads it as a Conway transaction:
/// the transaction, or `None` where the bytes do not have that structure.
pub uninterp spec fn conway_reading(cbor: Seq<u8>) -> Option<conway::Tx>;

/// What the codec makes of `cbor` when it reads it as a Babbage transaction.
pub uninterp spec fn babbage_reading(cbor: Seq<u8>) -> Option<babbage::Tx>;

/// What the codec makes of `cbor` when it reads it as a transaction of the
/// schema that Shelley, Allegra, Mary and Alonzo share.
pub uninterp spec fn alonzo_reading(cbor: Seq<u8>) -> Option<alonzo::Tx>;

/// What the codec makes of `cbor` when it reads it as a Byron transaction.
pub uninterp spec fn byron_reading(cbor: Seq<u8>) -> Option<byron::Tx>;

/// `minicbor::decode` at `conway::Tx`, its error dropped.
///
/// Trusted: the result is a function of the bytes alone, and the codec
/// refuses an empty input, since it first reads the head of an array.
#[verifier::external_body]
pub(crate) fn read_conway(cbor: &[u8]) -> (tx: Option<conway::Tx>)
    ensures
        tx == conway_reading(cbor@),
        cbor@.len() == 0 ==> tx is None,
{
    pallas::codec::minicbor::decode(cbor).ok()
}

/// `minicbor::decode` at `babbage::Tx`, its error dropped.
///
/// Trusted: the result is a function of the bytes alone, and the codec
/// refuses an empty input, since it first reads the head of an array.
#[verifier::external_body]
pub(crate) fn read_babbage(cbor: &[u8]) -> (tx: Option<babbage::Tx>)
    ensures
        tx == babbage_reading(cbor@),
        cbor@.len() == 0 ==> tx is None,
{
    pallas::codec::minicbor::decode(cbor).ok()
}

/// `minicbor::decode` at `alonzo::Tx`, its error dropped.
///
/// Trusted: the result is a function of the bytes alone, and the codec
/// refuses an empty input, since it first reads the head of an array.
#[verifier::external_body]
pub(crate) fn read_alonzo(cbor: &[u8]) -> (tx: Option<alonzo::Tx>)
    ensures
        tx == alonzo_reading(cbor@),
        cbor@.len() == 0 ==> tx is None,
{
    pallas::codec::minicbor::decode(cbor).ok()
}

/// `minicbor::decode` at `byron::Tx`, its error dropped.
///
/// Trusted: the result is a function of the bytes alone, and the codec
/// refuses an empty input, since it first reads the head of an array.
#[verifier::external_body]
pub(crate) fn read_byron(cbor: &[u8]) -> (tx: Option<byron::Tx>)
    ensures
        tx == byron_reading(cbor@),
        cbor@.len() == 0 ==> tx is None,
{
    pallas::codec::minicbor::decode(cbor).ok()
}

/// An input of a transaction, as plain values: the transaction that it
/// spends from, and the place of the output there.
#[derive(Debug, Clone)]
pub struct TxInput {
    pub transaction_id: Vec<u8>,
    pub index: u64,
}

impl View for TxInput {
    type V = (Seq<u8>, u64);

    open spec fn view(&self) -> (Seq<u8>, u64) {
        (self.transaction_id@, self.index)
    }
}

/// The inputs of a Conway transaction, in the order in which it lists them.
pub uninterp spec fn conway_inputs(tx: conway::Tx) -> Seq<(Seq<u8>, u64)>;

/// The raw addresses of the outputs of a Conway transaction, in order.
pub uninterp spec fn conway_output_addresses(tx: conway::Tx) -> Seq<Seq<u8>>;

/// The bech32 form of a raw address; `None` where the bytes are no address,
/// or are one that has no bech32 form.
pub uninterp spec fn bech32_text(address: Seq<u8>) -> Option<Seq<char>>;

/// What `Debug` writes for a Babbage transaction.
pub uninterp spec fn babbage_debug_text(tx: babbage::Tx) -> Seq<char>;

/// What `Debug` writes for a transaction of the Alonzo schema.
pub uninterp spec fn alonzo_debug_text(tx: alonzo::Tx) -> Seq<char>;

/// What `Debug` writes for a Byron transaction.
pub uninterp spec fn byron_debug_text(tx: byron::Tx) -> Seq<char>;

/// The field `transaction_body.inputs` of a Conway transaction, each input
/// as plain values.
///
/// Trusted: the inputs come in the order of the field.
#[verifier::external_body]
pub(crate) fn inputs_of_conway(tx: &conway::Tx) -> (r: Vec<TxInput>)
    ensures
        r@.map_values(|i: TxInput| i@) == conway_inputs(*tx),
{
    tx.transaction_body.inputs.iter().map(
        |i| TxInput { transaction_id: i.transaction_id.to_vec(), index: i.index },
    ).collect()
}

/// The field `transaction_body.outputs` of a Conway transaction, each output
/// as its raw address, whichever of the two forms the output has.
///
/// Trusted: the addresses come in the order of the field.
#[verifier::external_body]
pub(crate) fn output_addresses_of_conway(tx: &conway::Tx) -> (r: Vec<Vec<u8>>)
    ensures
        r.deep_view() == conway_output_addresses(*tx),
{
    tx.transaction_body.outputs.iter().map(
        |o|
            match o {
                conway::PseudoTransactionOutput::Legacy(x) => x.address.to_vec(),
                conway::PseudoTransactionOutput::PostAlonzo(x) => x.address.to_vec(),
            },
    ).collect()
}

/// `Address::from_bytes` of pallas, then `Address::to_bech32`.
///
/// Trusted: the text is a function of the bytes; the two errors are dropped.
#[verifier::external_body]
pub(crate) fn address_to_bech32(address: &[u8]) -> (r: Option<String>)
    ensures
        match r {
            Some(text) => bech32_text(address@) == Some(text@),
            None => bech32_text(address@) is None,
        },
{
    pallas::ledger::addresses::Address::from_bytes(address).ok()?.to_bech32().ok()
}

/// `Debug` of a Babbage transaction.
///
/// Trusted: the text is a function of the transaction.
#[verifier::external_body]
pub(crate) fn debug_babbage(tx: &babbage::Tx) -> (r: String)
    ensures
        r@ == babbage_debug_text(*tx),
{
    format!("{:?}", tx)
}

/// `Debug` of a transaction of the Alonzo schema.
///
/// Trusted: the text is a function of the transaction.
#[verifier::external_body]
pub(crate) fn debug_alonzo(tx: &alonzo::Tx) -> (r: String)
    ensures
        r@ == alonzo_debug_text(*tx),
{
    format!("{:?}", tx)
}

/// `Debug` of a Byron transaction.
///
/// Trusted: the text is a function of the transaction.
#[verifier::external_body]
pub(crate) fn debug_byron(tx: &byron::Tx) -> (r: String)
    ensures
        r@ == byron_debug_text(*tx),
{
    format!("{:?}", tx)
}

} // verus!
