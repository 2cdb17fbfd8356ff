//! What holds of the decoder on every input.

use crate::block_inspector::state::{DecodeTxError, Era, MultiEraTx, Schema, State};
use crate::block_inspector::update::{
    text_decoding, updated, Command, Message, TxTextError,
};
use crate::codec::hex_decoding;
use crate::ledger::alonzo_reading;
use crate::text::trimmed;
use vstd::prelude::*;
use vstd::utf8::encode_utf8;

verus! {

impl Schema {
    /// The place of the schema in the order of trial: 0 for the one that is
    /// tried first.
    pub open spec fn rank(self) -> int {
        match self {
            Schema::Conway => 0,
            Schema::Babbage => 1,
            Schema::Alonzo => 2,
            Schema::Byron => 3,
        }
    }
}

/// Decoding is deterministic: two answers to the same bytes are the same
/// variant with the same transaction, or the same error.
pub proof fn decode_is_deterministic(
    cbor: Seq<u8>,
    first: Result<MultiEraTx, DecodeTxError>,
    second: Result<MultiEraTx, DecodeTxError>,
)
    requires
        first == MultiEraTx::decoding(cbor),
        second == MultiEraTx::decoding(cbor),
    ensures
        first == second,
{
}

/// The first schema in the order of trial that accepts the bytes decides:
/// the answer is the reading under it, with its tag.
pub proof fn first_accepting_schema_decides(cbor: Seq<u8>, schema: Schema)
    requires
        schema.accepts(cbor),
        forall|earlier: Schema| earlier.rank() < schema.rank() ==> !earlier.accepts(cbor),
    ensures
        MultiEraTx::decoding(cbor) == Ok::<MultiEraTx, DecodeTxError>(
            schema.reading(cbor)->Some_0,
        ),
        MultiEraTx::decoding(cbor)->Ok_0.schema_of() == schema,
{
    assert(Schema::Conway.rank() == 0);
    assert(Schema::Babbage.rank() == 1);
    assert(Schema::Alonzo.rank() == 2);
    assert(Schema::Byron.rank() == 3);
}

/// Priority: where two schemas accept the same bytes, the answer is never
/// tagged with the one that comes later in the order of trial. Bytes that
/// are meant for the later schema are so taken for an earlier one.
pub proof fn later_schema_never_wins(cbor: Seq<u8>, earlier: Schema, later: Schema)
    requires
        earlier.rank() < later.rank(),
        earlier.accepts(cbor),
        later.accepts(cbor),
    ensures
        MultiEraTx::decoding(cbor) is Ok,
        MultiEraTx::decoding(cbor)->Ok_0.schema_of() != later,
        MultiEraTx::decoding(cbor)->Ok_0.schema_of().rank() <= earlier.rank(),
{
}

/// Priority, for the newest pair: bytes that both the Conway and the Babbage
/// schema accept are reported as Conway.
pub proof fn conway_wins_over_babbage(cbor: Seq<u8>)
    requires
        Schema::Conway.accepts(cbor),
        Schema::Babbage.accepts(cbor),
    ensures
        MultiEraTx::decoding(cbor) matches Ok(MultiEraTx::Conway(_)),
{
}

/// Priority, for the middle pair: bytes that both the Babbage and the Alonzo
/// schema accept, and the Conway schema does not, are reported as Babbage.
pub proof fn babbage_wins_over_alonzo(cbor: Seq<u8>)
    requires
        !Schema::Conway.accepts(cbor),
        Schema::Babbage.accepts(cbor),
        Schema::Alonzo.accepts(cbor),
    ensures
        MultiEraTx::decoding(cbor) matches Ok(MultiEraTx::Babbage(_)),
{
}

/// Priority, for the oldest pair: bytes that both the Alonzo and the Byron
/// schema accept, and no newer schema does, are reported as Alonzo
/// compatible.
pub proof fn alonzo_wins_over_byron(cbor: Seq<u8>)
    requires
        !Schema::Conway.accepts(cbor),
        !Schema::Babbage.accepts(cbor),
        Schema::Alonzo.accepts(cbor),
        Schema::Byron.accepts(cbor),
    ensures
        MultiEraTx::decoding(cbor) matches Ok(MultiEraTx::AlonzoCompatible(_, _)),
{
}

/// Legacy collapse: bytes that neither the Conway nor the Babbage schema
/// accepts, and the Alonzo schema does, are reported as Alonzo compatible
/// with the era Alonzo, whichever of Shelley, Allegra, Mary and Alonzo wrote
/// them.
pub proof fn legacy_eras_collapse(cbor: Seq<u8>)
    requires
        !Schema::Conway.accepts(cbor),
        !Schema::Babbage.accepts(cbor),
        Schema::Alonzo.accepts(cbor),
    ensures
        MultiEraTx::decoding(cbor) matches Ok(MultiEraTx::AlonzoCompatible(tx, era)) && era
            == Era::Alonzo && *tx == alonzo_reading(cbor)->Some_0,
{
}

/// No answer of the decoder carries a legacy era other than Alonzo.
pub proof fn reported_legacy_era_is_alonzo(cbor: Seq<u8>)
    ensures
        MultiEraTx::decoding(cbor) matches Ok(MultiEraTx::AlonzoCompatible(_, era)) ==> era
            == Era::Alonzo,
{
}

/// Exhaustive failure: the decoder fails exactly on the bytes that all four
/// schemas refuse, and then with the one error there is.
pub proof fn fails_iff_every_schema_refuses(cbor: Seq<u8>)
    ensures
        MultiEraTx::decoding(cbor) is Err <==> (forall|schema: Schema| !schema.accepts(cbor)),
        MultiEraTx::decoding(cbor) is Err ==> MultiEraTx::decoding(cbor) == Err::<
            MultiEraTx,
            DecodeTxError,
        >(DecodeTxError),
{
    if MultiEraTx::decoding(cbor) is Err {
        assert forall|schema: Schema| !schema.accepts(cbor) by {
            match schema {
                Schema::Conway => {},
                Schema::Babbage => {},
                Schema::Alonzo => {},
                Schema::Byron => {},
            }
        }
    }
}

/// Every answer of the decoder is the reading of the bytes under the schema
/// with which it is tagged, and no schema that is tried before it accepts
/// the bytes.
pub proof fn answer_is_the_first_reading(cbor: Seq<u8>)
    requires
        MultiEraTx::decoding(cbor) is Ok,
    ensures
        ({
            let tx = MultiEraTx::decoding(cbor)->Ok_0;
            &&& tx.schema_of().reading(cbor) == Some(tx)
            &&& forall|earlier: Schema|
                earlier.rank() < tx.schema_of().rank() ==> !earlier.accepts(cbor)
        }),
{
    let tx = MultiEraTx::decoding(cbor)->Ok_0;
    assert forall|earlier: Schema| earlier.rank() < tx.schema_of().rank() implies !earlier.accepts(
        cbor,
    ) by {
        match earlier {
            Schema::Conway => {},
            Schema::Babbage => {},
            Schema::Alonzo => {},
            Schema::Byron => {},
        }
    }
}

/// The hex boundary: a text that is no hex fails as such and is never looked
/// at as a transaction, and the failure of the decoder is reported only for
/// a text that is hex.
pub proof fn hex_failure_comes_first(text: Seq<char>)
    ensures
        hex_decoding(encode_utf8(trimmed(text))) is Err <==> text_decoding(text) matches Err(
            TxTextError::HexDecodeError(_),
        ),
        text_decoding(text) matches Err(TxTextError::UnknownEncoding(_)) ==> hex_decoding(
            encode_utf8(trimmed(text)),
        ) matches Ok(bytes) && MultiEraTx::decoding(bytes) is Err,
{
}

/// An edit supersedes the request before it: the answer to that request,
/// when it comes in after the edit, leaves the transaction as it is.
pub proof fn superseded_answer_is_dropped(
    before: State,
    text: String,
    edited: State,
    asked: Command,
    answer: Box<Option<MultiEraTx>>,
    after: State,
    done: Command,
)
    requires
        updated(before, Message::TxCborChanged(text), edited, asked),
        updated(edited, Message::TxDecoded(before.latest_request, answer), after, done),
    ensures
        after.transaction == before.transaction,
        after.latest_request == edited.latest_request,
{
}

/// The answer to the latest request replaces the transaction as a whole.
pub proof fn latest_answer_is_applied(
    before: State,
    text: String,
    edited: State,
    asked: Command,
    answer: Box<Option<MultiEraTx>>,
    after: State,
    done: Command,
)
    requires
        updated(before, Message::TxCborChanged(text), edited, asked),
        asked matches Command::Decode { request, .. } && updated(
            edited,
            Message::TxDecoded(request, answer),
            after,
            done,
        ),
    ensures
        after.transaction == *answer,
{
}

} // verus!
