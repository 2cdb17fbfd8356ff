use crate::ledger::{
    alonzo_reading, babbage_reading, byron_reading, conway_reading, read_alonzo, read_babbage,
    read_byron, read_conway,
};
use pallas::ledger::primitives::{alonzo, babbage, byron, conway};
use std::sync::Arc;
use vstd::prelude::*;

verus! {

/// An era of the ledger.
#[derive(Debug, Clone, Copy, PartialEq, Eq, Structural)]
pub enum Era {
    Byron,
    Shelley,
    Allegra,
    Mary,
    Alonzo,
    Babbage,
    Conway,
}

impl Era {
    /// The name of the era.
    pub open spec fn label(self) -> Seq<char> {
        match self {
            Era::Byron => "Byron"@,
            Era::Shelley => "Shelley"@,
            Era::Allegra => "Allegra"@,
            Era::Mary => "Mary"@,
            Era::Alonzo => "Alonzo"@,
            Era::Babbage => "Babbage"@,
            Era::Conway => "Conway"@,
        }
    }

    /// The name of the era.
    pub fn name(&self) -> (r: &'static str)
        ensures
            r@ == self.label(),
    {
        match self {
            Era::Byron => "Byron",
            Era::Shelley => "Shelley",
            Era::Allegra => "Allegra",
            Era::Mary => "Mary",
            Era::Alonzo => "Alonzo",
            Era::Babbage => "Babbage",
            Era::Conway => "Conway",
        }
    }
}

/// One of the four binary layouts that a transaction can follow.
#[derive(Debug, Clone, Copy, PartialEq, Eq, Structural)]
pub enum Schema {
    Conway,
    Babbage,
    /// The layout that Shelley, Allegra, Mary and Alonzo share.
    Alonzo,
    Byron,
}

/// A transaction, tagged with the schema under which its bytes were read.
#[derive(Debug, Clone)]
pub enum MultiEraTx {
    /// A transaction of one of the four eras that share the Alonzo schema.
    /// The bytes do not tell which, so the era is always `Era::Alonzo`.
    AlonzoCompatible(Arc<alonzo::Tx>, Era),
    Babbage(babbage::Tx),
    Byron(byron::Tx),
    Conway(conway::Tx),
}

/// What the inspector holds: the text that the user typed, the transaction
/// that was read from it last, and the number of the latest request to read.
#[derive(Debug)]
pub struct State {
    pub tx_cbor: String,
    pub transaction: Option<MultiEraTx>,
    /// Each edit of the text issues a request under the next number. An
    /// answer counts only if it carries this number.
    pub latest_request: u64,
}

impl Default for State {
    /// No text, no transaction, no request yet.
    fn default() -> (r: State)
        ensures
            r.tx_cbor@.len() == 0,
            r.transaction is None,
            r.latest_request == 0,
    {
        State { tx_cbor: String::new(), transaction: None, latest_request: 0 }
    }
}

/// The bytes follow none of the four schemas.
#[derive(Debug, Clone, Copy, PartialEq, Eq, Structural)]
pub struct DecodeTxError;

/// The order in which `MultiEraTx::decode` tries the schemas: newest first.
pub const PRIORITY: [Schema; 4] = [Schema::Conway, Schema::Babbage, Schema::Alonzo, Schema::Byron];

impl DecodeTxError {
    /// What the error says.
    pub fn to_string(&self) -> (r: String)
        ensures
            r@ == "unknown cbor"@,
    {
        String::from_str("unknown cbor")
    }
}

impl Schema {
    /// The transaction that reading `cbor` under this schema gives, tagged;
    /// `None` where the bytes do not follow the schema.
    pub open spec fn reading(self, cbor: Seq<u8>) -> Option<MultiEraTx> {
        match self {
            Schema::Conway => match conway_reading(cbor) {
                Some(tx) => Some(MultiEraTx::Conway(tx)),
                None => None,
            },
            Schema::Babbage => match babbage_reading(cbor) {
                Some(tx) => Some(MultiEraTx::Babbage(tx)),
                None => None,
            },
            Schema::Alonzo => match alonzo_reading(cbor) {
                Some(tx) => Some(MultiEraTx::AlonzoCompatible(Arc::new(tx), Era::Alonzo)),
                None => None,
            },
            Schema::Byron => match byron_reading(cbor) {
                Some(tx) => Some(MultiEraTx::Byron(tx)),
                None => None,
            },
        }
    }

    /// Whether `cbor` follows this schema.
    pub open spec fn accepts(self, cbor: Seq<u8>) -> bool {
        self.reading(cbor) is Some
    }
}

/// The reading of `cbor` under the first schema of `order` that accepts it.
pub open spec fn first_reading(order: Seq<Schema>, cbor: Seq<u8>) -> Option<MultiEraTx>
    decreases order.len(),
{
    if order.len() == 0 {
        None
    } else if order[0].accepts(cbor) {
        order[0].reading(cbor)
    } else {
        first_reading(order.drop_first(), cbor)
    }
}

impl MultiEraTx {
    /// The schema under which this transaction was read.
    pub open spec fn schema_of(self) -> Schema {
        match self {
            MultiEraTx::Conway(_) => Schema::Conway,
            MultiEraTx::Babbage(_) => Schema::Babbage,
            MultiEraTx::AlonzoCompatible(_, _) => Schema::Alonzo,
            MultiEraTx::Byron(_) => Schema::Byron,
        }
    }

    /// What `decode` returns for `cbor`: the reading under Conway if there is
    /// one, else under Babbage, else under Alonzo, else under Byron, else the
    /// error.
    pub open spec fn decoding(cbor: Seq<u8>) -> Result<MultiEraTx, DecodeTxError> {
        if Schema::Conway.accepts(cbor) {
            Ok(Schema::Conway.reading(cbor)->Some_0)
        } else if Schema::Babbage.accepts(cbor) {
            Ok(Schema::Babbage.reading(cbor)->Some_0)
        } else if Schema::Alonzo.accepts(cbor) {
            Ok(Schema::Alonzo.reading(cbor)->Some_0)
        } else if Schema::Byron.accepts(cbor) {
            Ok(Schema::Byron.reading(cbor)->Some_0)
        } else {
            Err(DecodeTxError)
        }
    }

    /// Tags a transaction that was read under the Conway schema.
    pub fn from_conway(tx: conway::Tx) -> (r: MultiEraTx)
        ensures
            r == MultiEraTx::Conway(tx),
    {
        MultiEraTx::Conway(tx)
    }

    /// Tags a transaction that was read under the Babbage schema.
    pub fn from_babbage(tx: babbage::Tx) -> (r: MultiEraTx)
        ensures
            r == MultiEraTx::Babbage(tx),
    {
        MultiEraTx::Babbage(tx)
    }

    /// Tags a transaction that was read under the Alonzo schema. Whichever of
    /// the four eras wrote it, it is reported as Alonzo.
    pub fn from_alonzo(tx: alonzo::Tx) -> (r: MultiEraTx)
        ensures
            r == MultiEraTx::AlonzoCompatible(Arc::new(tx), Era::Alonzo),
    {
        MultiEraTx::AlonzoCompatible(Arc::new(tx), Era::Alonzo)
    }

    /// Tags a transaction that was read under the Byron schema.
    pub fn from_byron(tx: byron::Tx) -> (r: MultiEraTx)
        ensures
            r == MultiEraTx::Byron(tx),
    {
        MultiEraTx::Byron(tx)
    }

    /// Reads `cbor` under one schema.
    pub fn decode_as(schema: Schema, cbor: &[u8]) -> (r: Option<MultiEraTx>)
        ensures
            r == schema.reading(cbor@),
            cbor@.len() == 0 ==> r is None,
    {
        match schema {
            Schema::Conway => match read_conway(cbor) {
                Some(tx) => Some(MultiEraTx::from_conway(tx)),
                None => None,
            },
            Schema::Babbage => match read_babbage(cbor) {
                Some(tx) => Some(MultiEraTx::from_babbage(tx)),
                None => None,
            },
            Schema::Alonzo => match read_alonzo(cbor) {
                Some(tx) => Some(MultiEraTx::from_alonzo(tx)),
                None => None,
            },
            Schema::Byron => match read_byron(cbor) {
                Some(tx) => Some(MultiEraTx::from_byron(tx)),
                None => None,
            },
        }
    }

    /// Tries the schemas of `order` one after the other and returns the
    /// reading under the first that accepts `cbor`.
    pub fn decode_in_order(order: &[Schema], cbor: &[u8]) -> (r: Result<MultiEraTx, DecodeTxError>)
        ensures
            r == match first_reading(order@, cbor@) {
                Some(tx) => Ok::<MultiEraTx, DecodeTxError>(tx),
                None => Err(DecodeTxError),
            },
            cbor@.len() == 0 ==> r is Err,
    {
        let mut i: usize = 0;
        assert(order@.skip(0) == order@);
        while i < order.len()
            invariant
                i <= order.len(),
                first_reading(order@, cbor@) == first_reading(order@.skip(i as int), cbor@),
            decreases order.len() - i,
        {
            match MultiEraTx::decode_as(order[i], cbor) {
                Some(tx) => {
                    return Ok(tx);
                },
                None => {},
            }
            assert(order@.skip(i as int).drop_first() == order@.skip(i + 1));
            i += 1;
        }
        Err(DecodeTxError)
    }

    /// Finds out which schema `cbor` follows, trying Conway, Babbage, Alonzo
    /// and Byron in this order, and returns the first reading. No byte of
    /// the input is taken as a tag of the era.
    pub fn decode(cbor: &[u8]) -> (r: Result<MultiEraTx, DecodeTxError>)
        ensures
            r == MultiEraTx::decoding(cbor@),
            cbor@.len() == 0 ==> r is Err,
    {
        proof {
            lemma_priority_reading(cbor@);
        }
        MultiEraTx::decode_in_order(&PRIORITY, cbor)
    }
}

/// Walking `PRIORITY` gives what `MultiEraTx::decoding` states.
pub proof fn lemma_priority_reading(cbor: Seq<u8>)
    ensures
        MultiEraTx::decoding(cbor) == match first_reading(PRIORITY@, cbor) {
            Some(tx) => Ok::<MultiEraTx, DecodeTxError>(tx),
            None => Err(DecodeTxError),
        },
{
    let o0 = PRIORITY@;
    let o1 = o0.drop_first();
    let o2 = o1.drop_first();
    let o3 = o2.drop_first();
    let o4 = o3.drop_first();
    assert(o0.len() == 4 && o0[0] == Schema::Conway);
    assert(o1.len() == 3 && o1[0] == Schema::Babbage);
    assert(o2.len() == 2 && o2[0] == Schema::Alonzo);
    assert(o3.len() == 1 && o3[0] == Schema::Byron);
    assert(o4.len() == 0);
    reveal_with_fuel(first_reading, 5);
}

} // verus!
