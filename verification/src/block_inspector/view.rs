use crate::block_inspector::state::MultiEraTx;
use crate::codec::{hex_encode, hex_text};
use crate::ledger::{
    address_to_bech32, alonzo_debug_text, babbage_debug_text, bech32_text, byron_debug_text,
    conway_inputs, conway_output_addresses, debug_alonzo, debug_babbage, debug_byron,
    inputs_of_conway, output_addresses_of_conway, TxInput,
};
use crate::text::{decimal, decimal_text, texts};
use vstd::prelude::*;

verus! {

/// The two lines that show each input: its index, then the hash of the
/// transaction that it spends from.
pub open spec fn input_lines(inputs: Seq<(Seq<u8>, u64)>) -> Seq<Seq<char>>
    decreases inputs.len(),
{
    if inputs.len() == 0 {
        Seq::empty()
    } else {
        input_lines(inputs.drop_last()).push(
            "index = "@ + decimal_text(inputs.last().1 as nat),
        ).push("hash  = "@ + hex_text(inputs.last().0))
    }
}

/// The line that shows each output: its address in bech32. `None` where one
/// of the addresses has no bech32 form.
pub open spec fn address_lines(addresses: Seq<Seq<u8>>) -> Option<Seq<Seq<char>>>
    decreases addresses.len(),
{
    if addresses.len() == 0 {
        Some(Seq::empty())
    } else {
        match (address_lines(addresses.drop_last()), bech32_text(addresses.last())) {
            (Some(lines), Some(text)) => Some(lines.push("address = "@ + text)),
            _ => None,
        }
    }
}

/// The lines that show a transaction, from top to bottom.
///
/// A Conway transaction is shown by its inputs and outputs; one of another
/// schema by the name of the schema and a dump of all that it holds.
pub open spec fn rendering(tx: MultiEraTx) -> Option<Seq<Seq<char>>> {
    match tx {
        MultiEraTx::AlonzoCompatible(tx, era) => Some(
            seq!["Alonzo Compatible"@, "Era: "@ + era.label(), alonzo_debug_text(*tx)],
        ),
        MultiEraTx::Babbage(tx) => Some(seq!["Babbage"@, babbage_debug_text(tx)]),
        MultiEraTx::Byron(tx) => Some(seq!["Byron"@, byron_debug_text(tx)]),
        MultiEraTx::Conway(tx) => match address_lines(conway_output_addresses(tx)) {
            Some(lines) => Some(
                seq!["Conway"@, "total inputs = "@ + decimal_text(conway_inputs(tx).len())]
                    + input_lines(conway_inputs(tx)) + seq![
                    "total outputs = "@ + decimal_text(conway_output_addresses(tx).len()),
                ] + lines,
            ),
            None => None,
        },
    }
}

/// `label` followed by `value`.
fn labelled(label: &str, value: &str) -> (r: String)
    ensures
        r@ == label@ + value@,
{
    let mut line = String::from_str(label);
    line.append(value);
    line
}

/// Appends the lines that show the inputs.
fn push_input_lines(lines: &mut Vec<String>, inputs: &Vec<TxInput>)
    ensures
        texts(final(lines)@) == texts(old(lines)@) + input_lines(
            inputs@.map_values(|i: TxInput| i@),
        ),
{
    let ghost before = texts(lines@);
    let ghost all = inputs@.map_values(|i: TxInput| i@);
    let mut i: usize = 0;
    assert(all.take(0).len() == 0);
    assert(texts(lines@) =~= before + input_lines(all.take(0)));
    while i < inputs.len()
        invariant
            i <= inputs.len(),
            all == inputs@.map_values(|i: TxInput| i@),
            texts(lines@) == before + input_lines(all.take(i as int)),
        decreases inputs.len() - i,
    {
        let input = &inputs[i];
        let index = labelled("index = ", decimal(input.index).as_str());
        let hash = labelled("hash  = ", hex_encode(input.transaction_id.as_slice()).as_str());
        proof {
            let next = all.take(i + 1);
            assert(next.drop_last() == all.take(i as int));
            assert(next.last() == input@);
            assert(texts(lines@.push(index).push(hash)) =~= texts(lines@).push(index@).push(
                hash@,
            ));
            assert(before + input_lines(all.take(i as int)).push(index@).push(hash@) =~= (before
                + input_lines(all.take(i as int))).push(index@).push(hash@));
        }
        lines.push(index);
        lines.push(hash);
        i += 1;
    }
    assert(all.take(inputs.len() as int) == all);
}

/// The lines that show the outputs; `None` where one of the addresses has no
/// bech32 form.
fn output_lines(addresses: &Vec<Vec<u8>>) -> (r: Option<Vec<String>>)
    ensures
        match r {
            Some(lines) => address_lines(addresses.deep_view()) == Some(texts(lines@)),
            None => address_lines(addresses.deep_view()) is None,
        },
{
    let ghost all = addresses.deep_view();
    let mut lines: Vec<String> = Vec::new();
    let mut i: usize = 0;
    assert(all.take(0).len() == 0);
    assert(texts(lines@) =~= Seq::empty());
    while i < addresses.len()
        invariant
            i <= addresses.len(),
            all == addresses.deep_view(),
            address_lines(all.take(i as int)) == Some(texts(lines@)),
        decreases addresses.len() - i,
    {
        let ghost next = all.take(i + 1);
        proof {
            assert(next.drop_last() == all.take(i as int));
            assert(next.last() == addresses@[i as int]@);
        }
        match address_to_bech32(addresses[i].as_slice()) {
            Some(text) => {
                let line = labelled("address = ", text.as_str());
                assert(texts(lines@.push(line)) =~= texts(lines@).push(line@));
                lines.push(line);
            },
            None => {
                proof {
                    lemma_address_lines_fail(all, i + 1);
                }
                return None;
            },
        }
        i += 1;
    }
    assert(all.take(addresses.len() as int) == all);
    Some(lines)
}

/// Once a prefix of the addresses cannot be shown, the whole cannot.
proof fn lemma_address_lines_fail(addresses: Seq<Seq<u8>>, n: int)
    requires
        0 <= n <= addresses.len(),
        address_lines(addresses.take(n)) is None,
    ensures
        address_lines(addresses) is None,
    decreases addresses.len() - n,
{
    if n < addresses.len() {
        assert(addresses.take(n + 1).drop_last() == addresses.take(n));
        lemma_address_lines_fail(addresses, n + 1);
    } else {
        assert(addresses.take(n) == addresses);
    }
}

/// Writes the lines that show a transaction, from top to bottom.
///
/// The answer is `None` for a Conway transaction with an output whose
/// address has no bech32 form.
pub fn render_tx(tx: &MultiEraTx) -> (r: Option<Vec<String>>)
    ensures
        match r {
            Some(lines) => rendering(*tx) == Some(texts(lines@)),
            None => rendering(*tx) is None,
        },
{
    match tx {
        MultiEraTx::AlonzoCompatible(tx, era) => {
            let title = String::from_str("Alonzo Compatible");
            let era_line = labelled("Era: ", era.name());
            let dump = debug_alonzo(tx);
            let lines = vec![title, era_line, dump];
            assert(texts(lines@) =~= seq![title@, era_line@, dump@]);
            Some(lines)
        },
        MultiEraTx::Babbage(tx) => {
            let title = String::from_str("Babbage");
            let dump = debug_babbage(tx);
            let lines = vec![title, dump];
            assert(texts(lines@) =~= seq![title@, dump@]);
            Some(lines)
        },
        MultiEraTx::Byron(tx) => {
            let title = String::from_str("Byron");
            let dump = debug_byron(tx);
            let lines = vec![title, dump];
            assert(texts(lines@) =~= seq![title@, dump@]);
            Some(lines)
        },
        MultiEraTx::Conway(tx) => {
            let inputs = inputs_of_conway(tx);
            let addresses = output_addresses_of_conway(tx);
            let shown = match output_lines(&addresses) {
                Some(shown) => shown,
                None => {
                    return None;
                },
            };
            let title = String::from_str("Conway");
            let input_count = labelled(
                "total inputs = ",
                decimal(inputs.len() as u64).as_str(),
            );
            let output_count = labelled(
                "total outputs = ",
                decimal(addresses.len() as u64).as_str(),
            );
            let mut lines = vec![title, input_count];
            assert(texts(lines@) =~= seq![title@, input_count@]);
            push_input_lines(&mut lines, &inputs);
            let ghost head = texts(lines@);
            assert(texts(lines@.push(output_count)) =~= head.push(output_count@));
            lines.push(output_count);
            let ghost middle = texts(lines@);
            let mut shown = shown;
            let ghost tail = texts(shown@);
            lines.append(&mut shown);
            assert(texts(lines@) =~= middle + tail);
            assert(head.push(output_count@) =~= head + seq![output_count@]);
            Some(lines)
        },
    }
}

} // verus!
