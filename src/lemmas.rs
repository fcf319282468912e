//! Facts about decoding that hold of every payload.

use vstd::prelude::*;
use crate::data::{decode_output, decode_outputs, decode_tx, decode_txs, payload_items, skipped_txs};
use crate::json::{array_at, field, str_at, JsonValue};

verus! {

/// Every element of a payload is either decoded or counted as passed over:
/// the decoded transactions number the elements less the skipped ones.
pub proof fn lemma_every_element_accounted(items: Seq<JsonValue>)
    ensures
        decode_txs(items).len() + skipped_txs(items) == items.len(),
    decreases items.len(),
{
    if items.len() > 0 {
        lemma_every_element_accounted(items.drop_last());
    }
}

/// What the first `n` elements decode to is a prefix of what all of them
/// decode to.
pub proof fn lemma_prefix_decodes_to_prefix(items: Seq<JsonValue>, n: int)
    requires
        0 <= n <= items.len(),
    ensures
        decode_txs(items.take(n)).len() <= decode_txs(items).len(),
        forall|k: int|
            0 <= k < decode_txs(items.take(n)).len() ==> #[trigger] decode_txs(items.take(n))[k]
                == decode_txs(items)[k],
    decreases items.len(),
{
    if n == items.len() {
        assert(items.take(n) =~= items);
    } else {
        let init = items.drop_last();
        assert(init.take(n) =~= items.take(n));
        lemma_prefix_decodes_to_prefix(init, n);
    }
}

/// Decoding keeps the payload's order: an element that decodes lands in the
/// batch right after the transactions decoded from the elements before it.
pub proof fn lemma_decoding_keeps_order(items: Seq<JsonValue>, i: int)
    requires
        0 <= i < items.len(),
        decode_tx(items[i]) is Some,
    ensures
        decode_txs(items.take(i)).len() < decode_txs(items).len(),
        decode_txs(items)[decode_txs(items.take(i)).len() as int] == decode_tx(items[i])->0,
{
    let before = items.take(i);
    let through = items.take(i + 1);
    assert(through.drop_last() =~= before);
    assert(through.last() == items[i]);
    assert(decode_txs(through) == decode_txs(before).push(decode_tx(items[i])->0));
    lemma_prefix_decodes_to_prefix(items, i + 1);
    assert(decode_txs(through)[decode_txs(before).len() as int] == decode_tx(items[i])->0);
}

/// A transaction without `dataInputs` decodes, where it otherwise would, with
/// no data inputs.
pub proof fn lemma_missing_data_inputs_are_empty(tx: JsonValue)
    requires
        field(tx, "dataInputs"@) is None,
        str_at(tx, "id"@) is Some,
        array_at(tx, "outputs"@) matches Some(outs) && decode_outputs(outs) is Some,
    ensures
        decode_tx(tx) matches Some(t) && t.data_inputs.len() == 0,
{
}

/// An output without `creationHeight` decodes, where it otherwise would, with
/// creation height 0.
pub proof fn lemma_missing_creation_height_is_zero(out: JsonValue)
    requires
        field(out, "creationHeight"@) is None,
        array_at(out, "assets"@) is Some,
    ensures
        decode_output(out) matches Some(o) && o.creation_height == 0,
{
}

/// An output without `value` decodes, where it otherwise would, with value 0.
pub proof fn lemma_missing_value_is_zero(out: JsonValue)
    requires
        field(out, "value"@) is None,
        array_at(out, "assets"@) is Some,
    ensures
        decode_output(out) matches Some(o) && o.value == 0,
{
}

/// An empty array decodes to an empty batch with nothing passed over.
pub proof fn lemma_empty_array_decodes_empty(raw: JsonValue)
    requires
        raw matches JsonValue::Array(items) && items@.len() == 0,
    ensures
        decode_txs(payload_items(raw)).len() == 0,
        skipped_txs(payload_items(raw)) == 0,
{
}

} // verus!
