//! Unconfirmed-transaction records and their decoding from the node's JSON feed.

use vstd::prelude::*;
use crate::json::{
    array_at, array_or_empty, parsed_json, str_at, str_or_empty, u64_or_zero, JsonValue,
    parse_json,
};

verus! {

/// A token balance held by an output.
#[derive(Clone, Debug, Default, PartialEq)]
pub struct Asset {
    pub token_id: String,
    pub amount: u64,
}

/// A box spent by a transaction.
#[derive(Clone, Debug, Default, PartialEq)]
pub struct Input {
    pub box_id: String,
}

/// A box created by a transaction.
#[derive(Clone, Debug, Default, PartialEq)]
pub struct Output {
    pub box_id: String,
    pub value: u64,
    pub assets: Vec<Asset>,
    pub creation_height: u64,
    pub tx_id: String,
}

/// A transaction that is not yet in a block.
#[derive(Clone, Debug, Default, PartialEq)]
pub struct UnconfirmedTxs {
    pub id: String,
    pub inputs: Vec<Input>,
    pub data_inputs: Vec<String>,
    pub outputs: Vec<Output>,
    pub size: u64,
}

pub struct AssetModel {
    pub token_id: Seq<char>,
    pub amount: u64,
}

pub struct InputModel {
    pub box_id: Seq<char>,
}

pub struct OutputModel {
    pub box_id: Seq<char>,
    pub value: u64,
    pub assets: Seq<AssetModel>,
    pub creation_height: u64,
    pub tx_id: Seq<char>,
}

pub struct TxModel {
    pub id: Seq<char>,
    pub inputs: Seq<InputModel>,
    pub data_inputs: Seq<Seq<char>>,
    pub outputs: Seq<OutputModel>,
    pub size: u64,
}

impl View for Asset {
    type V = AssetModel;

    open spec fn view(&self) -> AssetModel {
        AssetModel { token_id: self.token_id@, amount: self.amount }
    }
}

impl View for Input {
    type V = InputModel;

    open spec fn view(&self) -> InputModel {
        InputModel { box_id: self.box_id@ }
    }
}

impl View for Output {
    type V = OutputModel;

    open spec fn view(&self) -> OutputModel {
        OutputModel {
            box_id: self.box_id@,
            value: self.value,
            assets: self.assets@.map_values(|a: Asset| a@),
            creation_height: self.creation_height,
            tx_id: self.tx_id@,
        }
    }
}

impl View for UnconfirmedTxs {
    type V = TxModel;

    open spec fn view(&self) -> TxModel {
        TxModel {
            id: self.id@,
            inputs: self.inputs@.map_values(|i: Input| i@),
            data_inputs: self.data_inputs@.map_values(|s: String| s@),
            outputs: self.outputs@.map_values(|o: Output| o@),
            size: self.size,
        }
    }
}

/// The `boxId` strings of `items`, in order; an item without one is passed over.
pub open spec fn box_ids(items: Seq<JsonValue>) -> Seq<Seq<char>>
    decreases items.len(),
{
    if items.len() == 0 {
        Seq::empty()
    } else {
        let rest = box_ids(items.drop_last());
        match str_at(items.last(), "boxId"@) {
            Some(id) => rest.push(id),
            None => rest,
        }
    }
}

/// An asset as decoded from `v`: a missing `tokenId` reads as empty, a missing
/// `amount` as 0.
pub open spec fn decode_asset(v: JsonValue) -> AssetModel {
    AssetModel { token_id: str_or_empty(v, "tokenId"@), amount: u64_or_zero(v, "amount"@) }
}

/// An output as decoded from `v`; `None` where `assets` is not an array.
pub open spec fn decode_output(v: JsonValue) -> Option<OutputModel> {
    match array_at(v, "assets"@) {
        Some(assets) => Some(
            OutputModel {
                box_id: str_or_empty(v, "boxId"@),
                value: u64_or_zero(v, "value"@),
                assets: assets.map_values(|a: JsonValue| decode_asset(a)),
                creation_height: u64_or_zero(v, "creationHeight"@),
                tx_id: str_or_empty(v, "transactionId"@),
            },
        ),
        None => None,
    }
}

/// The outputs decoded from `items`, in order; `None` where one of them fails.
pub open spec fn decode_outputs(items: Seq<JsonValue>) -> Option<Seq<OutputModel>>
    decreases items.len(),
{
    if items.len() == 0 {
        Some(Seq::empty())
    } else {
        match (decode_outputs(items.drop_last()), decode_output(items.last())) {
            (Some(rest), Some(o)) => Some(rest.push(o)),
            _ => None,
        }
    }
}

/// A transaction as decoded from `v`; `None` where `id` is not a string,
/// `outputs` is not an array, or one of the outputs fails.
pub open spec fn decode_tx(v: JsonValue) -> Option<TxModel> {
    match (str_at(v, "id"@), array_at(v, "outputs"@)) {
        (Some(id), Some(outputs)) => match decode_outputs(outputs) {
            Some(outs) => Some(
                TxModel {
                    id,
                    inputs: box_ids(array_or_empty(v, "inputs"@)).map_values(
                        |b: Seq<char>| InputModel { box_id: b },
                    ),
                    data_inputs: box_ids(array_or_empty(v, "dataInputs"@)),
                    outputs: outs,
                    size: u64_or_zero(v, "size"@),
                },
            ),
            None => None,
        },
        _ => None,
    }
}

/// The transactions decoded from `items`, in order, without those that fail.
pub open spec fn decode_txs(items: Seq<JsonValue>) -> Seq<TxModel>
    decreases items.len(),
{
    if items.len() == 0 {
        Seq::empty()
    } else {
        let rest = decode_txs(items.drop_last());
        match decode_tx(items.last()) {
            Some(t) => rest.push(t),
            None => rest,
        }
    }
}

/// How many of `items` fail to decode as a transaction.
pub open spec fn skipped_txs(items: Seq<JsonValue>) -> nat
    decreases items.len(),
{
    if items.len() == 0 {
        0
    } else {
        skipped_txs(items.drop_last()) + if decode_tx(items.last()) is None {
            1nat
        } else {
            0nat
        }
    }
}

/// The elements of a payload: the array's items, or none where it is no array.
pub open spec fn payload_items(raw: JsonValue) -> Seq<JsonValue> {
    match raw {
        JsonValue::Array(items) => items@,
        _ => Seq::empty(),
    }
}

/// The `boxId` strings of `items`, in order, passing over items without one.
fn collect_box_ids(items: &Vec<JsonValue>) -> (r: Vec<String>)
    ensures
        r@.map_values(|s: String| s@) == box_ids(items@),
{
    let mut r: Vec<String> = Vec::new();
    let mut i: usize = 0;
    while i < items.len()
        invariant
            i <= items@.len(),
            r@.map_values(|s: String| s@) == box_ids(items@.take(i as int)),
        decreases items@.len() - i,
    {
        assert(items@.take(i + 1).drop_last() =~= items@.take(i as int));
        match items[i].str_at("boxId") {
            Some(id) => {
                r.push(id.clone());
            },
            None => {},
        }
        assert(r@.map_values(|s: String| s@) =~= box_ids(items@.take(i + 1)));
        i = i + 1;
    }
    assert(items@.take(items@.len() as int) =~= items@);
    r
}

/// The string member `key` of `v`, or the empty string.
fn text_or_empty(v: &JsonValue, key: &str) -> (r: String)
    ensures
        r@ == str_or_empty(*v, key@),
{
    match v.str_at(key) {
        Some(s) => s.clone(),
        None => String::new(),
    }
}

/// The integer member `key` of `v`, or 0.
fn number_or_zero(v: &JsonValue, key: &str) -> (r: u64)
    ensures
        r == u64_or_zero(*v, key@),
{
    match v.u64_at(key) {
        Some(n) => n,
        None => 0,
    }
}

/// Decodes one asset of an output.
pub fn decode_asset_value(v: &JsonValue) -> (r: Asset)
    ensures
        r@ == decode_asset(*v),
{
    Asset { token_id: text_or_empty(v, "tokenId"), amount: number_or_zero(v, "amount") }
}

/// Decodes the assets of an output, in order.
fn decode_assets(items: &Vec<JsonValue>) -> (r: Vec<Asset>)
    ensures
        r@.map_values(|a: Asset| a@) == items@.map_values(|a: JsonValue| decode_asset(a)),
{
    let mut r: Vec<Asset> = Vec::new();
    let mut i: usize = 0;
    while i < items.len()
        invariant
            i <= items@.len(),
            r@.len() == i,
            forall|j: int| 0 <= j < i ==> #[trigger] r@[j]@ == decode_asset(items@[j]),
        decreases items@.len() - i,
    {
        let a = decode_asset_value(&items[i]);
        r.push(a);
        i = i + 1;
    }
    assert(r@.map_values(|a: Asset| a@) =~= items@.map_values(|a: JsonValue| decode_asset(a)));
    r
}

/// Decodes one output of a transaction; `None` where its `assets` is not an array.
pub fn decode_output_value(v: &JsonValue) -> (r: Option<Output>)
    ensures
        r is None <==> decode_output(*v) is None,
        r matches Some(o) ==> decode_output(*v) == Some(o@),
{
    match v.array_at("assets") {
        Some(assets) => Some(
            Output {
                box_id: text_or_empty(v, "boxId"),
                value: number_or_zero(v, "value"),
                assets: decode_assets(assets),
                creation_height: number_or_zero(v, "creationHeight"),
                tx_id: text_or_empty(v, "transactionId"),
            },
        ),
        None => None,
    }
}

/// Decodes the outputs of a transaction, in order; `None` where one fails.
fn decode_outputs_value(items: &Vec<JsonValue>) -> (r: Option<Vec<Output>>)
    ensures
        r is None <==> decode_outputs(items@) is None,
        r matches Some(os) ==> decode_outputs(items@) == Some(
            os@.map_values(|o: Output| o@),
        ),
{
    let mut r: Vec<Output> = Vec::new();
    let mut i: usize = 0;
    while i < items.len()
        invariant
            i <= items@.len(),
            decode_outputs(items@.take(i as int)) == Some(r@.map_values(|o: Output| o@)),
        decreases items@.len() - i,
    {
        assert(items@.take(i + 1).drop_last() =~= items@.take(i as int));
        match decode_output_value(&items[i]) {
            Some(o) => {
                r.push(o);
                assert(r@.map_values(|o: Output| o@) =~= decode_outputs(
                    items@.take(i + 1),
                )->0);
            },
            None => {
                proof {
                    lemma_outputs_fail_on_prefix(items@, i as int + 1);
                }
                return None;
            },
        }
        i = i + 1;
    }
    assert(items@.take(items@.len() as int) =~= items@);
    Some(r)
}

/// Once a prefix of `items` fails to decode as outputs, so do all of them.
proof fn lemma_outputs_fail_on_prefix(items: Seq<JsonValue>, n: int)
    requires
        0 <= n <= items.len(),
        decode_outputs(items.take(n)) is None,
    ensures
        decode_outputs(items) is None,
    decreases items.len() - n,
{
    if n < items.len() {
        assert(items.take(n + 1).drop_last() =~= items.take(n));
        lemma_outputs_fail_on_prefix(items, n + 1);
    } else {
        assert(items.take(n) =~= items);
    }
}

/// Decodes one transaction; `None` where its `id` is not a string, its `outputs`
/// is not an array, or one of its outputs has no `assets` array.
pub fn decode_transaction(v: &JsonValue) -> (r: Option<UnconfirmedTxs>)
    ensures
        r is None <==> decode_tx(*v) is None,
        r matches Some(t) ==> decode_tx(*v) == Some(t@),
{
    let id = match v.str_at("id") {
        Some(s) => s.clone(),
        None => {
            return None;
        },
    };
    let outputs = match v.array_at("outputs") {
        Some(items) => match decode_outputs_value(items) {
            Some(os) => os,
            None => {
                return None;
            },
        },
        None => {
            return None;
        },
    };
    let input_ids = match v.array_at("inputs") {
        Some(items) => collect_box_ids(items),
        None => Vec::new(),
    };
    let mut inputs: Vec<Input> = Vec::new();
    let mut i: usize = 0;
    while i < input_ids.len()
        invariant
            i <= input_ids@.len(),
            inputs@.len() == i,
            forall|j: int| 0 <= j < i ==> #[trigger] inputs@[j].box_id@ == input_ids@[j]@,
        decreases input_ids@.len() - i,
    {
        inputs.push(Input { box_id: input_ids[i].clone() });
        i = i + 1;
    }
    let data_inputs = match v.array_at("dataInputs") {
        Some(items) => collect_box_ids(items),
        None => Vec::new(),
    };
    let t = UnconfirmedTxs {
        id,
        inputs,
        data_inputs,
        outputs,
        size: number_or_zero(v, "size"),
    };
    proof {
        assert(input_ids@.map_values(|s: String| s@) == box_ids(array_or_empty(*v, "inputs"@)));
        assert(inputs@.map_values(|x: Input| x@) =~= box_ids(array_or_empty(*v, "inputs"@)).map_values(
            |b: Seq<char>| InputModel { box_id: b },
        ));
        assert(t@.data_inputs =~= box_ids(array_or_empty(*v, "dataInputs"@)));
    }
    Some(t)
}

/// Why a poll produced no batch.
#[derive(Clone, Debug, PartialEq)]
pub enum FetchError {
    /// The request failed before a body came back; the transport's message.
    Transport(String),
    /// The body that came back is not one JSON document.
    InvalidJson,
}

/// One decoded fetch: the payload as received, the transactions decoded from it
/// in payload order, and how many of its elements were passed over as malformed.
#[derive(Debug, PartialEq)]
pub struct VectorUnconfirmedTxs {
    pub node_array: JsonValue,
    pub unconfirmed_txs: Vec<UnconfirmedTxs>,
    pub skipped: usize,
}

impl VectorUnconfirmedTxs {
    /// The decoded transactions as models.
    pub open spec fn txs_view(&self) -> Seq<TxModel> {
        self.unconfirmed_txs@.map_values(|t: UnconfirmedTxs| t@)
    }

    /// Whether this batch is exactly what decoding `raw` gives.
    pub open spec fn decodes(&self, raw: JsonValue) -> bool {
        &&& self.node_array == raw
        &&& self.txs_view() == decode_txs(payload_items(raw))
        &&& self.skipped == skipped_txs(payload_items(raw))
    }

    /// An empty batch over a `null` payload.
    pub fn default() -> (r: VectorUnconfirmedTxs)
        ensures
            r.node_array == JsonValue::Null,
            r.unconfirmed_txs@.len() == 0,
            r.skipped == 0,
    {
        VectorUnconfirmedTxs { node_array: JsonValue::Null, unconfirmed_txs: Vec::new(), skipped: 0 }
    }

    /// Decodes a payload. A payload that is no array gives an empty batch;
    /// elements that do not decode as transactions are passed over and counted.
    pub fn decode(raw: JsonValue) -> (r: VectorUnconfirmedTxs)
        ensures
            r.decodes(raw),
    {
        let mut r = VectorUnconfirmedTxs {
            node_array: raw,
            unconfirmed_txs: Vec::new(),
            skipped: 0,
        };
        r.process_api_data();
        r
    }

    /// Replaces the decoded transactions and the skipped count with those of
    /// the stored payload.
    pub fn process_api_data(&mut self)
        ensures
            final(self).decodes(old(self).node_array),
    {
        let (txs, skipped) = match &self.node_array {
            JsonValue::Array(items) => decode_items(items),
            _ => (Vec::new(), 0),
        };
        self.unconfirmed_txs = txs;
        self.skipped = skipped;
        proof {
            assert(self.txs_view() =~= decode_txs(payload_items(self.node_array)));
        }
    }

    /// Parses a response body, stores it as the payload and decodes it. A body
    /// that is not JSON leaves the batch as it was.
    pub fn get_data(&mut self, body: &str) -> (r: Result<(), FetchError>)
        ensures
            parsed_json(body@) is None ==> r == Err::<(), FetchError>(FetchError::InvalidJson)
                && *final(self) == *old(self),
            parsed_json(body@) matches Some(raw) ==> r is Ok && final(self).decodes(raw),
    {
        match parse_json(body) {
            Some(raw) => {
                self.node_array = raw;
                self.process_api_data();
                Ok(())
            },
            None => Err(FetchError::InvalidJson),
        }
    }
}

/// The transactions decoded from `items` and the number passed over.
fn decode_items(items: &Vec<JsonValue>) -> (r: (Vec<UnconfirmedTxs>, usize))
    ensures
        r.0@.map_values(|t: UnconfirmedTxs| t@) == decode_txs(items@),
        r.1 == skipped_txs(items@),
{
    let mut txs: Vec<UnconfirmedTxs> = Vec::new();
    let mut skipped: usize = 0;
    let mut i: usize = 0;
    while i < items.len()
        invariant
            i <= items@.len(),
            txs@.map_values(|t: UnconfirmedTxs| t@) == decode_txs(items@.take(i as int)),
            skipped == skipped_txs(items@.take(i as int)),
            skipped <= i,
        decreases items@.len() - i,
    {
        assert(items@.take(i + 1).drop_last() =~= items@.take(i as int));
        match decode_transaction(&items[i]) {
            Some(t) => {
                txs.push(t);
                assert(txs@.map_values(|t: UnconfirmedTxs| t@) =~= decode_txs(items@.take(i + 1)));
            },
            None => {
                skipped = skipped + 1;
            },
        }
        i = i + 1;
    }
    assert(items@.take(items@.len() as int) =~= items@);
    (txs, skipped)
}

/// Decodes a response body of the unconfirmed-transactions endpoint into a
/// fresh batch; `Err(InvalidJson)` exactly where the body is not JSON.
pub fn get_server_data(body: &str) -> (r: Result<VectorUnconfirmedTxs, FetchError>)
    ensures
        parsed_json(body@) is None <==> r == Err::<VectorUnconfirmedTxs, FetchError>(
            FetchError::InvalidJson,
        ),
        parsed_json(body@) matches Some(raw) ==> r matches Ok(b) && b.decodes(raw),
{
    let mut data = VectorUnconfirmedTxs::default();
    match data.get_data(body) {
        Ok(()) => Ok(data),
        Err(e) => Err(e),
    }
}

} // verus!
