use ergo_visual::data::{
    decode_asset_value, decode_output_value, decode_transaction, get_server_data, Asset,
    FetchError, Input, Output, UnconfirmedTxs, VectorUnconfirmedTxs,
};
use ergo_visual::json::{same_text, JsonValue};

fn decoded(body: &str) -> VectorUnconfirmedTxs {
    match get_server_data(body) {
        Ok(batch) => batch,
        Err(e) => panic!("body did not decode: {:?}", e),
    }
}

fn obj(members: Vec<(&str, JsonValue)>) -> JsonValue {
    JsonValue::Object(members.into_iter().map(|(k, v)| (k.to_string(), v)).collect())
}

fn text(s: &str) -> JsonValue {
    JsonValue::Str(s.to_string())
}

#[test]
fn single_transaction_end_to_end() {
    let body = r#"[{"id":"tx1","outputs":[{"boxId":"b1","value":100,"assets":[],"creationHeight":500,"transactionId":"tx1"}],"size":250}]"#;
    let batch = decoded(body);
    assert_eq!(batch.skipped, 0);
    assert_eq!(
        batch.unconfirmed_txs,
        vec![UnconfirmedTxs {
            id: "tx1".to_string(),
            inputs: vec![],
            data_inputs: vec![],
            outputs: vec![Output {
                box_id: "b1".to_string(),
                value: 100,
                assets: vec![],
                creation_height: 500,
                tx_id: "tx1".to_string(),
            }],
            size: 250,
        }]
    );
}

#[test]
fn missing_data_inputs_decode_as_empty() {
    let batch = decoded(r#"[{"id":"a","inputs":[{"boxId":"i1"}],"outputs":[]}]"#);
    assert_eq!(batch.unconfirmed_txs.len(), 1);
    assert!(batch.unconfirmed_txs[0].data_inputs.is_empty());
    assert_eq!(batch.unconfirmed_txs[0].inputs, vec![Input { box_id: "i1".to_string() }]);
}

#[test]
fn missing_creation_height_is_zero() {
    let batch = decoded(r#"[{"id":"a","outputs":[{"boxId":"b","value":7,"assets":[]}]}]"#);
    assert_eq!(batch.unconfirmed_txs[0].outputs[0].creation_height, 0);
    assert_eq!(batch.unconfirmed_txs[0].outputs[0].value, 7);
}

#[test]
fn missing_value_is_zero() {
    let batch = decoded(r#"[{"id":"a","outputs":[{"boxId":"b","assets":[],"creationHeight":3}]}]"#);
    assert_eq!(batch.skipped, 0);
    assert_eq!(batch.unconfirmed_txs[0].outputs[0].value, 0);
    assert_eq!(batch.unconfirmed_txs[0].outputs[0].creation_height, 3);
}

#[test]
fn empty_array_gives_empty_batch() {
    let batch = decoded("[]");
    assert!(batch.unconfirmed_txs.is_empty());
    assert_eq!(batch.skipped, 0);
    let direct = VectorUnconfirmedTxs::decode(JsonValue::Array(vec![]));
    assert!(direct.unconfirmed_txs.is_empty());
    assert_eq!(direct.skipped, 0);
}

#[test]
fn non_array_payload_gives_empty_batch() {
    let batch = decoded(r#"{"error":"busy"}"#);
    assert!(batch.unconfirmed_txs.is_empty());
    assert_eq!(batch.skipped, 0);
}

#[test]
fn invalid_json_is_an_error() {
    assert_eq!(get_server_data("[{\"id\":"), Err(FetchError::InvalidJson));
    assert_eq!(get_server_data(""), Err(FetchError::InvalidJson));
}

#[test]
fn malformed_transactions_are_skipped_in_order() {
    let body = r#"[
        {"id":"first","outputs":[]},
        {"outputs":[]},
        {"id":"no-outputs"},
        {"id":7,"outputs":[]},
        {"id":"bad-output","outputs":[{"boxId":"x","value":1}]},
        3,
        {"id":"last","outputs":[],"size":9}
    ]"#;
    let batch = decoded(body);
    let ids: Vec<&str> = batch.unconfirmed_txs.iter().map(|t| t.id.as_str()).collect();
    assert_eq!(ids, vec!["first", "last"]);
    assert_eq!(batch.skipped, 5);
    assert_eq!(batch.unconfirmed_txs.len() + batch.skipped, 7);
    assert_eq!(batch.unconfirmed_txs[1].size, 9);
}

#[test]
fn inputs_without_box_id_are_passed_over() {
    let body = r#"[{"id":"a","inputs":[{"boxId":"i1"},{"spendingProof":{}},{"boxId":5},{"boxId":"i2"}],
        "dataInputs":[{"boxId":"d1"},{},{"boxId":"d2"}],"outputs":[]}]"#;
    let tx = &decoded(body).unconfirmed_txs[0];
    assert_eq!(
        tx.inputs,
        vec![Input { box_id: "i1".to_string() }, Input { box_id: "i2".to_string() }]
    );
    assert_eq!(tx.data_inputs, vec!["d1".to_string(), "d2".to_string()]);
}

#[test]
fn asset_fields_default_when_missing() {
    let body = r#"[{"id":"a","outputs":[{"boxId":"b","value":1,
        "assets":[{"tokenId":"t1","amount":42},{"amount":5},{"tokenId":"t3"},{"tokenId":"t4","amount":-2}]}]}]"#;
    let assets = &decoded(body).unconfirmed_txs[0].outputs[0].assets;
    assert_eq!(
        assets,
        &vec![
            Asset { token_id: "t1".to_string(), amount: 42 },
            Asset { token_id: String::new(), amount: 5 },
            Asset { token_id: "t3".to_string(), amount: 0 },
            Asset { token_id: "t4".to_string(), amount: 0 },
        ]
    );
}

#[test]
fn numbers_that_are_not_unsigned_integers_read_as_zero() {
    let batch = decoded(
        r#"[{"id":"a","outputs":[{"value":1.5,"assets":[],"creationHeight":-4}],"size":"250"}]"#,
    );
    let tx = &batch.unconfirmed_txs[0];
    assert_eq!(tx.size, 0);
    assert_eq!(tx.outputs[0].value, 0);
    assert_eq!(tx.outputs[0].creation_height, 0);
    assert_eq!(tx.outputs[0].box_id, "");
    assert_eq!(tx.outputs[0].tx_id, "");
}

#[test]
fn large_values_are_kept_whole() {
    let batch = decoded(
        r#"[{"id":"a","outputs":[{"value":18446744073709551615,"assets":[],"creationHeight":1234567}]}]"#,
    );
    assert_eq!(batch.unconfirmed_txs[0].outputs[0].value, u64::MAX);
    assert_eq!(batch.unconfirmed_txs[0].outputs[0].creation_height, 1234567);
}

#[test]
fn decode_transaction_on_built_values() {
    let tx = obj(vec![
        ("id", text("t")),
        ("outputs", JsonValue::Array(vec![obj(vec![
            ("boxId", text("b")),
            ("value", JsonValue::Number(Some(10))),
            ("assets", JsonValue::Array(vec![])),
        ])])),
        ("size", JsonValue::Number(Some(4))),
    ]);
    let decoded = decode_transaction(&tx).unwrap();
    assert_eq!(decoded.id, "t");
    assert_eq!(decoded.size, 4);
    assert_eq!(decoded.outputs[0].value, 10);
    assert_eq!(decode_transaction(&obj(vec![("id", text("t"))])), None);
    assert_eq!(decode_transaction(&JsonValue::Null), None);
}

#[test]
fn decode_output_requires_assets_array() {
    assert_eq!(decode_output_value(&obj(vec![("value", JsonValue::Number(Some(1)))])), None);
    let out = decode_output_value(&obj(vec![("assets", JsonValue::Array(vec![]))])).unwrap();
    assert_eq!(out, Output::default());
}

#[test]
fn decode_asset_reads_both_fields() {
    let a = decode_asset_value(&obj(vec![
        ("tokenId", text("tok")),
        ("amount", JsonValue::Number(Some(3))),
    ]));
    assert_eq!(a, Asset { token_id: "tok".to_string(), amount: 3 });
}

#[test]
fn json_member_reads() {
    let v = obj(vec![("k", text("v")), ("n", JsonValue::Number(Some(2))), ("a", JsonValue::Array(vec![]))]);
    assert_eq!(v.get("k"), Some(&text("v")));
    assert_eq!(v.get("missing"), None);
    assert_eq!(v.str_at("k").map(|s| s.as_str()), Some("v"));
    assert_eq!(v.str_at("n"), None);
    assert_eq!(v.u64_at("n"), Some(2));
    assert_eq!(v.u64_at("k"), None);
    assert_eq!(v.array_at("a").map(|a| a.len()), Some(0));
    assert_eq!(JsonValue::Bool(true).get("k"), None);
    assert!(same_text("boxId", "boxId"));
    assert!(!same_text("boxId", "boxID"));
    assert!(!same_text("box", "boxId"));
}

#[test]
fn get_data_stores_payload_and_keeps_batch_on_bad_body() {
    let mut batch = VectorUnconfirmedTxs::default();
    assert!(batch.unconfirmed_txs.is_empty());
    assert_eq!(batch.node_array, JsonValue::Null);
    assert_eq!(batch.get_data(r#"[{"id":"x","outputs":[]}]"#), Ok(()));
    assert_eq!(batch.unconfirmed_txs.len(), 1);
    assert_eq!(batch.get_data("not json"), Err(FetchError::InvalidJson));
    assert_eq!(batch.unconfirmed_txs.len(), 1);
    assert_eq!(batch.unconfirmed_txs[0].id, "x");
}

#[test]
fn process_api_data_replaces_previous_batch() {
    let mut batch = VectorUnconfirmedTxs::decode(JsonValue::Array(vec![obj(vec![
        ("id", text("one")),
        ("outputs", JsonValue::Array(vec![])),
    ])]));
    assert_eq!(batch.unconfirmed_txs.len(), 1);
    batch.process_api_data();
    assert_eq!(batch.unconfirmed_txs.len(), 1);
    batch.node_array = JsonValue::Array(vec![]);
    batch.process_api_data();
    assert!(batch.unconfirmed_txs.is_empty());
}
