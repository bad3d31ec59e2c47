use ibc_decode::consensus::{
    AccountId, BlockHeight, BlockId, BlockVersion, Commit, CommitSig, Digest, PartSetHeader, Round, Signature,
    Time, ValidatorSet,
};
use ibc_decode::encode::{
    Any, ClientId, CommitmentPrefix, CommitmentProofBytes, ConnectionId, ConnectionVersion, Counterparty,
    DelayPeriod, Height, Order, Sequence, TimeoutHeight, ToJS,
};
use ibc_decode::transfer::{Coin, TokenId, TokenIds};
use ibc_decode::value::{decimal_string, number, Value, MAX_SAFE_INTEGER};

fn s(x: &str) -> Value {
    Value::Str(x.to_string())
}

fn obj(entries: Vec<(&str, Value)>) -> Value {
    Value::Object(entries.into_iter().map(|(k, v)| (k.to_string(), v)).collect())
}

#[test]
fn height_encodes_as_revision_pair() {
    let h = Height { revision_number: 3, revision_height: 1024 };
    assert_eq!(
        h.to_js(),
        obj(vec![("revisionNumber", Value::Number(3)), ("revisionHeight", Value::Number(1024))])
    );
}

#[test]
fn unset_timeout_height_is_never() {
    assert_eq!(TimeoutHeight::Never.to_js(), s("never"));
}

#[test]
fn set_timeout_height_is_its_height() {
    let h = Height { revision_number: 1, revision_height: 77 };
    assert_eq!(TimeoutHeight::At(h).to_js(), h.to_js());
}

#[test]
fn absent_option_is_null() {
    let c: Option<ConnectionId> = None;
    assert_eq!(c.to_js(), Value::Null);
}

#[test]
fn present_option_is_its_value() {
    let c = Some(ConnectionId("connection-4".to_string()));
    assert_eq!(c.to_js(), s("connection-4"));
}

#[test]
fn proof_bytes_are_verbatim() {
    let raw = vec![0u8, 1, 2, 255, 128];
    assert_eq!(CommitmentProofBytes(raw.clone()).to_js(), Value::Bytes(raw.clone()));
    assert_eq!(Digest(raw.clone()).to_js(), Value::Bytes(raw.clone()));
    assert_eq!(Signature(Vec::new()).to_js(), Value::Bytes(Vec::new()));
}

#[test]
fn any_is_type_url_and_bytes() {
    let a = Any { type_url: "/ibc.lightclients.tendermint.v1.Header".to_string(), value: vec![10, 20] };
    assert_eq!(
        a.to_js(),
        obj(vec![("typeUrl", s("/ibc.lightclients.tendermint.v1.Header")), ("value", Value::Bytes(vec![10, 20]))])
    );
}

#[test]
fn counterparty_keeps_absent_connection_id() {
    let c = Counterparty {
        client_id: ClientId("07-tendermint-0".to_string()),
        connection_id: None,
        prefix: CommitmentPrefix(b"ibc".to_vec()),
    };
    assert_eq!(
        c.to_js(),
        obj(vec![
            ("clientId", s("07-tendermint-0")),
            ("connectionId", Value::Null),
            ("prefix", Value::Bytes(b"ibc".to_vec())),
        ])
    );
}

#[test]
fn connection_version_is_its_borsh_bytes() {
    let v = ConnectionVersion::new(
        "1".to_string(),
        vec!["ORDER_ORDERED".to_string(), "ORDER_UNORDERED".to_string()],
    )
    .unwrap();
    let mut expected = vec![1u8, 0, 0, 0, b'1', 2, 0, 0, 0, 13, 0, 0, 0];
    expected.extend_from_slice(b"ORDER_ORDERED");
    expected.extend_from_slice(&[15, 0, 0, 0]);
    expected.extend_from_slice(b"ORDER_UNORDERED");
    assert_eq!(v.to_js(), Value::Bytes(expected));
}

#[test]
fn connection_version_counts_utf8_bytes() {
    let v = ConnectionVersion::new("\u{e9}".to_string(), Vec::new()).unwrap();
    assert_eq!(v.to_borsh(), vec![2, 0, 0, 0, 0xc3, 0xa9, 0, 0, 0, 0]);
    assert_eq!(v.clone().to_js(), Value::Bytes(vec![2, 0, 0, 0, 0xc3, 0xa9, 0, 0, 0, 0]));
}

#[test]
fn order_names() {
    assert_eq!(Order::Unspecified.to_js(), s("ORDER_NONE_UNSPECIFIED"));
    assert_eq!(Order::Unordered.to_js(), s("ORDER_UNORDERED"));
    assert_eq!(Order::Ordered.to_js(), s("ORDER_ORDERED"));
}

#[test]
fn small_numbers_stay_numbers() {
    assert_eq!(Sequence(0).to_js(), Value::Number(0));
    assert_eq!(number(MAX_SAFE_INTEGER), Value::Number(9007199254740991));
}

#[test]
fn large_numbers_become_decimal_strings() {
    assert_eq!(number(MAX_SAFE_INTEGER + 1), s("9007199254740992"));
    assert_eq!(Sequence(u64::MAX).to_js(), s("18446744073709551615"));
}

#[test]
fn decimal_rendering() {
    assert_eq!(decimal_string(0), "0");
    assert_eq!(decimal_string(7), "7");
    assert_eq!(decimal_string(1024), "1024");
    assert_eq!(decimal_string(u64::MAX), u64::MAX.to_string());
}

#[test]
fn delay_period_is_debug_text() {
    assert_eq!(DelayPeriod { nanos: 1_500_000_000 }.to_js(), s("1.5s"));
    assert_eq!(DelayPeriod { nanos: 0 }.to_js(), s("0ns"));
}

#[test]
fn coin_is_amount_then_denom() {
    let c = Coin { amount: "100".to_string(), denom: "transfer/channel-0/uatom".to_string() };
    assert_eq!(c.to_js(), s("100transfer/channel-0/uatom"));
}

#[test]
fn token_ids_are_an_array() {
    let ids = TokenIds(vec![TokenId("a".to_string()), TokenId("b".to_string())]);
    assert_eq!(ids.to_js(), Value::Array(vec![s("a"), s("b")]));
    assert_eq!(TokenIds(Vec::new()).to_js(), Value::Array(Vec::new()));
}

#[test]
fn commit_sig_variants() {
    assert_eq!(CommitSig::BlockIdFlagAbsent.to_js(), obj(vec![("blockIdFlag", s("absent"))]));
    let vote = CommitSig::BlockIdFlagNil {
        validator_address: AccountId(vec![1, 2]),
        timestamp: Time("2024-01-01T00:00:00Z".to_string()),
        signature: None,
    };
    assert_eq!(
        vote.to_js(),
        obj(vec![
            ("blockIdFlag", s("nil")),
            ("validatorAddress", Value::Bytes(vec![1, 2])),
            ("timestamp", s("2024-01-01T00:00:00Z")),
            ("signature", Value::Null),
        ])
    );
    let commit = CommitSig::BlockIdFlagCommit {
        validator_address: AccountId(vec![3]),
        timestamp: Time("2024-01-01T00:00:01Z".to_string()),
        signature: Some(Signature(vec![9, 9])),
    };
    assert_eq!(
        commit.to_js(),
        obj(vec![
            ("blockIdFlag", s("commit")),
            ("validatorAddress", Value::Bytes(vec![3])),
            ("timestamp", s("2024-01-01T00:00:01Z")),
            ("signature", Value::Bytes(vec![9, 9])),
        ])
    );
}

#[test]
fn commit_nests_block_id_and_signatures() {
    let block_id = BlockId {
        hash: Digest(vec![7]),
        part_set_header: PartSetHeader { total: 2, hash: Digest(vec![8]) },
    };
    let c = Commit {
        height: BlockHeight(5),
        round: Round(1),
        block_id,
        signatures: vec![CommitSig::BlockIdFlagAbsent],
    };
    assert_eq!(
        c.to_js(),
        obj(vec![
            ("height", Value::Number(5)),
            ("round", Value::Number(1)),
            (
                "blockId",
                obj(vec![
                    ("hash", Value::Bytes(vec![7])),
                    ("partSetHeader", obj(vec![("total", Value::Number(2)), ("hash", Value::Bytes(vec![8]))])),
                ]),
            ),
            ("signatures", Value::Array(vec![obj(vec![("blockIdFlag", s("absent"))])])),
        ])
    );
}

#[test]
fn block_version_and_validator_set() {
    assert_eq!(
        BlockVersion { block: 11, app: 0 }.to_js(),
        obj(vec![("block", Value::Number(11)), ("app", Value::Number(0))])
    );
    assert_eq!(ValidatorSet { hash: Digest(vec![4, 4]) }.to_js(), obj(vec![("hash", Value::Bytes(vec![4, 4]))]));
}
