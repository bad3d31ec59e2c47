use ibc_decode::decode::{Decode, IbcMessage};
use ibc_decode::encode::{
    Acknowledgement, Any, ChannelId, ChannelVersion, ClientId, CommitmentPrefix, CommitmentProofBytes,
    ConnectionId, ConnectionVersion, Counterparty, DelayPeriod, Height, Order, Packet, PortId, Sequence, Signer,
    TimeoutHeight, TimeoutTimestamp, ToJS,
};
use ibc_decode::envelope::{
    ChannelMsg, ClientMsg, ConnectionMsg, MsgAcknowledgement, MsgChannelCloseConfirm, MsgChannelCloseInit,
    MsgChannelOpenAck, MsgChannelOpenConfirm, MsgChannelOpenInit, MsgChannelOpenTry, MsgConnectionOpenAck,
    MsgConnectionOpenConfirm, MsgConnectionOpenInit, MsgConnectionOpenTry, MsgCreateClient, MsgEnvelope,
    MsgRecoverClient, MsgRecvPacket, MsgSubmitMisbehaviour, MsgTimeout, MsgTimeoutOnClose, MsgUpdateClient,
    MsgUpgradeClient, PacketMsg,
};
use ibc_decode::transfer::{
    ClassData, ClassId, ClassUri, Coin, Memo, MsgNftTransfer, MsgTransfer, NftPacketData, NftTransferMessage,
    PacketData, PrefixedClassId, TokenData, TokenId, TokenIds, TokenUri, TracePath, TransferMessage,
    TransferMetadata,
};
use ibc_decode::value::Value;

fn s(x: &str) -> Value {
    Value::Str(x.to_string())
}

fn obj(entries: Vec<(&str, Value)>) -> Value {
    Value::Object(entries.into_iter().map(|(k, v)| (k.to_string(), v)).collect())
}

fn any() -> Any {
    Any { type_url: "/ibc.lightclients.tendermint.v1.ClientState".to_string(), value: vec![1, 2, 3] }
}

fn height() -> Height {
    Height { revision_number: 0, revision_height: 10 }
}

fn version() -> ConnectionVersion {
    ConnectionVersion::new("1".to_string(), vec!["ORDER_UNORDERED".to_string()]).unwrap()
}

fn counterparty() -> Counterparty {
    Counterparty {
        client_id: ClientId("07-tendermint-1".to_string()),
        connection_id: None,
        prefix: CommitmentPrefix(b"ibc".to_vec()),
    }
}

fn keys(v: &Value) -> Vec<String> {
    match v {
        Value::Object(entries) => entries.iter().map(|(k, _)| k.clone()).collect(),
        _ => panic!("not an object: {:?}", v),
    }
}

fn check(m: IbcMessage, kind: &str, fields: &[&str]) {
    let v = Decode::ibc(Ok(m)).unwrap();
    let Value::Object(entries) = &v else { panic!("not an object") };
    assert_eq!(entries[0], ("type".to_string(), s(kind)));
    let mut expected = vec!["type".to_string()];
    expected.extend(fields.iter().map(|f| f.to_string()));
    let got = keys(&v);
    assert_eq!(got, expected);
    let mut unique = got.clone();
    unique.sort();
    unique.dedup();
    assert_eq!(unique.len(), got.len(), "duplicate key in {kind}");
}

#[test]
fn create_client_end_to_end() {
    let m = IbcMessage::Envelope(MsgEnvelope::Client(ClientMsg::CreateClient(MsgCreateClient {
        client_state: Any { type_url: "/cs".to_string(), value: vec![0xca, 0xfe] },
        consensus_state: Any { type_url: "/ss".to_string(), value: vec![0xbe, 0xef] },
        signer: Signer("tnam1qxyz".to_string()),
    })));
    assert_eq!(
        Decode::ibc(Ok(m)),
        Ok(obj(vec![
            ("type", s("envelope.client.create")),
            ("clientState", obj(vec![("typeUrl", s("/cs")), ("value", Value::Bytes(vec![0xca, 0xfe]))])),
            ("consensusState", obj(vec![("typeUrl", s("/ss")), ("value", Value::Bytes(vec![0xbe, 0xef]))])),
            ("signer", s("tnam1qxyz")),
        ]))
    );
}

#[test]
fn decoder_diagnostic_is_passed_through() {
    let e = Decode::ibc(Err("unexpected end of buffer".to_string())).unwrap_err();
    assert_eq!(e.message, "unexpected end of buffer");
}

#[test]
fn empty_diagnostic_still_gives_a_message() {
    let e = Decode::ibc(Err(String::new())).unwrap_err();
    assert!(!e.message.is_empty());
    assert_eq!(e.message, "undecodable message");
}

#[test]
fn projecting_twice_gives_the_same_tree() {
    let m = IbcMessage::Envelope(MsgEnvelope::Packet(PacketMsg::Timeout(MsgTimeout {
        packet: Packet("seq:1, path:channel-0/transfer->channel-1/transfer".to_string()),
        next_seq_recv_on_b: Sequence(4),
        proof_unreceived_on_b: CommitmentProofBytes(vec![5]),
        proof_height_on_b: height(),
        signer: Signer("relayer".to_string()),
    })));
    assert_eq!(m.to_js(), m.to_js());
}

#[test]
fn channel_open_ack_keeps_both_channel_ids() {
    let m = MsgChannelOpenAck {
        port_id_on_a: PortId("transfer".to_string()),
        chan_id_on_a: ChannelId("channel-3".to_string()),
        chan_id_on_b: ChannelId("channel-9".to_string()),
        version_on_b: ChannelVersion("ics20-1".to_string()),
        proof_chan_end_on_b: CommitmentProofBytes(vec![1]),
        proof_height_on_b: height(),
        signer: Signer("relayer".to_string()),
    };
    let v = m.to_js();
    let Value::Object(entries) = &v else { panic!("not an object") };
    assert_eq!(entries[2], ("chanIdOnA".to_string(), s("channel-3")));
    assert_eq!(entries[3], ("chanIdOnB".to_string(), s("channel-9")));
}

#[test]
fn connection_open_init_projects_nested_fields() {
    let m = MsgConnectionOpenInit {
        client_id_on_a: ClientId("07-tendermint-0".to_string()),
        counterparty: counterparty(),
        version: None,
        delay_period: DelayPeriod { nanos: 0 },
        signer: Signer("relayer".to_string()),
    };
    assert_eq!(
        m.to_js(),
        obj(vec![
            ("type", s("envelope.connection.open_init")),
            ("clientIdOnA", s("07-tendermint-0")),
            (
                "counterparty",
                obj(vec![
                    ("clientId", s("07-tendermint-1")),
                    ("connectionId", Value::Null),
                    ("prefix", Value::Bytes(b"ibc".to_vec())),
                ]),
            ),
            ("version", Value::Null),
            ("delayPeriod", s("0ns")),
            ("signer", s("relayer")),
        ])
    );
}

#[test]
fn acknowledgement_packet_bytes() {
    let m = MsgAcknowledgement {
        packet: Packet("p".to_string()),
        acknowledgement: Acknowledgement(b"{\"result\":\"AQ==\"}".to_vec()),
        proof_acked_on_b: CommitmentProofBytes(vec![]),
        proof_height_on_b: Height { revision_number: 3, revision_height: 1024 },
        signer: Signer("r".to_string()),
    };
    assert_eq!(
        m.to_js(),
        obj(vec![
            ("type", s("envelope.packet.ack")),
            ("packet", s("p")),
            ("acknowledgement", Value::Bytes(b"{\"result\":\"AQ==\"}".to_vec())),
            ("proofAckedOnB", Value::Bytes(vec![])),
            ("proofHeightOnB", obj(vec![("revisionNumber", Value::Number(3)), ("revisionHeight", Value::Number(1024))])),
            ("signer", s("r")),
        ])
    );
}

#[test]
fn fungible_transfer_shape() {
    let m = IbcMessage::Transfer(MsgTransfer {
        message: TransferMessage {
            port_id_on_a: PortId("transfer".to_string()),
            chan_id_on_a: ChannelId("channel-0".to_string()),
            packet_data: PacketData {
                token: Coin { amount: "25".to_string(), denom: "nam".to_string() },
                sender: Signer("alice".to_string()),
                receiver: Signer("bob".to_string()),
                memo: Memo(String::new()),
            },
            timeout_height_on_b: TimeoutHeight::Never,
            timeout_timestamp_on_b: TimeoutTimestamp("2030-01-01T00:00:00Z".to_string()),
        },
        transfer: None,
    });
    assert_eq!(
        Decode::ibc(Ok(m)),
        Ok(obj(vec![
            ("type", s("transfer")),
            (
                "message",
                obj(vec![
                    ("portIdOnA", s("transfer")),
                    ("chanIdOnA", s("channel-0")),
                    (
                        "packetData",
                        obj(vec![
                            ("token", s("25nam")),
                            ("sender", s("alice")),
                            ("receiver", s("bob")),
                            ("memo", s("")),
                        ]),
                    ),
                    ("timeoutHeightOnB", s("never")),
                    ("timeoutTimestampOnB", s("2030-01-01T00:00:00Z")),
                ]),
            ),
            ("transfer", Value::Null),
        ]))
    );
}

#[test]
fn nft_transfer_shape() {
    let m = IbcMessage::NftTransfer(MsgNftTransfer {
        message: NftTransferMessage {
            port_id_on_a: PortId("nft-transfer".to_string()),
            chan_id_on_a: ChannelId("channel-5".to_string()),
            packet_data: NftPacketData {
                class_id: PrefixedClassId {
                    trace_path: TracePath("nft-transfer/channel-1".to_string()),
                    base_class_id: ClassId("kitties".to_string()),
                },
                class_uri: Some(ClassUri("https://example.com/kitties".to_string())),
                class_data: None,
                token_ids: TokenIds(vec![TokenId("k1".to_string()), TokenId("k2".to_string())]),
                token_uris: Some(vec![TokenUri("u1".to_string()), TokenUri("u2".to_string())]),
                token_data: Some(vec![TokenData("d1".to_string()), TokenData("d2".to_string())]),
                sender: Signer("alice".to_string()),
                receiver: Signer("bob".to_string()),
                memo: None,
            },
            timeout_height_on_b: TimeoutHeight::At(Height { revision_number: 1, revision_height: 500 }),
            timeout_timestamp_on_b: TimeoutTimestamp("NoTimeout".to_string()),
        },
        transfer: Some(TransferMetadata),
    });
    let v = Decode::ibc(Ok(m)).unwrap();
    assert_eq!(keys(&v), vec!["type", "message", "transfer"]);
    let Value::Object(top) = &v else { panic!("not an object") };
    assert_eq!(top[0].1, s("nft_transfer"));
    assert_eq!(top[2].1, obj(vec![]));
    let Value::Object(message) = &top[1].1 else { panic!("not an object") };
    assert_eq!(message[3].1, obj(vec![("revisionNumber", Value::Number(1)), ("revisionHeight", Value::Number(500))]));
    assert_eq!(
        message[2].1,
        obj(vec![
            (
                "classId",
                obj(vec![("tracePath", s("nft-transfer/channel-1")), ("baseClassId", s("kitties"))]),
            ),
            ("classUri", s("https://example.com/kitties")),
            ("classData", Value::Null),
            ("tokenIds", Value::Array(vec![s("k1"), s("k2")])),
            ("tokenUris", Value::Array(vec![s("u1"), s("u2")])),
            ("tokenData", Value::Array(vec![s("d1"), s("d2")])),
            ("sender", s("alice")),
            ("receiver", s("bob")),
            ("memo", Value::Null),
        ])
    );
}

#[test]
fn nft_class_data_is_its_text() {
    assert_eq!(Some(ClassData("{\"name\":\"k\"}".to_string())).to_js(), s("{\"name\":\"k\"}"));
}

#[test]
fn every_envelope_kind_has_its_type_and_keys() {
    check(
        IbcMessage::Envelope(MsgEnvelope::Client(ClientMsg::CreateClient(MsgCreateClient {
            client_state: any(),
            consensus_state: any(),
            signer: Signer("signer".to_string()),
        }))),
        "envelope.client.create",
        &["clientState", "consensusState", "signer"],
    );
    check(
        IbcMessage::Envelope(MsgEnvelope::Client(ClientMsg::UpdateClient(MsgUpdateClient {
            client_id: ClientId("07-tendermint-0".to_string()),
            client_message: any(),
            signer: Signer("signer".to_string()),
        }))),
        "envelope.client.update",
        &["clientId", "clientMessage", "signer"],
    );
    check(
        IbcMessage::Envelope(MsgEnvelope::Client(ClientMsg::Misbehaviour(MsgSubmitMisbehaviour {
            client_id: ClientId("07-tendermint-0".to_string()),
            misbehaviour: any(),
            signer: Signer("signer".to_string()),
        }))),
        "envelope.client.misbehaviour",
        &["clientId", "misbehaviour", "signer"],
    );
    check(
        IbcMessage::Envelope(MsgEnvelope::Client(ClientMsg::UpgradeClient(MsgUpgradeClient {
            client_id: ClientId("07-tendermint-0".to_string()),
            upgraded_client_state: any(),
            upgraded_consensus_state: any(),
            proof_upgrade_client: CommitmentProofBytes(vec![1, 2]),
            proof_upgrade_consensus_state: CommitmentProofBytes(vec![1, 2]),
            signer: Signer("signer".to_string()),
        }))),
        "envelope.client.upgrade",
        &["clientId", "upgradedClientState", "upgradedConsensusState", "proofUpgradeClient", "proofUpgradeConsensusState", "signer"],
    );
    check(
        IbcMessage::Envelope(MsgEnvelope::Client(ClientMsg::RecoverClient(MsgRecoverClient {
            subject_client_id: ClientId("07-tendermint-0".to_string()),
            substitute_client_id: ClientId("07-tendermint-0".to_string()),
            signer: Signer("signer".to_string()),
        }))),
        "envelope.client.recover",
        &["subjectClientId", "substituteClientId", "signer"],
    );
    check(
        IbcMessage::Envelope(MsgEnvelope::Connection(ConnectionMsg::OpenInit(MsgConnectionOpenInit {
            client_id_on_a: ClientId("07-tendermint-0".to_string()),
            counterparty: counterparty(),
            version: Some(version()),
            delay_period: DelayPeriod { nanos: 0 },
            signer: Signer("signer".to_string()),
        }))),
        "envelope.connection.open_init",
        &["clientIdOnA", "counterparty", "version", "delayPeriod", "signer"],
    );
    check(
        IbcMessage::Envelope(MsgEnvelope::Connection(ConnectionMsg::OpenTry(MsgConnectionOpenTry {
            client_id_on_b: ClientId("07-tendermint-0".to_string()),
            client_state_of_b_on_a: any(),
            counterparty: counterparty(),
            versions_on_a: vec![version()],
            proof_conn_end_on_a: CommitmentProofBytes(vec![1, 2]),
            proof_client_state_of_b_on_a: CommitmentProofBytes(vec![1, 2]),
            proof_consensus_state_of_b_on_a: CommitmentProofBytes(vec![1, 2]),
            proofs_height_on_a: height(),
            consensus_height_of_b_on_a: height(),
            delay_period: DelayPeriod { nanos: 0 },
            signer: Signer("signer".to_string()),
            proof_consensus_state_of_b: None,
            previous_connection_id: "connection-1".to_string(),
        }))),
        "envelope.connection.open_try",
        &["clientIdOnB", "clientstateOfBOnA", "counterparty", "versionsOnA", "proofConnEndOnA", "proofClientStateOfBOnA", "proofConsensusStateOfBOnA", "proofsHeightOnA", "consensusheightOfBOnA", "delayPeriod", "signer", "proofConsensusStateOfB", "previousConnectionId"],
    );
    check(
        IbcMessage::Envelope(MsgEnvelope::Connection(ConnectionMsg::OpenAck(MsgConnectionOpenAck {
            conn_id_on_a: ConnectionId("connection-0".to_string()),
            conn_id_on_b: ConnectionId("connection-0".to_string()),
            client_state_of_a_on_b: any(),
            proof_conn_end_on_b: CommitmentProofBytes(vec![1, 2]),
            proof_client_state_of_a_on_b: CommitmentProofBytes(vec![1, 2]),
            proof_consensus_state_of_a_on_b: CommitmentProofBytes(vec![1, 2]),
            proofs_height_on_b: height(),
            consensus_height_of_a_on_b: height(),
            version: version(),
            signer: Signer("signer".to_string()),
            proof_consensus_state_of_a: None,
        }))),
        "envelope.connection.open_ack",
        &["connIdOnA", "connIdOnB", "clientStateOfAOnB", "proofConnEndOnB", "proofClientStateOfAOnB", "proofConsensusStateOfAOnB", "proofsHeightOnB", "consensusHeightOfAOnB", "version", "signer", "proofConsensusStateOfA"],
    );
    check(
        IbcMessage::Envelope(MsgEnvelope::Connection(ConnectionMsg::OpenConfirm(MsgConnectionOpenConfirm {
            conn_id_on_b: ConnectionId("connection-0".to_string()),
            proof_conn_end_on_a: CommitmentProofBytes(vec![1, 2]),
            proof_height_on_a: height(),
            signer: Signer("signer".to_string()),
        }))),
        "envelope.connection.open_confirm",
        &["connIdOnB", "proofConnEndOnA", "proofHeightOnA", "signer"],
    );
    check(
        IbcMessage::Envelope(MsgEnvelope::Channel(ChannelMsg::OpenInit(MsgChannelOpenInit {
            port_id_on_a: PortId("transfer".to_string()),
            connection_hops_on_a: vec![ConnectionId("connection-0".to_string())],
            port_id_on_b: PortId("transfer".to_string()),
            ordering: Order::Unordered,
            signer: Signer("signer".to_string()),
            version_proposal: ChannelVersion("ics20-1".to_string()),
        }))),
        "envelope.channel.open_init",
        &["portIdOnA", "connectionHopsOnA", "portIdOnB", "ordering", "signer", "versionProposal"],
    );
    check(
        IbcMessage::Envelope(MsgEnvelope::Channel(ChannelMsg::OpenTry(MsgChannelOpenTry {
            port_id_on_b: PortId("transfer".to_string()),
            connection_hops_on_b: vec![ConnectionId("connection-0".to_string())],
            port_id_on_a: PortId("transfer".to_string()),
            chan_id_on_a: ChannelId("channel-0".to_string()),
            version_supported_on_a: ChannelVersion("ics20-1".to_string()),
            proof_chan_end_on_a: CommitmentProofBytes(vec![1, 2]),
            proof_height_on_a: height(),
            ordering: Order::Unordered,
            signer: Signer("signer".to_string()),
            version_proposal: ChannelVersion("ics20-1".to_string()),
        }))),
        "envelope.channel.open_try",
        &["portIdOnB", "connectionHopsOnB", "portIdOnA", "chanIdOnA", "versionSupportedOnA", "proofChanEndOnA", "proofHeightOnA", "ordering", "signer", "versionProposal"],
    );
    check(
        IbcMessage::Envelope(MsgEnvelope::Channel(ChannelMsg::OpenAck(MsgChannelOpenAck {
            port_id_on_a: PortId("transfer".to_string()),
            chan_id_on_a: ChannelId("channel-0".to_string()),
            chan_id_on_b: ChannelId("channel-0".to_string()),
            version_on_b: ChannelVersion("ics20-1".to_string()),
            proof_chan_end_on_b: CommitmentProofBytes(vec![1, 2]),
            proof_height_on_b: height(),
            signer: Signer("signer".to_string()),
        }))),
        "envelope.channel.open_ack",
        &["portIdOnA", "chanIdOnA", "chanIdOnB", "versionOnB", "proofChanEndOnB", "proofHeightOnB", "signer"],
    );
    check(
        IbcMessage::Envelope(MsgEnvelope::Channel(ChannelMsg::OpenConfirm(MsgChannelOpenConfirm {
            port_id_on_b: PortId("transfer".to_string()),
            chan_id_on_b: ChannelId("channel-0".to_string()),
            proof_chan_end_on_a: CommitmentProofBytes(vec![1, 2]),
            proof_height_on_a: height(),
            signer: Signer("signer".to_string()),
        }))),
        "envelope.channel.open_confirm",
        &["portIdOnB", "chanIdOnB", "proofChanEndOnA", "proofHeightOnA", "signer"],
    );
    check(
        IbcMessage::Envelope(MsgEnvelope::Channel(ChannelMsg::CloseInit(MsgChannelCloseInit {
            port_id_on_a: PortId("transfer".to_string()),
            chan_id_on_a: ChannelId("channel-0".to_string()),
            signer: Signer("signer".to_string()),
        }))),
        "envelope.channel.close_init",
        &["portIdOnA", "chanIdOnA", "signer"],
    );
    check(
        IbcMessage::Envelope(MsgEnvelope::Channel(ChannelMsg::CloseConfirm(MsgChannelCloseConfirm {
            port_id_on_b: PortId("transfer".to_string()),
            chan_id_on_b: ChannelId("channel-0".to_string()),
            proof_chan_end_on_a: CommitmentProofBytes(vec![1, 2]),
            proof_height_on_a: height(),
            signer: Signer("signer".to_string()),
        }))),
        "envelope.channel.close_confirm",
        &["portIdOnB", "chanIdOnB", "proofChanEndOnA", "proofHeightOnA", "signer"],
    );
    check(
        IbcMessage::Envelope(MsgEnvelope::Packet(PacketMsg::Recv(MsgRecvPacket {
            packet: Packet("seq:1".to_string()),
            proof_commitment_on_a: CommitmentProofBytes(vec![1, 2]),
            proof_height_on_a: height(),
            signer: Signer("signer".to_string()),
        }))),
        "envelope.packet.recv",
        &["packet", "proofCommitmentOnA", "proofHeightOnA", "signer"],
    );
    check(
        IbcMessage::Envelope(MsgEnvelope::Packet(PacketMsg::Ack(MsgAcknowledgement {
            packet: Packet("seq:1".to_string()),
            acknowledgement: Acknowledgement(vec![1]),
            proof_acked_on_b: CommitmentProofBytes(vec![1, 2]),
            proof_height_on_b: height(),
            signer: Signer("signer".to_string()),
        }))),
        "envelope.packet.ack",
        &["packet", "acknowledgement", "proofAckedOnB", "proofHeightOnB", "signer"],
    );
    check(
        IbcMessage::Envelope(MsgEnvelope::Packet(PacketMsg::Timeout(MsgTimeout {
            packet: Packet("seq:1".to_string()),
            next_seq_recv_on_b: Sequence(2),
            proof_unreceived_on_b: CommitmentProofBytes(vec![1, 2]),
            proof_height_on_b: height(),
            signer: Signer("signer".to_string()),
        }))),
        "envelope.packet.timeout",
        &["packet", "nextSeqRecvOnB", "proofUnreceivedOnB", "proofHeightOnB", "signer"],
    );
    check(
        IbcMessage::Envelope(MsgEnvelope::Packet(PacketMsg::TimeoutOnClose(MsgTimeoutOnClose {
            packet: Packet("seq:1".to_string()),
            next_seq_recv_on_b: Sequence(2),
            proof_unreceived_on_b: CommitmentProofBytes(vec![1, 2]),
            proof_close_on_b: CommitmentProofBytes(vec![1, 2]),
            proof_height_on_b: height(),
            signer: Signer("signer".to_string()),
        }))),
        "envelope.packet.timeout_on_close",
        &["packet", "nextSeqRecvOnB", "proofUnreceivedOnB", "proofCloseOnB", "proofHeightOnB", "signer"],
    );
}

#[test]
fn connection_open_ack_version_is_bytes() {
    let m = MsgConnectionOpenAck {
        conn_id_on_a: ConnectionId("connection-0".to_string()),
        conn_id_on_b: ConnectionId("connection-1".to_string()),
        client_state_of_a_on_b: any(),
        proof_conn_end_on_b: CommitmentProofBytes(vec![1]),
        proof_client_state_of_a_on_b: CommitmentProofBytes(vec![2]),
        proof_consensus_state_of_a_on_b: CommitmentProofBytes(vec![3]),
        proofs_height_on_b: height(),
        consensus_height_of_a_on_b: height(),
        version: version(),
        signer: Signer("relayer".to_string()),
        proof_consensus_state_of_a: None,
    };
    let v = m.to_js();
    let Value::Object(entries) = &v else { panic!("not an object") };
    let mut expected = vec![1u8, 0, 0, 0, b'1', 1, 0, 0, 0, 15, 0, 0, 0];
    expected.extend_from_slice(b"ORDER_UNORDERED");
    assert_eq!(entries[9], ("version".to_string(), Value::Bytes(expected)));
    assert_eq!(entries[11], ("proofConsensusStateOfA".to_string(), Value::Null));
}
