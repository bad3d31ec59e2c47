use vstd::prelude::*;
use crate::consensus::{AccountId, AppHash, Digest, Signature};
use crate::decode::IbcMessage;
use crate::encode::{
    ToJS, Acknowledgement, Any, CommitmentPrefix, CommitmentProofBytes, Counterparty, Height, TimeoutHeight,
};
use crate::envelope::{ChannelMsg, ClientMsg, ConnectionMsg, MsgEnvelope, PacketMsg};
use crate::transfer::NftPacketData;
use crate::value::{Js, Value, keys_of, num_js};

verus! {

/// The dotted identifier of a client message's kind.
pub open spec fn client_type(m: ClientMsg) -> Seq<char> {
    match m {
        ClientMsg::CreateClient(_) => "envelope.client.create"@,
        ClientMsg::UpdateClient(_) => "envelope.client.update"@,
        ClientMsg::Misbehaviour(_) => "envelope.client.misbehaviour"@,
        ClientMsg::UpgradeClient(_) => "envelope.client.upgrade"@,
        ClientMsg::RecoverClient(_) => "envelope.client.recover"@,
    }
}

/// The documented keys of the object a client message is projected to, in order.
pub open spec fn client_keys(m: ClientMsg) -> Seq<Seq<char>> {
    match m {
        ClientMsg::CreateClient(_) => seq![
            "type"@,
            "clientState"@,
            "consensusState"@,
            "signer"@,
        ],
        ClientMsg::UpdateClient(_) => seq![
            "type"@,
            "clientId"@,
            "clientMessage"@,
            "signer"@,
        ],
        ClientMsg::Misbehaviour(_) => seq![
            "type"@,
            "clientId"@,
            "misbehaviour"@,
            "signer"@,
        ],
        ClientMsg::UpgradeClient(_) => seq![
            "type"@,
            "clientId"@,
            "upgradedClientState"@,
            "upgradedConsensusState"@,
            "proofUpgradeClient"@,
            "proofUpgradeConsensusState"@,
            "signer"@,
        ],
        ClientMsg::RecoverClient(_) => seq![
            "type"@,
            "subjectClientId"@,
            "substituteClientId"@,
            "signer"@,
        ],
    }
}

proof fn lemma_client_shape(m: ClientMsg)
    ensures
        m.js() is Obj,
        m.js()->Obj_0.len() > 0,
        m.js()->Obj_0[0] == ("type"@, Js::Str(client_type(m))),
        keys_of(m.js()->Obj_0) == client_keys(m),
{
    assert(keys_of(m.js()->Obj_0) =~= client_keys(m));
}

/// The dotted identifier of a connection message's kind.
pub open spec fn connection_type(m: ConnectionMsg) -> Seq<char> {
    match m {
        ConnectionMsg::OpenInit(_) => "envelope.connection.open_init"@,
        ConnectionMsg::OpenTry(_) => "envelope.connection.open_try"@,
        ConnectionMsg::OpenAck(_) => "envelope.connection.open_ack"@,
        ConnectionMsg::OpenConfirm(_) => "envelope.connection.open_confirm"@,
    }
}

/// The documented keys of the object a connection message is projected to, in order.
pub open spec fn connection_keys(m: ConnectionMsg) -> Seq<Seq<char>> {
    match m {
        ConnectionMsg::OpenInit(_) => seq![
            "type"@,
            "clientIdOnA"@,
            "counterparty"@,
            "version"@,
            "delayPeriod"@,
            "signer"@,
        ],
        ConnectionMsg::OpenTry(_) => seq![
            "type"@,
            "clientIdOnB"@,
            "clientstateOfBOnA"@,
            "counterparty"@,
            "versionsOnA"@,
            "proofConnEndOnA"@,
            "proofClientStateOfBOnA"@,
            "proofConsensusStateOfBOnA"@,
            "proofsHeightOnA"@,
            "consensusheightOfBOnA"@,
            "delayPeriod"@,
            "signer"@,
            "proofConsensusStateOfB"@,
            "previousConnectionId"@,
        ],
        ConnectionMsg::OpenAck(_) => seq![
            "type"@,
            "connIdOnA"@,
            "connIdOnB"@,
            "clientStateOfAOnB"@,
            "proofConnEndOnB"@,
            "proofClientStateOfAOnB"@,
            "proofConsensusStateOfAOnB"@,
            "proofsHeightOnB"@,
            "consensusHeightOfAOnB"@,
            "version"@,
            "signer"@,
            "proofConsensusStateOfA"@,
        ],
        ConnectionMsg::OpenConfirm(_) => seq![
            "type"@,
            "connIdOnB"@,
            "proofConnEndOnA"@,
            "proofHeightOnA"@,
            "signer"@,
        ],
    }
}

proof fn lemma_connection_shape(m: ConnectionMsg)
    ensures
        m.js() is Obj,
        m.js()->Obj_0.len() > 0,
        m.js()->Obj_0[0] == ("type"@, Js::Str(connection_type(m))),
        keys_of(m.js()->Obj_0) == connection_keys(m),
{
    assert(keys_of(m.js()->Obj_0) =~= connection_keys(m));
}

/// The dotted identifier of a channel message's kind.
pub open spec fn channel_type(m: ChannelMsg) -> Seq<char> {
    match m {
        ChannelMsg::OpenInit(_) => "envelope.channel.open_init"@,
        ChannelMsg::OpenTry(_) => "envelope.channel.open_try"@,
        ChannelMsg::OpenAck(_) => "envelope.channel.open_ack"@,
        ChannelMsg::OpenConfirm(_) => "envelope.channel.open_confirm"@,
        ChannelMsg::CloseInit(_) => "envelope.channel.close_init"@,
        ChannelMsg::CloseConfirm(_) => "envelope.channel.close_confirm"@,
    }
}

/// The documented keys of the object a channel message is projected to, in order.
pub open spec fn channel_keys(m: ChannelMsg) -> Seq<Seq<char>> {
    match m {
        ChannelMsg::OpenInit(_) => seq![
            "type"@,
            "portIdOnA"@,
            "connectionHopsOnA"@,
            "portIdOnB"@,
            "ordering"@,
            "signer"@,
            "versionProposal"@,
        ],
        ChannelMsg::OpenTry(_) => seq![
            "type"@,
            "portIdOnB"@,
            "connectionHopsOnB"@,
            "portIdOnA"@,
            "chanIdOnA"@,
            "versionSupportedOnA"@,
            "proofChanEndOnA"@,
            "proofHeightOnA"@,
            "ordering"@,
            "signer"@,
            "versionProposal"@,
        ],
        ChannelMsg::OpenAck(_) => seq![
            "type"@,
            "portIdOnA"@,
            "chanIdOnA"@,
            "chanIdOnB"@,
            "versionOnB"@,
            "proofChanEndOnB"@,
            "proofHeightOnB"@,
            "signer"@,
        ],
        ChannelMsg::OpenConfirm(_) => seq![
            "type"@,
            "portIdOnB"@,
            "chanIdOnB"@,
            "proofChanEndOnA"@,
            "proofHeightOnA"@,
            "signer"@,
        ],
        ChannelMsg::CloseInit(_) => seq![
            "type"@,
            "portIdOnA"@,
            "chanIdOnA"@,
            "signer"@,
        ],
        ChannelMsg::CloseConfirm(_) => seq![
            "type"@,
            "portIdOnB"@,
            "chanIdOnB"@,
            "proofChanEndOnA"@,
            "proofHeightOnA"@,
            "signer"@,
        ],
    }
}

proof fn lemma_channel_shape(m: ChannelMsg)
    ensures
        m.js() is Obj,
        m.js()->Obj_0.len() > 0,
        m.js()->Obj_0[0] == ("type"@, Js::Str(channel_type(m))),
        keys_of(m.js()->Obj_0) == channel_keys(m),
{
    assert(keys_of(m.js()->Obj_0) =~= channel_keys(m));
}

/// The dotted identifier of a packet message's kind.
pub open spec fn packet_type(m: PacketMsg) -> Seq<char> {
    match m {
        PacketMsg::Recv(_) => "envelope.packet.recv"@,
        PacketMsg::Ack(_) => "envelope.packet.ack"@,
        PacketMsg::Timeout(_) => "envelope.packet.timeout"@,
        PacketMsg::TimeoutOnClose(_) => "envelope.packet.timeout_on_close"@,
    }
}

/// The documented keys of the object a packet message is projected to, in order.
pub open spec fn packet_keys(m: PacketMsg) -> Seq<Seq<char>> {
    match m {
        PacketMsg::Recv(_) => seq![
            "type"@,
            "packet"@,
            "proofCommitmentOnA"@,
            "proofHeightOnA"@,
            "signer"@,
        ],
        PacketMsg::Ack(_) => seq![
            "type"@,
            "packet"@,
            "acknowledgement"@,
            "proofAckedOnB"@,
            "proofHeightOnB"@,
            "signer"@,
        ],
        PacketMsg::Timeout(_) => seq![
            "type"@,
            "packet"@,
            "nextSeqRecvOnB"@,
            "proofUnreceivedOnB"@,
            "proofHeightOnB"@,
            "signer"@,
        ],
        PacketMsg::TimeoutOnClose(_) => seq![
            "type"@,
            "packet"@,
            "nextSeqRecvOnB"@,
            "proofUnreceivedOnB"@,
            "proofCloseOnB"@,
            "proofHeightOnB"@,
            "signer"@,
        ],
    }
}

proof fn lemma_packet_shape(m: PacketMsg)
    ensures
        m.js() is Obj,
        m.js()->Obj_0.len() > 0,
        m.js()->Obj_0[0] == ("type"@, Js::Str(packet_type(m))),
        keys_of(m.js()->Obj_0) == packet_keys(m),
{
    assert(keys_of(m.js()->Obj_0) =~= packet_keys(m));
}

/// The dotted identifier of a message's kind.
pub open spec fn message_type(m: IbcMessage) -> Seq<char> {
    match m {
        IbcMessage::Envelope(MsgEnvelope::Client(c)) => client_type(c),
        IbcMessage::Envelope(MsgEnvelope::Connection(c)) => connection_type(c),
        IbcMessage::Envelope(MsgEnvelope::Channel(c)) => channel_type(c),
        IbcMessage::Envelope(MsgEnvelope::Packet(p)) => packet_type(p),
        IbcMessage::Transfer(_) => "transfer"@,
        IbcMessage::NftTransfer(_) => "nft_transfer"@,
    }
}

/// The documented keys of the object a message is projected to, in order.
pub open spec fn message_keys(m: IbcMessage) -> Seq<Seq<char>> {
    match m {
        IbcMessage::Envelope(MsgEnvelope::Client(c)) => client_keys(c),
        IbcMessage::Envelope(MsgEnvelope::Connection(c)) => connection_keys(c),
        IbcMessage::Envelope(MsgEnvelope::Channel(c)) => channel_keys(c),
        IbcMessage::Envelope(MsgEnvelope::Packet(p)) => packet_keys(p),
        IbcMessage::Transfer(_) | IbcMessage::NftTransfer(_) => seq!["type"@, "message"@, "transfer"@],
    }
}

/// Every kind of message, of each category and both transfers, is projected
/// to an object that opens with a `"type"` entry naming the kind, and whose
/// keys are exactly the documented fields of that kind, in order.
pub proof fn lemma_message_shape(m: IbcMessage)
    ensures
        m.js() is Obj,
        m.js()->Obj_0.len() > 0,
        m.js()->Obj_0[0] == ("type"@, Js::Str(message_type(m))),
        keys_of(m.js()->Obj_0) == message_keys(m),
{
    match m {
        IbcMessage::Envelope(MsgEnvelope::Client(c)) => lemma_client_shape(c),
        IbcMessage::Envelope(MsgEnvelope::Connection(c)) => lemma_connection_shape(c),
        IbcMessage::Envelope(MsgEnvelope::Channel(c)) => lemma_channel_shape(c),
        IbcMessage::Envelope(MsgEnvelope::Packet(p)) => lemma_packet_shape(p),
        IbcMessage::Transfer(_) | IbcMessage::NftTransfer(_) => {
            assert(keys_of(m.js()->Obj_0) =~= message_keys(m));
        },
    }
}

/// Projecting the same message twice gives the same tree, key order
/// included.
pub proof fn lemma_deterministic(m: IbcMessage, first: Value, second: Value)
    requires
        first@ == m.js(),
        second@ == m.js(),
    ensures
        first@ == second@,
{
}

/// Every byte-array leaf is projected to exactly its bytes, with no
/// re-encoding.
pub proof fn lemma_bytes_verbatim(b: Vec<u8>, type_url: String)
    ensures
        CommitmentPrefix(b).js() == Js::Bytes(b@),
        CommitmentProofBytes(b).js() == Js::Bytes(b@),
        Acknowledgement(b).js() == Js::Bytes(b@),
        Digest(b).js() == Js::Bytes(b@),
        AppHash(b).js() == Js::Bytes(b@),
        AccountId(b).js() == Js::Bytes(b@),
        Signature(b).js() == Js::Bytes(b@),
        (Any { type_url, value: b }).js()->Obj_0[1] == ("value"@, Js::Bytes(b@)),
{
}

/// An absent optional value is projected to the explicit null, and a present
/// one exactly as the value itself.
pub proof fn lemma_option<T: ToJS>(x: Option<T>)
    ensures
        x is None ==> x.js() == Js::Null,
        x matches Some(v) ==> x.js() == v.js(),
{
}

/// Optional fields keep their keys: a record's keys are the same whether its
/// optional fields are present or not.
pub proof fn lemma_optional_fields_keep_keys(c: Counterparty, d: NftPacketData)
    ensures
        keys_of(c.js()->Obj_0) == seq!["clientId"@, "connectionId"@, "prefix"@],
        keys_of(d.js()->Obj_0) == seq![
            "classId"@,
            "classUri"@,
            "classData"@,
            "tokenIds"@,
            "tokenUris"@,
            "tokenData"@,
            "sender"@,
            "receiver"@,
            "memo"@,
        ],
{
    assert(keys_of(c.js()->Obj_0) =~= seq!["clientId"@, "connectionId"@, "prefix"@]);
    assert(keys_of(d.js()->Obj_0) =~= seq![
        "classId"@,
        "classUri"@,
        "classData"@,
        "tokenIds"@,
        "tokenUris"@,
        "tokenData"@,
        "sender"@,
        "receiver"@,
        "memo"@,
    ]);
}

/// A height is the object of its revision number and revision height.
pub proof fn lemma_height(h: Height)
    ensures
        h.js() == Js::Obj(
            seq![
                ("revisionNumber"@, num_js(h.revision_number as nat)),
                ("revisionHeight"@, num_js(h.revision_height as nat)),
            ],
        ),
{
    assert(h.js()->Obj_0 =~= seq![
        ("revisionNumber"@, num_js(h.revision_number as nat)),
        ("revisionHeight"@, num_js(h.revision_height as nat)),
    ]);
}

/// An unset timeout height is the string `"never"`; a set one is its height
/// object.
pub proof fn lemma_timeout_height(t: TimeoutHeight)
    ensures
        t is Never ==> t.js() == Js::Str("never"@),
        t matches TimeoutHeight::At(h) ==> t.js() == h.js() && t.js() is Obj,
{
}

} // verus!
