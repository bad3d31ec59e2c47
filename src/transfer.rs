use vstd::prelude::*;
use crate::encode::{ToJS, ChannelId, PortId, Signer, TimeoutHeight, TimeoutTimestamp};
use crate::value::{Value, Js, ObjectBuilder, tag, text};

verus! {

/// An amount of a denomination, as the decimal digits of the amount and the
/// full (trace-prefixed) denomination.
#[derive(Debug, Clone, PartialEq, Eq)]
pub struct Coin {
    pub amount: String,
    pub denom: String,
}

impl ToJS for Coin {
    /// The amount immediately followed by the denomination, as in `"100uatom"`.
    open spec fn js(&self) -> Js {
        Js::Str(self.amount@ + self.denom@)
    }

    fn to_js(&self) -> (r: Value) {
        let mut s = self.amount.clone();
        s.append(self.denom.as_str());
        Value::Str(s)
    }
}

/// A free-form note attached to a transfer.
#[derive(Debug, Clone, PartialEq, Eq)]
pub struct Memo(pub String);

impl ToJS for Memo {
    open spec fn js(&self) -> Js {
        Js::Str(self.0@)
    }

    fn to_js(&self) -> (r: Value) {
        text(self.0.as_str())
    }
}

/// The payload of a fungible token transfer packet.
#[derive(Debug, Clone, PartialEq, Eq)]
pub struct PacketData {
    pub token: Coin,
    pub sender: Signer,
    pub receiver: Signer,
    pub memo: Memo,
}

impl ToJS for PacketData {
    open spec fn js(&self) -> Js {
        Js::Obj(
            Seq::empty()
                .push(("token"@, self.token.js()))
                .push(("sender"@, self.sender.js()))
                .push(("receiver"@, self.receiver.js()))
                .push(("memo"@, self.memo.js())),
        )
    }

    fn to_js(&self) -> (r: Value) {
        ObjectBuilder::new()
            .with("token", self.token.to_js())
            .with("sender", self.sender.to_js())
            .with("receiver", self.receiver.to_js())
            .with("memo", self.memo.to_js())
            .build()
    }
}

/// The base identifier of an NFT class.
#[derive(Debug, Clone, PartialEq, Eq)]
pub struct ClassId(pub String);

impl ToJS for ClassId {
    open spec fn js(&self) -> Js {
        Js::Str(self.0@)
    }

    fn to_js(&self) -> (r: Value) {
        text(self.0.as_str())
    }
}

/// The URI of an NFT class.
#[derive(Debug, Clone, PartialEq, Eq)]
pub struct ClassUri(pub String);

impl ToJS for ClassUri {
    open spec fn js(&self) -> Js {
        Js::Str(self.0@)
    }

    fn to_js(&self) -> (r: Value) {
        text(self.0.as_str())
    }
}

/// The data of an NFT class.
#[derive(Debug, Clone, PartialEq, Eq)]
pub struct ClassData(pub String);

impl ToJS for ClassData {
    open spec fn js(&self) -> Js {
        Js::Str(self.0@)
    }

    fn to_js(&self) -> (r: Value) {
        text(self.0.as_str())
    }
}

/// The identifier of an NFT.
#[derive(Debug, Clone, PartialEq, Eq)]
pub struct TokenId(pub String);

impl ToJS for TokenId {
    open spec fn js(&self) -> Js {
        Js::Str(self.0@)
    }

    fn to_js(&self) -> (r: Value) {
        text(self.0.as_str())
    }
}

/// The URI of an NFT.
#[derive(Debug, Clone, PartialEq, Eq)]
pub struct TokenUri(pub String);

impl ToJS for TokenUri {
    open spec fn js(&self) -> Js {
        Js::Str(self.0@)
    }

    fn to_js(&self) -> (r: Value) {
        text(self.0.as_str())
    }
}

/// The data of an NFT.
#[derive(Debug, Clone, PartialEq, Eq)]
pub struct TokenData(pub String);

impl ToJS for TokenData {
    open spec fn js(&self) -> Js {
        Js::Str(self.0@)
    }

    fn to_js(&self) -> (r: Value) {
        text(self.0.as_str())
    }
}

/// The path of ports and channels an NFT class has travelled, in its display form.
#[derive(Debug, Clone, PartialEq, Eq)]
pub struct TracePath(pub String);

impl ToJS for TracePath {
    open spec fn js(&self) -> Js {
        Js::Str(self.0@)
    }

    fn to_js(&self) -> (r: Value) {
        text(self.0.as_str())
    }
}

/// The identifiers of the NFTs that a packet moves.
#[derive(Debug, Clone, PartialEq, Eq)]
pub struct TokenIds(pub Vec<TokenId>);

impl ToJS for TokenIds {
    open spec fn js(&self) -> Js {
        self.0.js()
    }

    fn to_js(&self) -> (r: Value) {
        self.0.to_js()
    }
}

/// An NFT class identifier with the trace of its route.
#[derive(Debug, Clone, PartialEq, Eq)]
pub struct PrefixedClassId {
    pub trace_path: TracePath,
    pub base_class_id: ClassId,
}

impl ToJS for PrefixedClassId {
    open spec fn js(&self) -> Js {
        Js::Obj(
            Seq::empty()
                .push(("tracePath"@, self.trace_path.js()))
                .push(("baseClassId"@, self.base_class_id.js())),
        )
    }

    fn to_js(&self) -> (r: Value) {
        ObjectBuilder::new()
            .with("tracePath", self.trace_path.to_js())
            .with("baseClassId", self.base_class_id.to_js())
            .build()
    }
}

/// The payload of an NFT transfer packet.
#[derive(Debug, Clone, PartialEq, Eq)]
pub struct NftPacketData {
    pub class_id: PrefixedClassId,
    pub class_uri: Option<ClassUri>,
    pub class_data: Option<ClassData>,
    pub token_ids: TokenIds,
    pub token_uris: Option<Vec<TokenUri>>,
    pub token_data: Option<Vec<TokenData>>,
    pub sender: Signer,
    pub receiver: Signer,
    pub memo: Option<Memo>,
}

impl ToJS for NftPacketData {
    open spec fn js(&self) -> Js {
        Js::Obj(
            Seq::empty()
                .push(("classId"@, self.class_id.js()))
                .push(("classUri"@, self.class_uri.js()))
                .push(("classData"@, self.class_data.js()))
                .push(("tokenIds"@, self.token_ids.js()))
                .push(("tokenUris"@, self.token_uris.js()))
                .push(("tokenData"@, self.token_data.js()))
                .push(("sender"@, self.sender.js()))
                .push(("receiver"@, self.receiver.js()))
                .push(("memo"@, self.memo.js())),
        )
    }

    fn to_js(&self) -> (r: Value) {
        ObjectBuilder::new()
            .with("classId", self.class_id.to_js())
            .with("classUri", self.class_uri.to_js())
            .with("classData", self.class_data.to_js())
            .with("tokenIds", self.token_ids.to_js())
            .with("tokenUris", self.token_uris.to_js())
            .with("tokenData", self.token_data.to_js())
            .with("sender", self.sender.to_js())
            .with("receiver", self.receiver.to_js())
            .with("memo", self.memo.to_js())
            .build()
    }
}

/// Chain-specific metadata that may accompany a transfer. Its contents are
/// not projected: it appears as an empty object.
#[derive(Debug, Clone, Copy, PartialEq, Eq)]
pub struct TransferMetadata;

impl ToJS for TransferMetadata {
    open spec fn js(&self) -> Js {
        Js::Obj(Seq::empty())
    }

    fn to_js(&self) -> (r: Value) {
        ObjectBuilder::new().build()
    }
}

/// A request to send fungible tokens over a channel.
#[derive(Debug, Clone, PartialEq, Eq)]
pub struct TransferMessage {
    pub port_id_on_a: PortId,
    pub chan_id_on_a: ChannelId,
    pub packet_data: PacketData,
    pub timeout_height_on_b: TimeoutHeight,
    pub timeout_timestamp_on_b: TimeoutTimestamp,
}

impl ToJS for TransferMessage {
    open spec fn js(&self) -> Js {
        Js::Obj(
            Seq::empty()
                .push(("portIdOnA"@, self.port_id_on_a.js()))
                .push(("chanIdOnA"@, self.chan_id_on_a.js()))
                .push(("packetData"@, self.packet_data.js()))
                .push(("timeoutHeightOnB"@, self.timeout_height_on_b.js()))
                .push(("timeoutTimestampOnB"@, self.timeout_timestamp_on_b.js())),
        )
    }

    fn to_js(&self) -> (r: Value) {
        ObjectBuilder::new()
            .with("portIdOnA", self.port_id_on_a.to_js())
            .with("chanIdOnA", self.chan_id_on_a.to_js())
            .with("packetData", self.packet_data.to_js())
            .with("timeoutHeightOnB", self.timeout_height_on_b.to_js())
            .with("timeoutTimestampOnB", self.timeout_timestamp_on_b.to_js())
            .build()
    }
}

/// A request to send NFTs over a channel.
#[derive(Debug, Clone, PartialEq, Eq)]
pub struct NftTransferMessage {
    pub port_id_on_a: PortId,
    pub chan_id_on_a: ChannelId,
    pub packet_data: NftPacketData,
    pub timeout_height_on_b: TimeoutHeight,
    pub timeout_timestamp_on_b: TimeoutTimestamp,
}

impl ToJS for NftTransferMessage {
    open spec fn js(&self) -> Js {
        Js::Obj(
            Seq::empty()
                .push(("portIdOnA"@, self.port_id_on_a.js()))
                .push(("chanIdOnA"@, self.chan_id_on_a.js()))
                .push(("packetData"@, self.packet_data.js()))
                .push(("timeoutHeightOnB"@, self.timeout_height_on_b.js()))
                .push(("timeoutTimestampOnB"@, self.timeout_timestamp_on_b.js())),
        )
    }

    fn to_js(&self) -> (r: Value) {
        ObjectBuilder::new()
            .with("portIdOnA", self.port_id_on_a.to_js())
            .with("chanIdOnA", self.chan_id_on_a.to_js())
            .with("packetData", self.packet_data.to_js())
            .with("timeoutHeightOnB", self.timeout_height_on_b.to_js())
            .with("timeoutTimestampOnB", self.timeout_timestamp_on_b.to_js())
            .build()
    }
}

/// A fungible token transfer with its optional metadata.
#[derive(Debug, Clone, PartialEq, Eq)]
pub struct MsgTransfer {
    pub message: TransferMessage,
    pub transfer: Option<TransferMetadata>,
}

impl ToJS for MsgTransfer {
    open spec fn js(&self) -> Js {
        Js::Obj(
            tag("transfer"@)
                .push(("message"@, self.message.js()))
                .push(("transfer"@, self.transfer.js())),
        )
    }

    fn to_js(&self) -> (r: Value) {
        ObjectBuilder::tagged("transfer")
            .with("message", self.message.to_js())
            .with("transfer", self.transfer.to_js())
            .build()
    }
}

/// An NFT transfer with its optional metadata.
#[derive(Debug, Clone, PartialEq, Eq)]
pub struct MsgNftTransfer {
    pub message: NftTransferMessage,
    pub transfer: Option<TransferMetadata>,
}

impl ToJS for MsgNftTransfer {
    open spec fn js(&self) -> Js {
        Js::Obj(
            tag("nft_transfer"@)
                .push(("message"@, self.message.js()))
                .push(("transfer"@, self.transfer.js())),
        )
    }

    fn to_js(&self) -> (r: Value) {
        ObjectBuilder::tagged("nft_transfer")
            .with("message", self.message.to_js())
            .with("transfer", self.transfer.to_js())
            .build()
    }
}

} // verus!
