use vstd::prelude::*;
use crate::encode::{ToJS, Height};
use crate::value::{Value, Js, ObjectBuilder, bytes, number, num_js, text};

verus! {

/// A block-level hash; empty where the hash is absent.
#[derive(Debug, Clone, PartialEq, Eq)]
pub struct Digest(pub Vec<u8>);

impl ToJS for Digest {
    open spec fn js(&self) -> Js {
        Js::Bytes(self.0@)
    }

    fn to_js(&self) -> (r: Value) {
        bytes(&self.0)
    }
}

/// The application state hash of a block.
#[derive(Debug, Clone, PartialEq, Eq)]
pub struct AppHash(pub Vec<u8>);

impl ToJS for AppHash {
    open spec fn js(&self) -> Js {
        Js::Bytes(self.0@)
    }

    fn to_js(&self) -> (r: Value) {
        bytes(&self.0)
    }
}

/// A validator's account address.
#[derive(Debug, Clone, PartialEq, Eq)]
pub struct AccountId(pub Vec<u8>);

impl ToJS for AccountId {
    open spec fn js(&self) -> Js {
        Js::Bytes(self.0@)
    }

    fn to_js(&self) -> (r: Value) {
        bytes(&self.0)
    }
}

/// A validator's signature.
#[derive(Debug, Clone, PartialEq, Eq)]
pub struct Signature(pub Vec<u8>);

impl ToJS for Signature {
    open spec fn js(&self) -> Js {
        Js::Bytes(self.0@)
    }

    fn to_js(&self) -> (r: Value) {
        bytes(&self.0)
    }
}

/// A chain's identifier.
#[derive(Debug, Clone, PartialEq, Eq)]
pub struct ChainId(pub String);

impl ToJS for ChainId {
    open spec fn js(&self) -> Js {
        Js::Str(self.0@)
    }

    fn to_js(&self) -> (r: Value) {
        text(self.0.as_str())
    }
}

/// A point in time, as its RFC 3339 text.
#[derive(Debug, Clone, PartialEq, Eq)]
pub struct Time(pub String);

impl ToJS for Time {
    open spec fn js(&self) -> Js {
        Js::Str(self.0@)
    }

    fn to_js(&self) -> (r: Value) {
        text(self.0.as_str())
    }
}

/// The height of a block.
#[derive(Debug, Clone, Copy, PartialEq, Eq)]
pub struct BlockHeight(pub u64);

impl ToJS for BlockHeight {
    open spec fn js(&self) -> Js {
        num_js(self.0 as nat)
    }

    fn to_js(&self) -> (r: Value) {
        number(self.0)
    }
}

/// The consensus round in which a block was committed.
#[derive(Debug, Clone, Copy, PartialEq, Eq)]
pub struct Round(pub u32);

impl ToJS for Round {
    open spec fn js(&self) -> Js {
        num_js(self.0 as nat)
    }

    fn to_js(&self) -> (r: Value) {
        number(self.0 as u64)
    }
}

/// The block and application protocol versions of a block.
#[derive(Debug, Clone, Copy, PartialEq, Eq)]
pub struct BlockVersion {
    pub block: u64,
    pub app: u64,
}

impl ToJS for BlockVersion {
    open spec fn js(&self) -> Js {
        Js::Obj(
            Seq::empty()
                .push(("block"@, self.block.js()))
                .push(("app"@, self.app.js())),
        )
    }

    fn to_js(&self) -> (r: Value) {
        ObjectBuilder::new()
            .with("block", self.block.to_js())
            .with("app", self.app.to_js())
            .build()
    }
}

/// The header of the set of parts a block was split into.
#[derive(Debug, Clone, PartialEq, Eq)]
pub struct PartSetHeader {
    pub total: u32,
    pub hash: Digest,
}

impl ToJS for PartSetHeader {
    open spec fn js(&self) -> Js {
        Js::Obj(
            Seq::empty()
                .push(("total"@, self.total.js()))
                .push(("hash"@, self.hash.js())),
        )
    }

    fn to_js(&self) -> (r: Value) {
        ObjectBuilder::new()
            .with("total", self.total.to_js())
            .with("hash", self.hash.to_js())
            .build()
    }
}

/// The identifier of a block.
#[derive(Debug, Clone, PartialEq, Eq)]
pub struct BlockId {
    pub hash: Digest,
    pub part_set_header: PartSetHeader,
}

impl ToJS for BlockId {
    open spec fn js(&self) -> Js {
        Js::Obj(
            Seq::empty()
                .push(("hash"@, self.hash.js()))
                .push(("partSetHeader"@, self.part_set_header.js())),
        )
    }

    fn to_js(&self) -> (r: Value) {
        ObjectBuilder::new()
            .with("hash", self.hash.to_js())
            .with("partSetHeader", self.part_set_header.to_js())
            .build()
    }
}

/// The header of a block.
#[derive(Debug, Clone, PartialEq, Eq)]
pub struct BlockHeader {
    pub version: BlockVersion,
    pub chain_id: ChainId,
    pub height: BlockHeight,
    pub time: Time,
    pub last_block_id: Option<BlockId>,
    pub last_commit_hash: Option<Digest>,
    pub data_hash: Option<Digest>,
    pub validators_hash: Digest,
    pub next_validators_hash: Digest,
    pub consensus_hash: Digest,
    pub app_hash: AppHash,
    pub last_results_hash: Option<Digest>,
    pub evidence_hash: Option<Digest>,
    pub proposer_address: AccountId,
}

impl ToJS for BlockHeader {
    open spec fn js(&self) -> Js {
        Js::Obj(
            Seq::empty()
                .push(("version"@, self.version.js()))
                .push(("chainId"@, self.chain_id.js()))
                .push(("height"@, self.height.js()))
                .push(("time"@, self.time.js()))
                .push(("lastBlockId"@, self.last_block_id.js()))
                .push(("lastCommitHash"@, self.last_commit_hash.js()))
                .push(("dataHash"@, self.data_hash.js()))
                .push(("validatorsHash"@, self.validators_hash.js()))
                .push(("nextValidatorsHash"@, self.next_validators_hash.js()))
                .push(("consensusHash"@, self.consensus_hash.js()))
                .push(("appHash"@, self.app_hash.js()))
                .push(("lastResultsHash"@, self.last_results_hash.js()))
                .push(("evidenceHash"@, self.evidence_hash.js()))
                .push(("proposerAddress"@, self.proposer_address.js())),
        )
    }

    fn to_js(&self) -> (r: Value) {
        ObjectBuilder::new()
            .with("version", self.version.to_js())
            .with("chainId", self.chain_id.to_js())
            .with("height", self.height.to_js())
            .with("time", self.time.to_js())
            .with("lastBlockId", self.last_block_id.to_js())
            .with("lastCommitHash", self.last_commit_hash.to_js())
            .with("dataHash", self.data_hash.to_js())
            .with("validatorsHash", self.validators_hash.to_js())
            .with("nextValidatorsHash", self.next_validators_hash.to_js())
            .with("consensusHash", self.consensus_hash.to_js())
            .with("appHash", self.app_hash.to_js())
            .with("lastResultsHash", self.last_results_hash.to_js())
            .with("evidenceHash", self.evidence_hash.to_js())
            .with("proposerAddress", self.proposer_address.to_js())
            .build()
    }
}

/// One validator's part in a commit.
#[derive(Debug, Clone, PartialEq, Eq)]
pub enum CommitSig {
    BlockIdFlagAbsent,
    BlockIdFlagCommit { validator_address: AccountId, timestamp: Time, signature: Option<Signature> },
    BlockIdFlagNil { validator_address: AccountId, timestamp: Time, signature: Option<Signature> },
}

/// The entries of a commit signature that names its validator.
pub open spec fn vote_js(flag: Seq<char>, validator_address: AccountId, timestamp: Time, signature: Option<Signature>) -> Js {
    Js::Obj(
        Seq::empty()
            .push(("blockIdFlag"@, Js::Str(flag)))
            .push(("validatorAddress"@, validator_address.js()))
            .push(("timestamp"@, timestamp.js()))
            .push(("signature"@, signature.js())),
    )
}

fn vote_to_js(flag: &str, validator_address: &AccountId, timestamp: &Time, signature: &Option<Signature>) -> (r: Value)
    ensures
        r@ == vote_js(flag@, *validator_address, *timestamp, *signature),
{
    ObjectBuilder::new()
        .with("blockIdFlag", text(flag))
        .with("validatorAddress", validator_address.to_js())
        .with("timestamp", timestamp.to_js())
        .with("signature", signature.to_js())
        .build()
}

impl ToJS for CommitSig {
    open spec fn js(&self) -> Js {
        match self {
            CommitSig::BlockIdFlagAbsent => Js::Obj(Seq::empty().push(("blockIdFlag"@, Js::Str("absent"@)))),
            CommitSig::BlockIdFlagCommit { validator_address, timestamp, signature } =>
                vote_js("commit"@, *validator_address, *timestamp, *signature),
            CommitSig::BlockIdFlagNil { validator_address, timestamp, signature } =>
                vote_js("nil"@, *validator_address, *timestamp, *signature),
        }
    }

    fn to_js(&self) -> (r: Value) {
        match self {
            CommitSig::BlockIdFlagAbsent => ObjectBuilder::new().with("blockIdFlag", text("absent")).build(),
            CommitSig::BlockIdFlagCommit { validator_address, timestamp, signature } =>
                vote_to_js("commit", validator_address, timestamp, signature),
            CommitSig::BlockIdFlagNil { validator_address, timestamp, signature } =>
                vote_to_js("nil", validator_address, timestamp, signature),
        }
    }
}

/// The signatures that committed a block.
#[derive(Debug, Clone, PartialEq, Eq)]
pub struct Commit {
    pub height: BlockHeight,
    pub round: Round,
    pub block_id: BlockId,
    pub signatures: Vec<CommitSig>,
}

impl ToJS for Commit {
    open spec fn js(&self) -> Js {
        Js::Obj(
            Seq::empty()
                .push(("height"@, self.height.js()))
                .push(("round"@, self.round.js()))
                .push(("blockId"@, self.block_id.js()))
                .push(("signatures"@, self.signatures.js())),
        )
    }

    fn to_js(&self) -> (r: Value) {
        ObjectBuilder::new()
            .with("height", self.height.to_js())
            .with("round", self.round.to_js())
            .with("blockId", self.block_id.to_js())
            .with("signatures", self.signatures.to_js())
            .build()
    }
}

/// A block header with the commit that signed it.
#[derive(Debug, Clone, PartialEq, Eq)]
pub struct SignedHeader {
    pub header: BlockHeader,
    pub commit: Commit,
}

impl ToJS for SignedHeader {
    open spec fn js(&self) -> Js {
        Js::Obj(
            Seq::empty()
                .push(("header"@, self.header.js()))
                .push(("commit"@, self.commit.js())),
        )
    }

    fn to_js(&self) -> (r: Value) {
        ObjectBuilder::new()
            .with("header", self.header.to_js())
            .with("commit", self.commit.to_js())
            .build()
    }
}

/// A validator set, by the hash that identifies it.
#[derive(Debug, Clone, PartialEq, Eq)]
pub struct ValidatorSet {
    pub hash: Digest,
}

impl ToJS for ValidatorSet {
    open spec fn js(&self) -> Js {
        Js::Obj(
            Seq::empty()
                .push(("hash"@, self.hash.js())),
        )
    }

    fn to_js(&self) -> (r: Value) {
        ObjectBuilder::new()
            .with("hash", self.hash.to_js())
            .build()
    }
}

/// A light-client header: a signed header, the validators that signed it, and
/// the trusted state it is checked against.
#[derive(Debug, Clone, PartialEq, Eq)]
pub struct LightClientHeader {
    pub signed_header: SignedHeader,
    pub validator_set: ValidatorSet,
    pub trusted_height: Height,
    pub trusted_next_validator_set: ValidatorSet,
}

impl ToJS for LightClientHeader {
    open spec fn js(&self) -> Js {
        Js::Obj(
            Seq::empty()
                .push(("signedHeader"@, self.signed_header.js()))
                .push(("validatorSet"@, self.validator_set.js()))
                .push(("trustedHeight"@, self.trusted_height.js()))
                .push(("trustedNextValidatorSet"@, self.trusted_next_validator_set.js())),
        )
    }

    fn to_js(&self) -> (r: Value) {
        ObjectBuilder::new()
            .with("signedHeader", self.signed_header.to_js())
            .with("validatorSet", self.validator_set.to_js())
            .with("trustedHeight", self.trusted_height.to_js())
            .with("trustedNextValidatorSet", self.trusted_next_validator_set.to_js())
            .build()
    }
}

} // verus!
