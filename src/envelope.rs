use vstd::prelude::*;
use crate::encode::{
    ToJS, Acknowledgement, Any, ChannelId, ChannelVersion, ClientId, CommitmentProofBytes, ConnectionId,
    ConnectionVersion, Counterparty, DelayPeriod, Height, Order, Packet, PortId, Sequence, Signer,
};
use crate::value::{Value, Js, ObjectBuilder, tag};

verus! {

/// Creates a light client.
#[derive(Debug, Clone, PartialEq, Eq)]
pub struct MsgCreateClient {
    pub client_state: Any,
    pub consensus_state: Any,
    pub signer: Signer,
}

impl ToJS for MsgCreateClient {
    open spec fn js(&self) -> Js {
        Js::Obj(
            tag("envelope.client.create"@)
                .push(("clientState"@, self.client_state.js()))
                .push(("consensusState"@, self.consensus_state.js()))
                .push(("signer"@, self.signer.js())),
        )
    }

    fn to_js(&self) -> (r: Value) {
        ObjectBuilder::tagged("envelope.client.create")
            .with("clientState", self.client_state.to_js())
            .with("consensusState", self.consensus_state.to_js())
            .with("signer", self.signer.to_js())
            .build()
    }
}

/// Updates a light client with a new header.
#[derive(Debug, Clone, PartialEq, Eq)]
pub struct MsgUpdateClient {
    pub client_id: ClientId,
    pub client_message: Any,
    pub signer: Signer,
}

impl ToJS for MsgUpdateClient {
    open spec fn js(&self) -> Js {
        Js::Obj(
            tag("envelope.client.update"@)
                .push(("clientId"@, self.client_id.js()))
                .push(("clientMessage"@, self.client_message.js()))
                .push(("signer"@, self.signer.js())),
        )
    }

    fn to_js(&self) -> (r: Value) {
        ObjectBuilder::tagged("envelope.client.update")
            .with("clientId", self.client_id.to_js())
            .with("clientMessage", self.client_message.to_js())
            .with("signer", self.signer.to_js())
            .build()
    }
}

/// Submits evidence that a light client's chain misbehaved.
#[derive(Debug, Clone, PartialEq, Eq)]
pub struct MsgSubmitMisbehaviour {
    pub client_id: ClientId,
    pub misbehaviour: Any,
    pub signer: Signer,
}

impl ToJS for MsgSubmitMisbehaviour {
    open spec fn js(&self) -> Js {
        Js::Obj(
            tag("envelope.client.misbehaviour"@)
                .push(("clientId"@, self.client_id.js()))
                .push(("misbehaviour"@, self.misbehaviour.js()))
                .push(("signer"@, self.signer.js())),
        )
    }

    fn to_js(&self) -> (r: Value) {
        ObjectBuilder::tagged("envelope.client.misbehaviour")
            .with("clientId", self.client_id.to_js())
            .with("misbehaviour", self.misbehaviour.to_js())
            .with("signer", self.signer.to_js())
            .build()
    }
}

/// Upgrades a light client to a new client and consensus state.
#[derive(Debug, Clone, PartialEq, Eq)]
pub struct MsgUpgradeClient {
    pub client_id: ClientId,
    pub upgraded_client_state: Any,
    pub upgraded_consensus_state: Any,
    pub proof_upgrade_client: CommitmentProofBytes,
    pub proof_upgrade_consensus_state: CommitmentProofBytes,
    pub signer: Signer,
}

impl ToJS for MsgUpgradeClient {
    open spec fn js(&self) -> Js {
        Js::Obj(
            tag("envelope.client.upgrade"@)
                .push(("clientId"@, self.client_id.js()))
                .push(("upgradedClientState"@, self.upgraded_client_state.js()))
                .push(("upgradedConsensusState"@, self.upgraded_consensus_state.js()))
                .push(("proofUpgradeClient"@, self.proof_upgrade_client.js()))
                .push(("proofUpgradeConsensusState"@, self.proof_upgrade_consensus_state.js()))
                .push(("signer"@, self.signer.js())),
        )
    }

    fn to_js(&self) -> (r: Value) {
        ObjectBuilder::tagged("envelope.client.upgrade")
            .with("clientId", self.client_id.to_js())
            .with("upgradedClientState", self.upgraded_client_state.to_js())
            .with("upgradedConsensusState", self.upgraded_consensus_state.to_js())
            .with("proofUpgradeClient", self.proof_upgrade_client.to_js())
            .with("proofUpgradeConsensusState", self.proof_upgrade_consensus_state.to_js())
            .with("signer", self.signer.to_js())
            .build()
    }
}

/// Replaces a frozen or expired client's state with a substitute's.
#[derive(Debug, Clone, PartialEq, Eq)]
pub struct MsgRecoverClient {
    pub subject_client_id: ClientId,
    pub substitute_client_id: ClientId,
    pub signer: Signer,
}

impl ToJS for MsgRecoverClient {
    open spec fn js(&self) -> Js {
        Js::Obj(
            tag("envelope.client.recover"@)
                .push(("subjectClientId"@, self.subject_client_id.js()))
                .push(("substituteClientId"@, self.substitute_client_id.js()))
                .push(("signer"@, self.signer.js())),
        )
    }

    fn to_js(&self) -> (r: Value) {
        ObjectBuilder::tagged("envelope.client.recover")
            .with("subjectClientId", self.subject_client_id.to_js())
            .with("substituteClientId", self.substitute_client_id.to_js())
            .with("signer", self.signer.to_js())
            .build()
    }
}

/// A message that manages a light client.
#[derive(Debug, Clone, PartialEq, Eq)]
pub enum ClientMsg {
    CreateClient(MsgCreateClient),
    UpdateClient(MsgUpdateClient),
    Misbehaviour(MsgSubmitMisbehaviour),
    UpgradeClient(MsgUpgradeClient),
    RecoverClient(MsgRecoverClient),
}

impl ToJS for ClientMsg {
    open spec fn js(&self) -> Js {
        match self {
            ClientMsg::CreateClient(m) => m.js(),
            ClientMsg::UpdateClient(m) => m.js(),
            ClientMsg::Misbehaviour(m) => m.js(),
            ClientMsg::UpgradeClient(m) => m.js(),
            ClientMsg::RecoverClient(m) => m.js(),
        }
    }

    fn to_js(&self) -> (r: Value) {
        match self {
            ClientMsg::CreateClient(m) => m.to_js(),
            ClientMsg::UpdateClient(m) => m.to_js(),
            ClientMsg::Misbehaviour(m) => m.to_js(),
            ClientMsg::UpgradeClient(m) => m.to_js(),
            ClientMsg::RecoverClient(m) => m.to_js(),
        }
    }
}

/// Starts a connection handshake.
#[derive(Debug, Clone, PartialEq, Eq)]
pub struct MsgConnectionOpenInit {
    pub client_id_on_a: ClientId,
    pub counterparty: Counterparty,
    pub version: Option<ConnectionVersion>,
    pub delay_period: DelayPeriod,
    pub signer: Signer,
}

impl ToJS for MsgConnectionOpenInit {
    open spec fn js(&self) -> Js {
        Js::Obj(
            tag("envelope.connection.open_init"@)
                .push(("clientIdOnA"@, self.client_id_on_a.js()))
                .push(("counterparty"@, self.counterparty.js()))
                .push(("version"@, self.version.js()))
                .push(("delayPeriod"@, self.delay_period.js()))
                .push(("signer"@, self.signer.js())),
        )
    }

    fn to_js(&self) -> (r: Value) {
        ObjectBuilder::tagged("envelope.connection.open_init")
            .with("clientIdOnA", self.client_id_on_a.to_js())
            .with("counterparty", self.counterparty.to_js())
            .with("version", self.version.to_js())
            .with("delayPeriod", self.delay_period.to_js())
            .with("signer", self.signer.to_js())
            .build()
    }
}

/// Answers a connection handshake.
#[derive(Debug, Clone, PartialEq, Eq)]
pub struct MsgConnectionOpenTry {
    pub client_id_on_b: ClientId,
    pub client_state_of_b_on_a: Any,
    pub counterparty: Counterparty,
    pub versions_on_a: Vec<ConnectionVersion>,
    pub proof_conn_end_on_a: CommitmentProofBytes,
    pub proof_client_state_of_b_on_a: CommitmentProofBytes,
    pub proof_consensus_state_of_b_on_a: CommitmentProofBytes,
    pub proofs_height_on_a: Height,
    pub consensus_height_of_b_on_a: Height,
    pub delay_period: DelayPeriod,
    pub signer: Signer,
    pub proof_consensus_state_of_b: Option<CommitmentProofBytes>,
    pub previous_connection_id: String,
}

impl ToJS for MsgConnectionOpenTry {
    open spec fn js(&self) -> Js {
        Js::Obj(
            tag("envelope.connection.open_try"@)
                .push(("clientIdOnB"@, self.client_id_on_b.js()))
                .push(("clientstateOfBOnA"@, self.client_state_of_b_on_a.js()))
                .push(("counterparty"@, self.counterparty.js()))
                .push(("versionsOnA"@, self.versions_on_a.js()))
                .push(("proofConnEndOnA"@, self.proof_conn_end_on_a.js()))
                .push(("proofClientStateOfBOnA"@, self.proof_client_state_of_b_on_a.js()))
                .push(("proofConsensusStateOfBOnA"@, self.proof_consensus_state_of_b_on_a.js()))
                .push(("proofsHeightOnA"@, self.proofs_height_on_a.js()))
                .push(("consensusheightOfBOnA"@, self.consensus_height_of_b_on_a.js()))
                .push(("delayPeriod"@, self.delay_period.js()))
                .push(("signer"@, self.signer.js()))
                .push(("proofConsensusStateOfB"@, self.proof_consensus_state_of_b.js()))
                .push(("previousConnectionId"@, self.previous_connection_id.js())),
        )
    }

    fn to_js(&self) -> (r: Value) {
        ObjectBuilder::tagged("envelope.connection.open_try")
            .with("clientIdOnB", self.client_id_on_b.to_js())
            .with("clientstateOfBOnA", self.client_state_of_b_on_a.to_js())
            .with("counterparty", self.counterparty.to_js())
            .with("versionsOnA", self.versions_on_a.to_js())
            .with("proofConnEndOnA", self.proof_conn_end_on_a.to_js())
            .with("proofClientStateOfBOnA", self.proof_client_state_of_b_on_a.to_js())
            .with("proofConsensusStateOfBOnA", self.proof_consensus_state_of_b_on_a.to_js())
            .with("proofsHeightOnA", self.proofs_height_on_a.to_js())
            .with("consensusheightOfBOnA", self.consensus_height_of_b_on_a.to_js())
            .with("delayPeriod", self.delay_period.to_js())
            .with("signer", self.signer.to_js())
            .with("proofConsensusStateOfB", self.proof_consensus_state_of_b.to_js())
            .with("previousConnectionId", self.previous_connection_id.to_js())
            .build()
    }
}

/// Acknowledges a connection handshake.
#[derive(Debug, Clone, PartialEq, Eq)]
pub struct MsgConnectionOpenAck {
    pub conn_id_on_a: ConnectionId,
    pub conn_id_on_b: ConnectionId,
    pub client_state_of_a_on_b: Any,
    pub proof_conn_end_on_b: CommitmentProofBytes,
    pub proof_client_state_of_a_on_b: CommitmentProofBytes,
    pub proof_consensus_state_of_a_on_b: CommitmentProofBytes,
    pub proofs_height_on_b: Height,
    pub consensus_height_of_a_on_b: Height,
    pub version: ConnectionVersion,
    pub signer: Signer,
    pub proof_consensus_state_of_a: Option<CommitmentProofBytes>,
}

impl ToJS for MsgConnectionOpenAck {
    open spec fn js(&self) -> Js {
        Js::Obj(
            tag("envelope.connection.open_ack"@)
                .push(("connIdOnA"@, self.conn_id_on_a.js()))
                .push(("connIdOnB"@, self.conn_id_on_b.js()))
                .push(("clientStateOfAOnB"@, self.client_state_of_a_on_b.js()))
                .push(("proofConnEndOnB"@, self.proof_conn_end_on_b.js()))
                .push(("proofClientStateOfAOnB"@, self.proof_client_state_of_a_on_b.js()))
                .push(("proofConsensusStateOfAOnB"@, self.proof_consensus_state_of_a_on_b.js()))
                .push(("proofsHeightOnB"@, self.proofs_height_on_b.js()))
                .push(("consensusHeightOfAOnB"@, self.consensus_height_of_a_on_b.js()))
                .push(("version"@, self.version.js()))
                .push(("signer"@, self.signer.js()))
                .push(("proofConsensusStateOfA"@, self.proof_consensus_state_of_a.js())),
        )
    }

    fn to_js(&self) -> (r: Value) {
        ObjectBuilder::tagged("envelope.connection.open_ack")
            .with("connIdOnA", self.conn_id_on_a.to_js())
            .with("connIdOnB", self.conn_id_on_b.to_js())
            .with("clientStateOfAOnB", self.client_state_of_a_on_b.to_js())
            .with("proofConnEndOnB", self.proof_conn_end_on_b.to_js())
            .with("proofClientStateOfAOnB", self.proof_client_state_of_a_on_b.to_js())
            .with("proofConsensusStateOfAOnB", self.proof_consensus_state_of_a_on_b.to_js())
            .with("proofsHeightOnB", self.proofs_height_on_b.to_js())
            .with("consensusHeightOfAOnB", self.consensus_height_of_a_on_b.to_js())
            .with("version", self.version.to_js())
            .with("signer", self.signer.to_js())
            .with("proofConsensusStateOfA", self.proof_consensus_state_of_a.to_js())
            .build()
    }
}

/// Confirms a connection handshake.
#[derive(Debug, Clone, PartialEq, Eq)]
pub struct MsgConnectionOpenConfirm {
    pub conn_id_on_b: ConnectionId,
    pub proof_conn_end_on_a: CommitmentProofBytes,
    pub proof_height_on_a: Height,
    pub signer: Signer,
}

impl ToJS for MsgConnectionOpenConfirm {
    open spec fn js(&self) -> Js {
        Js::Obj(
            tag("envelope.connection.open_confirm"@)
                .push(("connIdOnB"@, self.conn_id_on_b.js()))
                .push(("proofConnEndOnA"@, self.proof_conn_end_on_a.js()))
                .push(("proofHeightOnA"@, self.proof_height_on_a.js()))
                .push(("signer"@, self.signer.js())),
        )
    }

    fn to_js(&self) -> (r: Value) {
        ObjectBuilder::tagged("envelope.connection.open_confirm")
            .with("connIdOnB", self.conn_id_on_b.to_js())
            .with("proofConnEndOnA", self.proof_conn_end_on_a.to_js())
            .with("proofHeightOnA", self.proof_height_on_a.to_js())
            .with("signer", self.signer.to_js())
            .build()
    }
}

/// A step of the connection handshake.
#[derive(Debug, Clone, PartialEq, Eq)]
pub enum ConnectionMsg {
    OpenInit(MsgConnectionOpenInit),
    OpenTry(MsgConnectionOpenTry),
    OpenAck(MsgConnectionOpenAck),
    OpenConfirm(MsgConnectionOpenConfirm),
}

impl ToJS for ConnectionMsg {
    open spec fn js(&self) -> Js {
        match self {
            ConnectionMsg::OpenInit(m) => m.js(),
            ConnectionMsg::OpenTry(m) => m.js(),
            ConnectionMsg::OpenAck(m) => m.js(),
            ConnectionMsg::OpenConfirm(m) => m.js(),
        }
    }

    fn to_js(&self) -> (r: Value) {
        match self {
            ConnectionMsg::OpenInit(m) => m.to_js(),
            ConnectionMsg::OpenTry(m) => m.to_js(),
            ConnectionMsg::OpenAck(m) => m.to_js(),
            ConnectionMsg::OpenConfirm(m) => m.to_js(),
        }
    }
}

/// Starts a channel handshake.
#[derive(Debug, Clone, PartialEq, Eq)]
pub struct MsgChannelOpenInit {
    pub port_id_on_a: PortId,
    pub connection_hops_on_a: Vec<ConnectionId>,
    pub port_id_on_b: PortId,
    pub ordering: Order,
    pub signer: Signer,
    pub version_proposal: ChannelVersion,
}

impl ToJS for MsgChannelOpenInit {
    open spec fn js(&self) -> Js {
        Js::Obj(
            tag("envelope.channel.open_init"@)
                .push(("portIdOnA"@, self.port_id_on_a.js()))
                .push(("connectionHopsOnA"@, self.connection_hops_on_a.js()))
                .push(("portIdOnB"@, self.port_id_on_b.js()))
                .push(("ordering"@, self.ordering.js()))
                .push(("signer"@, self.signer.js()))
                .push(("versionProposal"@, self.version_proposal.js())),
        )
    }

    fn to_js(&self) -> (r: Value) {
        ObjectBuilder::tagged("envelope.channel.open_init")
            .with("portIdOnA", self.port_id_on_a.to_js())
            .with("connectionHopsOnA", self.connection_hops_on_a.to_js())
            .with("portIdOnB", self.port_id_on_b.to_js())
            .with("ordering", self.ordering.to_js())
            .with("signer", self.signer.to_js())
            .with("versionProposal", self.version_proposal.to_js())
            .build()
    }
}

/// Answers a channel handshake.
#[derive(Debug, Clone, PartialEq, Eq)]
pub struct MsgChannelOpenTry {
    pub port_id_on_b: PortId,
    pub connection_hops_on_b: Vec<ConnectionId>,
    pub port_id_on_a: PortId,
    pub chan_id_on_a: ChannelId,
    pub version_supported_on_a: ChannelVersion,
    pub proof_chan_end_on_a: CommitmentProofBytes,
    pub proof_height_on_a: Height,
    pub ordering: Order,
    pub signer: Signer,
    pub version_proposal: ChannelVersion,
}

impl ToJS for MsgChannelOpenTry {
    open spec fn js(&self) -> Js {
        Js::Obj(
            tag("envelope.channel.open_try"@)
                .push(("portIdOnB"@, self.port_id_on_b.js()))
                .push(("connectionHopsOnB"@, self.connection_hops_on_b.js()))
                .push(("portIdOnA"@, self.port_id_on_a.js()))
                .push(("chanIdOnA"@, self.chan_id_on_a.js()))
                .push(("versionSupportedOnA"@, self.version_supported_on_a.js()))
                .push(("proofChanEndOnA"@, self.proof_chan_end_on_a.js()))
                .push(("proofHeightOnA"@, self.proof_height_on_a.js()))
                .push(("ordering"@, self.ordering.js()))
                .push(("signer"@, self.signer.js()))
                .push(("versionProposal"@, self.version_proposal.js())),
        )
    }

    fn to_js(&self) -> (r: Value) {
        ObjectBuilder::tagged("envelope.channel.open_try")
            .with("portIdOnB", self.port_id_on_b.to_js())
            .with("connectionHopsOnB", self.connection_hops_on_b.to_js())
            .with("portIdOnA", self.port_id_on_a.to_js())
            .with("chanIdOnA", self.chan_id_on_a.to_js())
            .with("versionSupportedOnA", self.version_supported_on_a.to_js())
            .with("proofChanEndOnA", self.proof_chan_end_on_a.to_js())
            .with("proofHeightOnA", self.proof_height_on_a.to_js())
            .with("ordering", self.ordering.to_js())
            .with("signer", self.signer.to_js())
            .with("versionProposal", self.version_proposal.to_js())
            .build()
    }
}

/// Acknowledges a channel handshake.
#[derive(Debug, Clone, PartialEq, Eq)]
pub struct MsgChannelOpenAck {
    pub port_id_on_a: PortId,
    pub chan_id_on_a: ChannelId,
    pub chan_id_on_b: ChannelId,
    pub version_on_b: ChannelVersion,
    pub proof_chan_end_on_b: CommitmentProofBytes,
    pub proof_height_on_b: Height,
    pub signer: Signer,
}

impl ToJS for MsgChannelOpenAck {
    open spec fn js(&self) -> Js {
        Js::Obj(
            tag("envelope.channel.open_ack"@)
                .push(("portIdOnA"@, self.port_id_on_a.js()))
                .push(("chanIdOnA"@, self.chan_id_on_a.js()))
                .push(("chanIdOnB"@, self.chan_id_on_b.js()))
                .push(("versionOnB"@, self.version_on_b.js()))
                .push(("proofChanEndOnB"@, self.proof_chan_end_on_b.js()))
                .push(("proofHeightOnB"@, self.proof_height_on_b.js()))
                .push(("signer"@, self.signer.js())),
        )
    }

    fn to_js(&self) -> (r: Value) {
        ObjectBuilder::tagged("envelope.channel.open_ack")
            .with("portIdOnA", self.port_id_on_a.to_js())
            .with("chanIdOnA", self.chan_id_on_a.to_js())
            .with("chanIdOnB", self.chan_id_on_b.to_js())
            .with("versionOnB", self.version_on_b.to_js())
            .with("proofChanEndOnB", self.proof_chan_end_on_b.to_js())
            .with("proofHeightOnB", self.proof_height_on_b.to_js())
            .with("signer", self.signer.to_js())
            .build()
    }
}

/// Confirms a channel handshake.
#[derive(Debug, Clone, PartialEq, Eq)]
pub struct MsgChannelOpenConfirm {
    pub port_id_on_b: PortId,
    pub chan_id_on_b: ChannelId,
    pub proof_chan_end_on_a: CommitmentProofBytes,
    pub proof_height_on_a: Height,
    pub signer: Signer,
}

impl ToJS for MsgChannelOpenConfirm {
    open spec fn js(&self) -> Js {
        Js::Obj(
            tag("envelope.channel.open_confirm"@)
                .push(("portIdOnB"@, self.port_id_on_b.js()))
                .push(("chanIdOnB"@, self.chan_id_on_b.js()))
                .push(("proofChanEndOnA"@, self.proof_chan_end_on_a.js()))
                .push(("proofHeightOnA"@, self.proof_height_on_a.js()))
                .push(("signer"@, self.signer.js())),
        )
    }

    fn to_js(&self) -> (r: Value) {
        ObjectBuilder::tagged("envelope.channel.open_confirm")
            .with("portIdOnB", self.port_id_on_b.to_js())
            .with("chanIdOnB", self.chan_id_on_b.to_js())
            .with("proofChanEndOnA", self.proof_chan_end_on_a.to_js())
            .with("proofHeightOnA", self.proof_height_on_a.to_js())
            .with("signer", self.signer.to_js())
            .build()
    }
}

/// Starts closing a channel.
#[derive(Debug, Clone, PartialEq, Eq)]
pub struct MsgChannelCloseInit {
    pub port_id_on_a: PortId,
    pub chan_id_on_a: ChannelId,
    pub signer: Signer,
}

impl ToJS for MsgChannelCloseInit {
    open spec fn js(&self) -> Js {
        Js::Obj(
            tag("envelope.channel.close_init"@)
                .push(("portIdOnA"@, self.port_id_on_a.js()))
                .push(("chanIdOnA"@, self.chan_id_on_a.js()))
                .push(("signer"@, self.signer.js())),
        )
    }

    fn to_js(&self) -> (r: Value) {
        ObjectBuilder::tagged("envelope.channel.close_init")
            .with("portIdOnA", self.port_id_on_a.to_js())
            .with("chanIdOnA", self.chan_id_on_a.to_js())
            .with("signer", self.signer.to_js())
            .build()
    }
}

/// Confirms that the other end closed a channel.
#[derive(Debug, Clone, PartialEq, Eq)]
pub struct MsgChannelCloseConfirm {
    pub port_id_on_b: PortId,
    pub chan_id_on_b: ChannelId,
    pub proof_chan_end_on_a: CommitmentProofBytes,
    pub proof_height_on_a: Height,
    pub signer: Signer,
}

impl ToJS for MsgChannelCloseConfirm {
    open spec fn js(&self) -> Js {
        Js::Obj(
            tag("envelope.channel.close_confirm"@)
                .push(("portIdOnB"@, self.port_id_on_b.js()))
                .push(("chanIdOnB"@, self.chan_id_on_b.js()))
                .push(("proofChanEndOnA"@, self.proof_chan_end_on_a.js()))
                .push(("proofHeightOnA"@, self.proof_height_on_a.js()))
                .push(("signer"@, self.signer.js())),
        )
    }

    fn to_js(&self) -> (r: Value) {
        ObjectBuilder::tagged("envelope.channel.close_confirm")
            .with("portIdOnB", self.port_id_on_b.to_js())
            .with("chanIdOnB", self.chan_id_on_b.to_js())
            .with("proofChanEndOnA", self.proof_chan_end_on_a.to_js())
            .with("proofHeightOnA", self.proof_height_on_a.to_js())
            .with("signer", self.signer.to_js())
            .build()
    }
}

/// A step of a channel's handshake or closing.
#[derive(Debug, Clone, PartialEq, Eq)]
pub enum ChannelMsg {
    OpenInit(MsgChannelOpenInit),
    OpenTry(MsgChannelOpenTry),
    OpenAck(MsgChannelOpenAck),
    OpenConfirm(MsgChannelOpenConfirm),
    CloseInit(MsgChannelCloseInit),
    CloseConfirm(MsgChannelCloseConfirm),
}

impl ToJS for ChannelMsg {
    open spec fn js(&self) -> Js {
        match self {
            ChannelMsg::OpenInit(m) => m.js(),
            ChannelMsg::OpenTry(m) => m.js(),
            ChannelMsg::OpenAck(m) => m.js(),
            ChannelMsg::OpenConfirm(m) => m.js(),
            ChannelMsg::CloseInit(m) => m.js(),
            ChannelMsg::CloseConfirm(m) => m.js(),
        }
    }

    fn to_js(&self) -> (r: Value) {
        match self {
            ChannelMsg::OpenInit(m) => m.to_js(),
            ChannelMsg::OpenTry(m) => m.to_js(),
            ChannelMsg::OpenAck(m) => m.to_js(),
            ChannelMsg::OpenConfirm(m) => m.to_js(),
            ChannelMsg::CloseInit(m) => m.to_js(),
            ChannelMsg::CloseConfirm(m) => m.to_js(),
        }
    }
}

/// Delivers a packet.
#[derive(Debug, Clone, PartialEq, Eq)]
pub struct MsgRecvPacket {
    pub packet: Packet,
    pub proof_commitment_on_a: CommitmentProofBytes,
    pub proof_height_on_a: Height,
    pub signer: Signer,
}

impl ToJS for MsgRecvPacket {
    open spec fn js(&self) -> Js {
        Js::Obj(
            tag("envelope.packet.recv"@)
                .push(("packet"@, self.packet.js()))
                .push(("proofCommitmentOnA"@, self.proof_commitment_on_a.js()))
                .push(("proofHeightOnA"@, self.proof_height_on_a.js()))
                .push(("signer"@, self.signer.js())),
        )
    }

    fn to_js(&self) -> (r: Value) {
        ObjectBuilder::tagged("envelope.packet.recv")
            .with("packet", self.packet.to_js())
            .with("proofCommitmentOnA", self.proof_commitment_on_a.to_js())
            .with("proofHeightOnA", self.proof_height_on_a.to_js())
            .with("signer", self.signer.to_js())
            .build()
    }
}

/// Acknowledges a delivered packet.
#[derive(Debug, Clone, PartialEq, Eq)]
pub struct MsgAcknowledgement {
    pub packet: Packet,
    pub acknowledgement: Acknowledgement,
    pub proof_acked_on_b: CommitmentProofBytes,
    pub proof_height_on_b: Height,
    pub signer: Signer,
}

impl ToJS for MsgAcknowledgement {
    open spec fn js(&self) -> Js {
        Js::Obj(
            tag("envelope.packet.ack"@)
                .push(("packet"@, self.packet.js()))
                .push(("acknowledgement"@, self.acknowledgement.js()))
                .push(("proofAckedOnB"@, self.proof_acked_on_b.js()))
                .push(("proofHeightOnB"@, self.proof_height_on_b.js()))
                .push(("signer"@, self.signer.js())),
        )
    }

    fn to_js(&self) -> (r: Value) {
        ObjectBuilder::tagged("envelope.packet.ack")
            .with("packet", self.packet.to_js())
            .with("acknowledgement", self.acknowledgement.to_js())
            .with("proofAckedOnB", self.proof_acked_on_b.to_js())
            .with("proofHeightOnB", self.proof_height_on_b.to_js())
            .with("signer", self.signer.to_js())
            .build()
    }
}

/// Times out a packet that was never received.
#[derive(Debug, Clone, PartialEq, Eq)]
pub struct MsgTimeout {
    pub packet: Packet,
    pub next_seq_recv_on_b: Sequence,
    pub proof_unreceived_on_b: CommitmentProofBytes,
    pub proof_height_on_b: Height,
    pub signer: Signer,
}

impl ToJS for MsgTimeout {
    open spec fn js(&self) -> Js {
        Js::Obj(
            tag("envelope.packet.timeout"@)
                .push(("packet"@, self.packet.js()))
                .push(("nextSeqRecvOnB"@, self.next_seq_recv_on_b.js()))
                .push(("proofUnreceivedOnB"@, self.proof_unreceived_on_b.js()))
                .push(("proofHeightOnB"@, self.proof_height_on_b.js()))
                .push(("signer"@, self.signer.js())),
        )
    }

    fn to_js(&self) -> (r: Value) {
        ObjectBuilder::tagged("envelope.packet.timeout")
            .with("packet", self.packet.to_js())
            .with("nextSeqRecvOnB", self.next_seq_recv_on_b.to_js())
            .with("proofUnreceivedOnB", self.proof_unreceived_on_b.to_js())
            .with("proofHeightOnB", self.proof_height_on_b.to_js())
            .with("signer", self.signer.to_js())
            .build()
    }
}

/// Times out a packet whose channel closed.
#[derive(Debug, Clone, PartialEq, Eq)]
pub struct MsgTimeoutOnClose {
    pub packet: Packet,
    pub next_seq_recv_on_b: Sequence,
    pub proof_unreceived_on_b: CommitmentProofBytes,
    pub proof_close_on_b: CommitmentProofBytes,
    pub proof_height_on_b: Height,
    pub signer: Signer,
}

impl ToJS for MsgTimeoutOnClose {
    open spec fn js(&self) -> Js {
        Js::Obj(
            tag("envelope.packet.timeout_on_close"@)
                .push(("packet"@, self.packet.js()))
                .push(("nextSeqRecvOnB"@, self.next_seq_recv_on_b.js()))
                .push(("proofUnreceivedOnB"@, self.proof_unreceived_on_b.js()))
                .push(("proofCloseOnB"@, self.proof_close_on_b.js()))
                .push(("proofHeightOnB"@, self.proof_height_on_b.js()))
                .push(("signer"@, self.signer.js())),
        )
    }

    fn to_js(&self) -> (r: Value) {
        ObjectBuilder::tagged("envelope.packet.timeout_on_close")
            .with("packet", self.packet.to_js())
            .with("nextSeqRecvOnB", self.next_seq_recv_on_b.to_js())
            .with("proofUnreceivedOnB", self.proof_unreceived_on_b.to_js())
            .with("proofCloseOnB", self.proof_close_on_b.to_js())
            .with("proofHeightOnB", self.proof_height_on_b.to_js())
            .with("signer", self.signer.to_js())
            .build()
    }
}

/// A step of a packet's lifecycle.
#[derive(Debug, Clone, PartialEq, Eq)]
pub enum PacketMsg {
    Recv(MsgRecvPacket),
    Ack(MsgAcknowledgement),
    Timeout(MsgTimeout),
    TimeoutOnClose(MsgTimeoutOnClose),
}

impl ToJS for PacketMsg {
    open spec fn js(&self) -> Js {
        match self {
            PacketMsg::Recv(m) => m.js(),
            PacketMsg::Ack(m) => m.js(),
            PacketMsg::Timeout(m) => m.js(),
            PacketMsg::TimeoutOnClose(m) => m.js(),
        }
    }

    fn to_js(&self) -> (r: Value) {
        match self {
            PacketMsg::Recv(m) => m.to_js(),
            PacketMsg::Ack(m) => m.to_js(),
            PacketMsg::Timeout(m) => m.to_js(),
            PacketMsg::TimeoutOnClose(m) => m.to_js(),
        }
    }
}

/// A core protocol message, by category.
#[derive(Debug, Clone, PartialEq, Eq)]
pub enum MsgEnvelope {
    Client(ClientMsg),
    Connection(ConnectionMsg),
    Channel(ChannelMsg),
    Packet(PacketMsg),
}

impl ToJS for MsgEnvelope {
    open spec fn js(&self) -> Js {
        match self {
            MsgEnvelope::Client(m) => m.js(),
            MsgEnvelope::Connection(m) => m.js(),
            MsgEnvelope::Channel(m) => m.js(),
            MsgEnvelope::Packet(m) => m.js(),
        }
    }

    fn to_js(&self) -> (r: Value) {
        match self {
            MsgEnvelope::Client(m) => m.to_js(),
            MsgEnvelope::Connection(m) => m.to_js(),
            MsgEnvelope::Channel(m) => m.to_js(),
            MsgEnvelope::Packet(m) => m.to_js(),
        }
    }
}

} // verus!
