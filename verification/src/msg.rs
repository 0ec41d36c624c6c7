//! The messages the module consumes and the records it hands back.

use vstd::prelude::*;

verus! {

/// Creates the configuration: the sender becomes the administrator and
/// `denom` the payment denomination the module accepts.
#[derive(Debug, PartialEq)]
pub struct InstantiateMsg {
    pub denom: String,
}

/// The directive embedded in an asset-received notification. The only
/// accepted shape asks for an escrow of the received asset at `price`,
/// payable by `buyer` alone.
#[derive(Debug, PartialEq)]
pub enum NftReceiveMsg {
    CreateEscrow { cw721_address: String, price: u128, buyer: String },
}

/// A mutating request. `ReceiveNft` carries the already-decoded notification:
/// `sender` is the depositor who gave the asset up, `token_id` the asset, and
/// `msg` the creation directive.
#[derive(Debug, PartialEq)]
pub enum ExecuteMsg {
    ReceiveNft { sender: String, token_id: String, msg: NftReceiveMsg },
    CancelEscrow { escrow_id: u64 },
    SendFunds { escrow_id: u64 },
}

/// A read-only request.
#[derive(Debug, PartialEq)]
pub enum QueryMsg {
    GetConfig {},
    GetEscrow { id: u64 },
}

/// The configuration as reported by `GetConfig`.
#[derive(Debug, PartialEq)]
pub struct ConfigResponse {
    pub owner: String,
    pub escrow_id: u64,
    pub denom: String,
    pub enabled: bool,
}

/// A migration request; the module only checks the stored contract name.
#[derive(Debug, PartialEq)]
pub struct MigrateMsg {}

/// One escrow record.
#[derive(Debug, PartialEq)]
pub struct EscrowInfo {
    pub token_id: String,
    pub cw721_address: String,
    pub price: u128,
    pub amount: u128,
    pub seller: String,
    pub buyer: String,
    pub created_timestamp: u64,
    pub canceled_timestamp: u64,
}

/// An amount of one denomination, as attached to a settlement request.
#[derive(Debug, PartialEq)]
pub struct Coin {
    pub denom: String,
    pub amount: u128,
}

/// An instruction to the asset-transfer collaborator: move the asset
/// `token_id` of collection `cw721_address` to `recipient`. The module only
/// constructs these; the host carries them out.
#[derive(Debug, PartialEq)]
pub struct TransferNftInstruction {
    pub cw721_address: String,
    pub token_id: String,
    pub recipient: String,
}

/// The acknowledgment a successful creation emits for observability.
#[derive(Debug, PartialEq)]
pub struct CreateAck {
    pub token_id: String,
    pub price: u128,
    pub buyer: String,
}

/// What a successful operation hands back: at most one outbound transfer
/// instruction, and an acknowledgment when an escrow was created.
#[derive(Debug, PartialEq)]
pub struct ExecuteResponse {
    pub messages: Vec<TransferNftInstruction>,
    pub ack: Option<CreateAck>,
}

/// The answer to a query.
#[derive(Debug, PartialEq)]
pub enum QueryResponse {
    Config(ConfigResponse),
    Escrow(EscrowInfo),
}

} // verus!
