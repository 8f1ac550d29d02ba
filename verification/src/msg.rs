use vstd::prelude::*;
use crate::state::Contract;

verus! {

/// The invocation context handed in by the host on every call: who sent the
/// message, the logical clock of the current block, and the dispatching
/// program's own address and code-integrity hash.
pub struct Env {
    pub message_sender: String,
    pub block_time: u64,
    pub contract_address: String,
    pub contract_code_hash: String,
}

/// The errors the core state machine itself can produce. Store and decoding
/// failures happen at the host boundary, before or after the core runs, and
/// are not part of this type.
#[derive(Debug, Clone, Copy, PartialEq, Eq, Structural)]
pub enum Error {
    /// The caller of a privileged operation is not the stored admin.
    Unauthorized,
    /// A registration's referrer does not match the dispatcher's own hash.
    Unauthenticated,
}

/// Fields of the one-time initialization message.
pub struct InitMsg {
    pub stamp_addr: String,
    pub stamp_hash: String,
    pub game_code_id: u64,
    pub game_hash: String,
    pub jackpot_addr: String,
    pub jackpot_hash: String,
}

/// The closed set of mutating operations; the dispatcher matches on it
/// exhaustively, so adding an operation is a compile-time-checked change.
pub enum HandleMsg {
    CreateNewTable {
        label: String,
        password: Option<String>,
        min_buy: u64,
        max_buy: u64,
    },
    Refresh {},
    UpdateRemoveTimeout {
        new_timeout: u64,
    },
    UpdateJackpot {
        new_jackpot_addr: String,
        new_jackpot_hash: String,
    },
    UpdateStamper {
        new_stamp_addr: String,
        new_stamp_hash: String,
    },
    UpdateValidCodeId {
        new_code_id: u64,
        new_hash: String,
    },
    PassTheHatOn {
        new_admin: String,
    },
    RegisteredCallback {
        address: String,
        private: bool,
        label: String,
        referrer: String,
    },
}

/// The read-only operations.
pub enum QueryMsg {
    GetList {},
}

/// Response to `GetList`: a flat snapshot of the registry, in insertion
/// order.
#[derive(Debug, PartialEq, Eq)]
pub struct ListResponse {
    pub contracts: Vec<Contract>,
}

/// The initialization message a newly spawned child receives. It carries the
/// dispatcher's own address and hash so the child knows whom to call back
/// and which referrer value to present.
#[derive(Debug, PartialEq, Eq)]
pub struct GameContractInitMsg {
    pub bg: u64,
    pub password: Option<String>,
    pub label: String,
    pub stamp_addr: String,
    pub stamp_hash: String,
    pub callback_addr: String,
    pub callback_hash: String,
    pub min_buy: u64,
    pub max_buy: u64,
    pub jackpot_addr: String,
    pub jackpot_hash: String,
}

/// An outbound request that the host instantiate a new child from the
/// pinned code, carrying the child's initialization message.
#[derive(Debug, PartialEq, Eq)]
pub struct SpawnRequest {
    pub init_msg: GameContractInitMsg,
    pub code_id: u64,
    pub code_hash: String,
    pub label: String,
}

/// What a mutating operation hands back to the host: zero or more outbound
/// spawn requests to deliver.
#[derive(Debug, PartialEq, Eq)]
pub struct HandleResponse {
    pub messages: Vec<SpawnRequest>,
}

} // verus!
