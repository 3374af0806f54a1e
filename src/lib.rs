//! Bookkeeping for a wallet client that builds spend transactions through a
//! full node: a record of outputs that were already committed, and the
//! decisions that guard transaction construction with it.

pub mod amount;
pub mod gateway;
pub mod ledger;
pub mod outpoint;
pub mod uri;

pub use amount::SatAmount;
pub use gateway::{
    address_decision, address_outcome, plan_psbt, record_psbt, wallet_outcome, AddressType, BitcoindConfig,
    GatewayError, Network, PsbtRequest, RpcAuth, TxInput,
};
pub use ledger::CachedOutputs;
pub use outpoint::{Input, NodeTxid, OutPoint};
pub use uri::{PartiallySignedTransaction, Uri};
