//! A multi-token ledger: balances of many token classes per account,
//! single and batch transfers, minting, burning and operator approvals.

pub mod account;
pub mod events;
pub mod laws;
pub mod ledger;
pub mod model;
pub mod storage;

pub use account::AccountId;
pub use events::{ApprovalForAll, Error, TokenBalance, TokenId, TransferBatch, TransferSingle};
pub use ledger::Erc1155;
