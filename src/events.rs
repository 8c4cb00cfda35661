use vstd::prelude::*;
use crate::account::AccountId;

verus! {

/// Token class identifier.
pub type TokenId = u32;

/// Amount of one token class held by one account.
pub type TokenBalance = u128;

/// Record of a single-token movement. Minting names the null account as
/// `from`, burning names it as `to`.
#[derive(Clone, Copy, Debug)]
pub struct TransferSingle {
    pub operator: AccountId,
    pub from: AccountId,
    pub to: AccountId,
    pub id: TokenId,
    pub value: TokenBalance,
}

/// Record of a batch movement: one record for the whole batch.
#[derive(Clone, Debug)]
pub struct TransferBatch {
    pub operator: AccountId,
    pub from: AccountId,
    pub to: AccountId,
    pub ids: Vec<TokenId>,
    pub values: Vec<TokenBalance>,
}

/// Record of an operator approval being granted or revoked.
#[derive(Clone, Copy, Debug)]
pub struct ApprovalForAll {
    pub account: AccountId,
    pub operator: AccountId,
    pub approved: bool,
}

/// Reasons a ledger operation is refused.
#[derive(Clone, Copy, Debug, PartialEq, Eq, Structural)]
pub enum Error {
    InsufficientBalance,
    NotOwnerOrNotApproved,
    ApprovalForSelf,
    InvalidArrayLength,
    InvalidZeroAccount,
    CannotFetchValue,
    CannotInsert,
}

} // verus!
