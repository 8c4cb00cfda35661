//! The ledger's balance rules as functions on the balance map.
use vstd::prelude::*;
use crate::storage::BalanceEntries;

verus! {

/// Balance of `account` in token `id`: the stored value, zero where none is stored.
pub open spec fn bal(m: BalanceEntries, account: [u8; 32], id: u32) -> u128 {
    if m.contains_key((account, id)) {
        m[(account, id)]
    } else {
        0
    }
}

/// `m` with `value` added to the balance of `account` in `id`.
pub open spec fn credit(m: BalanceEntries, account: [u8; 32], id: u32, value: u128) -> BalanceEntries {
    m.insert((account, id), (bal(m, account, id) + value) as u128)
}

/// `m` with `value` taken from the balance of `account` in `id`.
pub open spec fn debit(m: BalanceEntries, account: [u8; 32], id: u32, value: u128) -> BalanceEntries {
    m.insert((account, id), (bal(m, account, id) - value) as u128)
}

/// `m` after `value` of `id` moved from `from` to `to`: first the debit, then the credit.
pub open spec fn moved(
    m: BalanceEntries,
    from: [u8; 32],
    to: [u8; 32],
    id: u32,
    value: u128,
) -> BalanceEntries {
    credit(debit(m, from, id, value), to, id, value)
}

/// Whether crediting `value` to `account` in `id` stays within `u128`.
pub open spec fn credit_fits(m: BalanceEntries, account: [u8; 32], id: u32, value: u128) -> bool {
    bal(m, account, id) + value <= u128::MAX
}

/// Whether `account` holds at least `value` of `id`.
pub open spec fn can_debit(m: BalanceEntries, account: [u8; 32], id: u32, value: u128) -> bool {
    value <= bal(m, account, id)
}

/// `m` after the first `n` pairs of a mint batch were credited to `to`, in order.
pub open spec fn minted(
    m: BalanceEntries,
    to: [u8; 32],
    ids: Seq<u32>,
    values: Seq<u128>,
    n: nat,
) -> BalanceEntries
    decreases n,
{
    if n == 0 {
        m
    } else {
        let k = (n - 1) as nat;
        credit(minted(m, to, ids, values, k), to, ids[k as int], values[k as int])
    }
}

/// Whether no credit among the first `n` pairs of a mint batch leaves `u128`.
pub open spec fn mint_fits(
    m: BalanceEntries,
    to: [u8; 32],
    ids: Seq<u32>,
    values: Seq<u128>,
    n: nat,
) -> bool
    decreases n,
{
    n == 0 || {
        let k = (n - 1) as nat;
        mint_fits(m, to, ids, values, k) && credit_fits(
            minted(m, to, ids, values, k),
            to,
            ids[k as int],
            values[k as int],
        )
    }
}

/// `m` after the first `n` pairs of a burn batch were debited from `from`, in order.
pub open spec fn burned(
    m: BalanceEntries,
    from: [u8; 32],
    ids: Seq<u32>,
    values: Seq<u128>,
    n: nat,
) -> BalanceEntries
    decreases n,
{
    if n == 0 {
        m
    } else {
        let k = (n - 1) as nat;
        debit(burned(m, from, ids, values, k), from, ids[k as int], values[k as int])
    }
}

/// Whether each of the first `n` debits of a burn batch finds enough balance.
pub open spec fn burn_succeeds(
    m: BalanceEntries,
    from: [u8; 32],
    ids: Seq<u32>,
    values: Seq<u128>,
    n: nat,
) -> bool
    decreases n,
{
    n == 0 || {
        let k = (n - 1) as nat;
        burn_succeeds(m, from, ids, values, k) && can_debit(
            burned(m, from, ids, values, k),
            from,
            ids[k as int],
            values[k as int],
        )
    }
}

/// `m` after the first `n` pairs of a batch were moved from `from` to `to`, in order.
pub open spec fn transferred(
    m: BalanceEntries,
    from: [u8; 32],
    to: [u8; 32],
    ids: Seq<u32>,
    values: Seq<u128>,
    n: nat,
) -> BalanceEntries
    decreases n,
{
    if n == 0 {
        m
    } else {
        let k = (n - 1) as nat;
        moved(transferred(m, from, to, ids, values, k), from, to, ids[k as int], values[k as int])
    }
}

/// Whether each of the first `n` moves of a batch finds enough balance at `from`.
pub open spec fn transfer_succeeds(
    m: BalanceEntries,
    from: [u8; 32],
    to: [u8; 32],
    ids: Seq<u32>,
    values: Seq<u128>,
    n: nat,
) -> bool
    decreases n,
{
    n == 0 || {
        let k = (n - 1) as nat;
        transfer_succeeds(m, from, to, ids, values, k) && can_debit(
            transferred(m, from, to, ids, values, k),
            from,
            ids[k as int],
            values[k as int],
        )
    }
}

/// Whether no credit among the first `n` moves of a batch leaves `u128`,
/// for those moves that are reached and succeed.
pub open spec fn transfer_fits(
    m: BalanceEntries,
    from: [u8; 32],
    to: [u8; 32],
    ids: Seq<u32>,
    values: Seq<u128>,
    n: nat,
) -> bool
    decreases n,
{
    n == 0 || {
        let k = (n - 1) as nat;
        let p = transferred(m, from, to, ids, values, k);
        transfer_fits(m, from, to, ids, values, k) && (transfer_succeeds(
            m,
            from,
            to,
            ids,
            values,
            n,
        ) ==> credit_fits(debit(p, from, ids[k as int], values[k as int]), to, ids[k as int], values[k as int]))
    }
}


/// A mint batch whose first `n` credits fit also fits on every shorter prefix.
pub proof fn lemma_mint_fits_prefix(
    m: BalanceEntries,
    to: [u8; 32],
    ids: Seq<u32>,
    values: Seq<u128>,
    k: nat,
    n: nat,
)
    requires
        k <= n,
        mint_fits(m, to, ids, values, n),
    ensures
        mint_fits(m, to, ids, values, k),
    decreases n,
{
    if k < n {
        lemma_mint_fits_prefix(m, to, ids, values, k, (n - 1) as nat);
    }
}

/// A transfer batch whose first `n` credits fit also fits on every shorter prefix.
pub proof fn lemma_transfer_fits_prefix(
    m: BalanceEntries,
    from: [u8; 32],
    to: [u8; 32],
    ids: Seq<u32>,
    values: Seq<u128>,
    k: nat,
    n: nat,
)
    requires
        k <= n,
        transfer_fits(m, from, to, ids, values, n),
    ensures
        transfer_fits(m, from, to, ids, values, k),
    decreases n,
{
    if k < n {
        lemma_transfer_fits_prefix(m, from, to, ids, values, k, (n - 1) as nat);
    }
}


/// A transfer batch whose first `n` moves succeed also succeeds on every shorter prefix.
pub proof fn lemma_transfer_succeeds_prefix(
    m: BalanceEntries,
    from: [u8; 32],
    to: [u8; 32],
    ids: Seq<u32>,
    values: Seq<u128>,
    k: nat,
    n: nat,
)
    requires
        k <= n,
        transfer_succeeds(m, from, to, ids, values, n),
    ensures
        transfer_succeeds(m, from, to, ids, values, k),
    decreases n,
{
    if k < n {
        lemma_transfer_succeeds_prefix(m, from, to, ids, values, k, (n - 1) as nat);
    }
}

/// A burn batch whose first `n` debits succeed also succeeds on every shorter prefix.
pub proof fn lemma_burn_succeeds_prefix(
    m: BalanceEntries,
    from: [u8; 32],
    ids: Seq<u32>,
    values: Seq<u128>,
    k: nat,
    n: nat,
)
    requires
        k <= n,
        burn_succeeds(m, from, ids, values, n),
    ensures
        burn_succeeds(m, from, ids, values, k),
    decreases n,
{
    if k < n {
        lemma_burn_succeeds_prefix(m, from, ids, values, k, (n - 1) as nat);
    }
}

} // verus!
