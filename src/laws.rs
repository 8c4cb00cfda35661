//! Properties of the ledger that relate several operations, proved over the
//! balance and approval maps that the operations' contracts speak of.
use vstd::prelude::*;
use crate::account::AccountId;
use crate::ledger::Erc1155;
use crate::model::{
    bal, burn_succeeds, burned, can_debit, credit, credit_fits, debit, minted, moved, transfer_succeeds,
    transferred,
};
use crate::storage::{ApprovalEntries, BalanceEntries};

verus! {

/// A credit or a debit changes the balance of its own (account, id) pair
/// only: every other pair keeps its balance, so a pair that no mint or
/// transfer has targeted still reads zero on a ledger that started empty.
pub proof fn other_balances_untouched(
    m: BalanceEntries,
    account: [u8; 32],
    id: u32,
    other: [u8; 32],
    other_id: u32,
    value: u128,
)
    requires
        (other, other_id) != (account, id),
    ensures
        bal(credit(m, account, id, value), other, other_id) == bal(m, other, other_id),
        bal(debit(m, account, id, value), other, other_id) == bal(m, other, other_id),
{
}

/// Minting `value` of `id` to `to` and then burning the same amount from
/// `to` succeeds and leaves the balance as it was before the mint.
pub proof fn mint_then_burn_restores(m: BalanceEntries, to: [u8; 32], id: u32, value: u128)
    requires
        credit_fits(m, to, id, value),
    ensures
        can_debit(credit(m, to, id, value), to, id, value),
        bal(debit(credit(m, to, id, value), to, id, value), to, id) == bal(m, to, id),
{
}

/// A successful move between two distinct accounts takes exactly `value`
/// from `from`, gives exactly `value` to `to`, and keeps their total.
pub proof fn transfer_conserves(m: BalanceEntries, from: [u8; 32], to: [u8; 32], id: u32, value: u128)
    requires
        from != to,
        can_debit(m, from, id, value),
        credit_fits(debit(m, from, id, value), to, id, value),
    ensures
        bal(moved(m, from, to, id, value), from, id) == bal(m, from, id) - value,
        bal(moved(m, from, to, id, value), to, id) == bal(m, to, id) + value,
        bal(moved(m, from, to, id, value), from, id) + bal(moved(m, from, to, id, value), to, id)
            == bal(m, from, id) + bal(m, to, id),
{
}

/// No account is ever approved as operator over itself.
pub proof fn never_self_approved(ledger: Erc1155, account: AccountId)
    requires
        ledger.wf(),
    ensures
        !ledger.spec_approved(account, account),
{
}

/// Granting an approval twice is the same as granting it once, and a
/// later revocation clears it.
pub proof fn approval_idempotent(m: ApprovalEntries, account: [u8; 32], operator: [u8; 32])
    ensures
        m.insert((account, operator), true).insert((account, operator), true) == m.insert(
            (account, operator),
            true,
        ),
        m.insert((account, operator), true).insert((account, operator), true)[(account, operator)],
        !m.insert((account, operator), true).insert((account, operator), true).insert(
            (account, operator),
            false,
        )[(account, operator)],
{
    assert(m.insert((account, operator), true).insert((account, operator), true) =~= m.insert(
        (account, operator),
        true,
    ));
}

/// A two-pair burn whose first pair exceeds the balance fails at the first
/// pair: no debit has been applied, so the second id is untouched.
pub proof fn burn_batch_stops_at_first_failure(
    m: BalanceEntries,
    from: [u8; 32],
    id1: u32,
    id2: u32,
    v1: u128,
    v2: u128,
)
    requires
        bal(m, from, id1) < v1,
    ensures
        burn_succeeds(m, from, seq![id1, id2], seq![v1, v2], 0),
        !burn_succeeds(m, from, seq![id1, id2], seq![v1, v2], 1),
        !burn_succeeds(m, from, seq![id1, id2], seq![v1, v2], 2),
        burned(m, from, seq![id1, id2], seq![v1, v2], 0) == m,
{
    reveal_with_fuel(burn_succeeds, 2);
}

/// A mint batch leaves the balance of a pair alone unless it credits that
/// very pair: its account is `to` and its id is among the batch's ids.
pub proof fn mint_batch_leaves_untargeted(
    m: BalanceEntries,
    to: [u8; 32],
    ids: Seq<u32>,
    values: Seq<u128>,
    n: nat,
    account: [u8; 32],
    id: u32,
)
    requires
        n <= ids.len(),
        n <= values.len(),
        account != to || forall|i: int| 0 <= i < n ==> ids[i] != id,
    ensures
        bal(minted(m, to, ids, values, n), account, id) == bal(m, account, id),
    decreases n,
{
    if n > 0 {
        mint_batch_leaves_untargeted(m, to, ids, values, (n - 1) as nat, account, id);
    }
}

/// A burn batch that succeeds keeps a zero balance at zero.
pub proof fn burn_batch_keeps_zero(
    m: BalanceEntries,
    from: [u8; 32],
    ids: Seq<u32>,
    values: Seq<u128>,
    n: nat,
    account: [u8; 32],
    id: u32,
)
    requires
        burn_succeeds(m, from, ids, values, n),
        bal(m, account, id) == 0,
    ensures
        bal(burned(m, from, ids, values, n), account, id) == 0,
    decreases n,
{
    if n > 0 {
        burn_batch_keeps_zero(m, from, ids, values, (n - 1) as nat, account, id);
    }
}

/// A batch transfer that succeeds keeps a zero balance at zero unless it
/// credits that very pair: its account is `to` and its id is among the ids.
pub proof fn transfer_batch_keeps_untargeted_zero(
    m: BalanceEntries,
    from: [u8; 32],
    to: [u8; 32],
    ids: Seq<u32>,
    values: Seq<u128>,
    n: nat,
    account: [u8; 32],
    id: u32,
)
    requires
        n <= ids.len(),
        n <= values.len(),
        transfer_succeeds(m, from, to, ids, values, n),
        bal(m, account, id) == 0,
        account != to || forall|i: int| 0 <= i < n ==> ids[i] != id,
    ensures
        bal(transferred(m, from, to, ids, values, n), account, id) == 0,
    decreases n,
{
    if n > 0 {
        transfer_batch_keeps_untargeted_zero(m, from, to, ids, values, (n - 1) as nat, account, id);
    }
}

} // verus!
