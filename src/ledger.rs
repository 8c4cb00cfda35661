//! The ledger: balances per (account, token id) and operator approvals.
use vstd::prelude::*;
use crate::account::AccountId;
use crate::events::{ApprovalForAll, Error, TokenBalance, TokenId, TransferBatch, TransferSingle};
use crate::model::{
    bal, burn_succeeds, burned, can_debit, credit, credit_fits, debit, lemma_burn_succeeds_prefix,
    lemma_mint_fits_prefix, lemma_transfer_fits_prefix, lemma_transfer_succeeds_prefix, mint_fits,
    minted, moved, transfer_fits, transfer_succeeds, transferred,
};
use crate::storage::{ApprovalEntries, ApprovalTable, BalanceEntries, BalanceTable};

verus! {

/// A multi-token ledger. Every mutating operation takes the caller's identity
/// and hands back the record it emits.
pub struct Erc1155 {
    balances: BalanceTable,
    operator_approvals: ApprovalTable,
}

impl Erc1155 {
    /// The stored balances.
    pub closed spec fn balances_map(self) -> BalanceEntries {
        crate::storage::balance_entries(self.balances)
    }

    /// The stored approval flags.
    pub closed spec fn approvals_map(self) -> ApprovalEntries {
        crate::storage::approval_entries(self.operator_approvals)
    }

    /// Balance of `account` in token `id`.
    pub open spec fn spec_balance(self, account: AccountId, id: TokenId) -> TokenBalance {
        bal(self.balances_map(), account.bytes, id)
    }

    /// Whether `operator` may act for `account`: the stored flag, `false` where none is stored.
    pub open spec fn spec_approved(self, account: AccountId, operator: AccountId) -> bool {
        self.approvals_map().contains_key((account.bytes, operator.bytes)) && self.approvals_map()[(
        account.bytes,
        operator.bytes,
        )]
    }

    /// Both maps are finite, and no account holds an approval over itself.
    pub open spec fn wf(self) -> bool {
        &&& self.balances_map().dom().finite()
        &&& self.approvals_map().dom().finite()
        &&& forall|a: [u8; 32]| !self.approvals_map().contains_key((a, a))
    }

    /// The balance map can take `n` more keys.
    pub open spec fn balance_room(self, n: nat) -> bool {
        self.balances_map().dom().len() + n <= u32::MAX
    }

    /// The approval map can take one more key.
    pub open spec fn approval_room(self) -> bool {
        self.approvals_map().dom().len() < u32::MAX
    }

    /// An empty ledger.
    pub fn new() -> (r: Erc1155)
        ensures
            r.wf(),
            r.balances_map() == BalanceEntries::empty(),
            r.approvals_map() == ApprovalEntries::empty(),
            forall|a: AccountId, t: TokenId| r.spec_balance(a, t) == 0,
    {
        Erc1155 { balances: BalanceTable::new(), operator_approvals: ApprovalTable::new() }
    }

    /// An empty ledger, as `new`.
    pub fn default() -> (r: Erc1155)
        ensures
            r.wf(),
            r.balances_map() == BalanceEntries::empty(),
            r.approvals_map() == ApprovalEntries::empty(),
    {
        Self::new()
    }

    fn balance_of_or_zero(&self, account: &AccountId, id: &TokenId) -> (r: TokenBalance)
        ensures
            r == self.spec_balance(*account, *id),
    {
        match self.balances.get(&(account.bytes, *id)) {
            Some(v) => v,
            None => 0,
        }
    }

    fn approved_for_all(&self, account: &AccountId, operator: &AccountId) -> (r: bool)
        ensures
            r == self.spec_approved(*account, *operator),
    {
        match self.operator_approvals.get(&(account.bytes, operator.bytes)) {
            Some(v) => v,
            None => false,
        }
    }

    /// Balance of `account` in token `id`; zero where nothing was ever stored.
    pub fn balance_of(&self, account: AccountId, id: TokenId) -> (r: TokenBalance)
        ensures
            r == self.spec_balance(account, id),
    {
        self.balance_of_or_zero(&account, &id)
    }

    /// Number of (account, id) keys stored, zero balances included.
    /// Each call may add up to one key per pair it credits or debits.
    pub fn balance_key_count(&self) -> (r: u32)
        requires
            self.wf(),
        ensures
            r as nat == self.balances_map().dom().len(),
    {
        self.balances.len()
    }

    /// Number of (owner, operator) keys stored.
    pub fn approval_key_count(&self) -> (r: u32)
        requires
            self.wf(),
        ensures
            r as nat == self.approvals_map().dom().len(),
    {
        self.operator_approvals.len()
    }

    /// Whether `operator` is approved to act for `account`.
    pub fn is_approved_for_all(&self, account: AccountId, operator: AccountId) -> (r: bool)
        ensures
            r == self.spec_approved(account, operator),
    {
        self.approved_for_all(&account, &operator)
    }

    /// Still well formed, approvals as in `old`, and at most `n` balance
    /// keys more than `old` has.
    pub open spec fn grew_by(self, old: Erc1155, n: nat) -> bool {
        &&& self.wf()
        &&& self.approvals_map() == old.approvals_map()
        &&& self.balances_map().dom().len() <= old.balances_map().dom().len() + n
    }

    fn add_token_to(&mut self, to: &AccountId, id: &TokenId, value: TokenBalance) -> (r: Result<(), Error>)
        requires
            old(self).wf(),
            old(self).balance_room(1),
            credit_fits(old(self).balances_map(), to.bytes, *id, value),
        ensures
            r is Ok,
            final(self).grew_by(*old(self), 1),
            final(self).balances_map() == credit(old(self).balances_map(), to.bytes, *id, value),
    {
        let to_balance = self.balance_of_or_zero(to, id);
        self.balances.insert((to.bytes, *id), to_balance + value);
        Ok(())
    }

    fn remove_token_from(&mut self, from: &AccountId, id: &TokenId, value: TokenBalance) -> (r: Result<(), Error>)
        requires
            old(self).wf(),
            old(self).balance_room(1),
        ensures
            r is Ok <==> can_debit(old(self).balances_map(), from.bytes, *id, value),
            r is Ok ==> final(self).balances_map() == debit(old(self).balances_map(), from.bytes, *id, value),
            r is Err ==> r == Err::<(), Error>(Error::InsufficientBalance) && *final(self) == *old(self),
            final(self).grew_by(*old(self), 1),
    {
        let from_balance = self.balance_of_or_zero(from, id);
        if from_balance < value {
            return Err(Error::InsufficientBalance);
        }
        self.balances.insert((from.bytes, *id), from_balance - value);
        Ok(())
    }

    fn transfer_token_from(&mut self, from: &AccountId, to: &AccountId, id: &TokenId, value: TokenBalance) -> (r: Result<(), Error>)
        requires
            old(self).wf(),
            old(self).balance_room(2),
            can_debit(old(self).balances_map(), from.bytes, *id, value) ==> credit_fits(
                debit(old(self).balances_map(), from.bytes, *id, value),
                to.bytes,
                *id,
                value,
            ),
        ensures
            r is Ok <==> can_debit(old(self).balances_map(), from.bytes, *id, value),
            r is Ok ==> final(self).balances_map() == moved(old(self).balances_map(), from.bytes, to.bytes, *id, value),
            r is Err ==> r == Err::<(), Error>(Error::InsufficientBalance) && *final(self) == *old(self),
            final(self).grew_by(*old(self), 2),
    {
        let from_balance = self.balance_of_or_zero(from, id);
        if from_balance < value {
            return Err(Error::InsufficientBalance);
        }
        self.balances.insert((from.bytes, *id), from_balance - value);
        let to_balance = self.balance_of_or_zero(to, id);
        self.balances.insert((to.bytes, *id), to_balance + value);
        Ok(())
    }

    /// Grants (`approved`) or revokes operator rights of `operator` over the
    /// caller's tokens. An account cannot approve itself.
    pub fn set_approval_for_all(&mut self, caller: AccountId, operator: AccountId, approved: bool) -> (r: Result<ApprovalForAll, Error>)
        requires
            old(self).wf(),
            operator.bytes != caller.bytes && !old(self).approvals_map().contains_key(
                (caller.bytes, operator.bytes),
            ) ==> old(self).approval_room(),
        ensures
            final(self).wf(),
            final(self).balances_map() == old(self).balances_map(),
            operator.bytes == caller.bytes ==> r == Err::<ApprovalForAll, Error>(Error::ApprovalForSelf)
                && *final(self) == *old(self),
            operator.bytes != caller.bytes ==> r == Ok::<ApprovalForAll, Error>(
                (ApprovalForAll { account: caller, operator, approved }),
            ) && final(self).approvals_map() == old(self).approvals_map().insert(
                (caller.bytes, operator.bytes),
                approved,
            ),
    {
        if operator == caller {
            return Err(Error::ApprovalForSelf);
        }
        self.operator_approvals.insert((caller.bytes, operator.bytes), approved);
        Ok(ApprovalForAll { account: caller, operator, approved })
    }

    /// Moves `value` of token `id` from `from` to `to`. Neither may be the
    /// null account.
    ///
    /// No owner-or-operator check is made: any caller may move any
    /// account's tokens. Whether to require `from == caller` or an approval
    /// of `caller` by `from` is left open here.
    pub fn safe_transfer_from(
        &mut self,
        caller: AccountId,
        from: AccountId,
        to: AccountId,
        id: TokenId,
        value: TokenBalance,
    ) -> (r: Result<TransferSingle, Error>)
        requires
            old(self).wf(),
            old(self).balance_room(2),
            !to.spec_is_null() && !from.spec_is_null() && can_debit(
                old(self).balances_map(),
                from.bytes,
                id,
                value,
            ) ==> credit_fits(debit(old(self).balances_map(), from.bytes, id, value), to.bytes, id, value),
        ensures
            final(self).wf(),
            final(self).approvals_map() == old(self).approvals_map(),
            to.spec_is_null() || from.spec_is_null() ==> r == Err::<TransferSingle, Error>(
                Error::InvalidZeroAccount,
            ),
            !to.spec_is_null() && !from.spec_is_null() && !can_debit(old(self).balances_map(), from.bytes, id, value)
                ==> r == Err::<TransferSingle, Error>(Error::InsufficientBalance),
            r is Err ==> *final(self) == *old(self),
            !to.spec_is_null() && !from.spec_is_null() && can_debit(old(self).balances_map(), from.bytes, id, value) ==> r
                == Ok::<TransferSingle, Error>((TransferSingle { operator: caller, from, to, id, value }))
                && final(self).balances_map() == moved(old(self).balances_map(), from.bytes, to.bytes, id, value),
    {
        if to.is_null() {
            return Err(Error::InvalidZeroAccount);
        }
        if from.is_null() {
            return Err(Error::InvalidZeroAccount);
        }
        match self.transfer_token_from(&from, &to, &id, value) {
            Ok(()) => {},
            Err(e) => {
                return Err(e);
            },
        }
        Ok(TransferSingle { operator: caller, from, to, id, value })
    }

    /// Creates `value` of token `id` and credits it to `to`.
    pub fn mint(&mut self, caller: AccountId, to: AccountId, id: TokenId, value: TokenBalance) -> (r: Result<TransferSingle, Error>)
        requires
            old(self).wf(),
            old(self).balance_room(1),
            !to.spec_is_null() ==> credit_fits(old(self).balances_map(), to.bytes, id, value),
        ensures
            final(self).wf(),
            final(self).approvals_map() == old(self).approvals_map(),
            to.spec_is_null() ==> r == Err::<TransferSingle, Error>(Error::InvalidZeroAccount)
                && *final(self) == *old(self),
            !to.spec_is_null() ==> r is Ok && r->Ok_0.operator == caller && r->Ok_0.from.spec_is_null()
                && r->Ok_0.to == to && r->Ok_0.id == id && r->Ok_0.value == value
                && final(self).balances_map() == credit(old(self).balances_map(), to.bytes, id, value),
    {
        let zero_account = AccountId::null();
        if to.is_null() {
            return Err(Error::InvalidZeroAccount);
        }
        let _ = self.add_token_to(&to, &id, value);
        Ok(TransferSingle { operator: caller, from: zero_account, to, id, value })
    }

    /// Destroys `value` of token `id` held by `from`.
    pub fn burn(&mut self, caller: AccountId, from: AccountId, id: TokenId, value: TokenBalance) -> (r: Result<TransferSingle, Error>)
        requires
            old(self).wf(),
            old(self).balance_room(1),
        ensures
            final(self).wf(),
            final(self).approvals_map() == old(self).approvals_map(),
            from.spec_is_null() ==> r == Err::<TransferSingle, Error>(Error::InvalidZeroAccount),
            !from.spec_is_null() && !can_debit(old(self).balances_map(), from.bytes, id, value) ==> r
                == Err::<TransferSingle, Error>(Error::InsufficientBalance),
            r is Err ==> *final(self) == *old(self),
            !from.spec_is_null() && can_debit(old(self).balances_map(), from.bytes, id, value) ==> r is Ok
                && r->Ok_0.operator == caller && r->Ok_0.from == from && r->Ok_0.to.spec_is_null()
                && r->Ok_0.id == id && r->Ok_0.value == value
                && final(self).balances_map() == debit(old(self).balances_map(), from.bytes, id, value),
    {
        let zero_account = AccountId::null();
        if from.is_null() {
            return Err(Error::InvalidZeroAccount);
        }
        match self.remove_token_from(&from, &id, value) {
            Ok(()) => {},
            Err(e) => {
                return Err(e);
            },
        }
        Ok(TransferSingle { operator: caller, from, to: zero_account, id, value })
    }

    /// Balances of each (account, id) pair, in order.
    pub fn balance_of_batch(&self, accounts: Vec<AccountId>, ids: Vec<TokenId>) -> (r: Result<Vec<TokenBalance>, Error>)
        ensures
            accounts.len() != ids.len() <==> r == Err::<Vec<TokenBalance>, Error>(Error::InvalidArrayLength),
            accounts.len() == ids.len() ==> r is Ok,
            r is Ok ==> r->Ok_0.len() == accounts.len() && forall|i: int|
                0 <= i < accounts.len() ==> r->Ok_0[i] == self.spec_balance(accounts[i], ids[i]),
    {
        if accounts.len() != ids.len() {
            return Err(Error::InvalidArrayLength);
        }
        let mut batch_balances: Vec<TokenBalance> = Vec::new();
        let n = accounts.len();
        let mut i: usize = 0;
        while i < n
            invariant
                0 <= i <= n,
                n == accounts.len(),
                n == ids.len(),
                batch_balances.len() == i,
                forall|j: int| 0 <= j < i ==> batch_balances[j] == self.spec_balance(accounts[j], ids[j]),
            decreases n - i,
        {
            batch_balances.push(self.balance_of_or_zero(&accounts[i], &ids[i]));
            i = i + 1;
        }
        Ok(batch_balances)
    }

    /// Moves each (ids[i], values[i]) from `from` to `to`, in order. Stops at
    /// the first pair that `from` cannot cover; pairs before it stay moved.
    /// Neither account may be the null account.
    ///
    /// As for `safe_transfer_from`, no owner-or-operator check is made.
    pub fn safe_batch_transfer_from(
        &mut self,
        caller: AccountId,
        from: AccountId,
        to: AccountId,
        ids: Vec<TokenId>,
        values: Vec<TokenBalance>,
    ) -> (r: Result<TransferBatch, Error>)
        requires
            old(self).wf(),
            old(self).balance_room((2 * ids.len()) as nat),
            ids.len() == values.len() && !to.spec_is_null() && !from.spec_is_null() ==> transfer_fits(
                old(self).balances_map(),
                from.bytes,
                to.bytes,
                ids@,
                values@,
                ids.len() as nat,
            ),
        ensures
            final(self).wf(),
            final(self).approvals_map() == old(self).approvals_map(),
            ids.len() != values.len() ==> r == Err::<TransferBatch, Error>(Error::InvalidArrayLength)
                && *final(self) == *old(self),
            ids.len() == values.len() && (to.spec_is_null() || from.spec_is_null()) ==> r == Err::<
                TransferBatch,
                Error,
            >(Error::InvalidZeroAccount) && *final(self) == *old(self),
            r is Ok <==> ids.len() == values.len() && !to.spec_is_null() && !from.spec_is_null() && transfer_succeeds(
                old(self).balances_map(),
                from.bytes,
                to.bytes,
                ids@,
                values@,
                ids.len() as nat,
            ),
            r is Ok ==> r->Ok_0.operator == caller && r->Ok_0.from == from && r->Ok_0.to == to
                && r->Ok_0.ids@ == ids@ && r->Ok_0.values@ == values@
                && final(self).balances_map() == transferred(
                old(self).balances_map(),
                from.bytes,
                to.bytes,
                ids@,
                values@,
                ids.len() as nat,
            ),
            ids.len() == values.len() && !to.spec_is_null() && !from.spec_is_null() && r is Err ==> r == Err::<
                TransferBatch,
                Error,
            >(Error::InsufficientBalance) && exists|k: nat|
                #![trigger transferred(old(self).balances_map(), from.bytes, to.bytes, ids@, values@, k)]
                k < ids.len() && transfer_succeeds(old(self).balances_map(), from.bytes, to.bytes, ids@, values@, k)
                    && !transfer_succeeds(old(self).balances_map(), from.bytes, to.bytes, ids@, values@, k + 1)
                    && final(self).balances_map() == transferred(
                    old(self).balances_map(),
                    from.bytes,
                    to.bytes,
                    ids@,
                    values@,
                    k,
                ),
    {
        if ids.len() != values.len() {
            return Err(Error::InvalidArrayLength);
        }
        if to.is_null() {
            return Err(Error::InvalidZeroAccount);
        }
        if from.is_null() {
            return Err(Error::InvalidZeroAccount);
        }
        let n = ids.len();
        let mut i: usize = 0;
        while i < n
            invariant
                0 <= i <= n,
                n == ids.len(),
                n == values.len(),
                self.wf(),
                self.approvals_map() == old(self).approvals_map(),
                self.balances_map().dom().len() <= old(self).balances_map().dom().len() + 2 * i,
                old(self).balance_room((2 * ids.len()) as nat),
                transfer_fits(old(self).balances_map(), from.bytes, to.bytes, ids@, values@, n as nat),
                !to.spec_is_null(),
                !from.spec_is_null(),
                transfer_succeeds(old(self).balances_map(), from.bytes, to.bytes, ids@, values@, i as nat),
                self.balances_map() == transferred(old(self).balances_map(), from.bytes, to.bytes, ids@, values@, i as nat),
            decreases n - i,
        {
            let id = ids[i];
            let value = values[i];
            proof {
                lemma_transfer_fits_prefix(
                    old(self).balances_map(),
                    from.bytes,
                    to.bytes,
                    ids@,
                    values@,
                    (i + 1) as nat,
                    n as nat,
                );
            }
            match self.transfer_token_from(&from, &to, &id, value) {
                Ok(()) => {},
                Err(e) => {
                    proof {
                        if transfer_succeeds(old(self).balances_map(), from.bytes, to.bytes, ids@, values@, n as nat) {
                            lemma_transfer_succeeds_prefix(
                                old(self).balances_map(),
                                from.bytes,
                                to.bytes,
                                ids@,
                                values@,
                                (i + 1) as nat,
                                n as nat,
                            );
                        }
                    }
                    return Err(e);
                },
            }
            i = i + 1;
        }
        Ok(TransferBatch { operator: caller, from, to, ids, values })
    }

    /// Credits each (ids[i], values[i]) to `to`, in order.
    pub fn mint_batch(&mut self, caller: AccountId, to: AccountId, ids: Vec<TokenId>, values: Vec<TokenBalance>) -> (r: Result<TransferBatch, Error>)
        requires
            old(self).wf(),
            old(self).balance_room(ids.len() as nat),
            !to.spec_is_null() && ids.len() == values.len() ==> mint_fits(
                old(self).balances_map(),
                to.bytes,
                ids@,
                values@,
                ids.len() as nat,
            ),
        ensures
            final(self).wf(),
            final(self).approvals_map() == old(self).approvals_map(),
            to.spec_is_null() ==> r == Err::<TransferBatch, Error>(Error::InvalidZeroAccount)
                && *final(self) == *old(self),
            !to.spec_is_null() && ids.len() != values.len() ==> r == Err::<TransferBatch, Error>(
                Error::InvalidArrayLength,
            ) && *final(self) == *old(self),
            r is Ok <==> !to.spec_is_null() && ids.len() == values.len(),
            r is Ok ==> r->Ok_0.operator == caller && r->Ok_0.from.spec_is_null() && r->Ok_0.to == to
                && r->Ok_0.ids@ == ids@ && r->Ok_0.values@ == values@
                && final(self).balances_map() == minted(old(self).balances_map(), to.bytes, ids@, values@, ids.len() as nat),
    {
        let zero_account = AccountId::null();
        if to.is_null() {
            return Err(Error::InvalidZeroAccount);
        }
        if ids.len() != values.len() {
            return Err(Error::InvalidArrayLength);
        }
        let n = ids.len();
        let mut i: usize = 0;
        while i < n
            invariant
                0 <= i <= n,
                n == ids.len(),
                n == values.len(),
                self.wf(),
                self.approvals_map() == old(self).approvals_map(),
                self.balances_map().dom().len() <= old(self).balances_map().dom().len() + i,
                old(self).balance_room(ids.len() as nat),
                mint_fits(old(self).balances_map(), to.bytes, ids@, values@, n as nat),
                !to.spec_is_null(),
                self.balances_map() == minted(old(self).balances_map(), to.bytes, ids@, values@, i as nat),
            decreases n - i,
        {
            let id = ids[i];
            let value = values[i];
            proof {
                lemma_mint_fits_prefix(old(self).balances_map(), to.bytes, ids@, values@, (i + 1) as nat, n as nat);
            }
            let _ = self.add_token_to(&to, &id, value);
            i = i + 1;
        }
        Ok(TransferBatch { operator: caller, from: zero_account, to, ids, values })
    }

    /// Debits each (ids[i], values[i]) from `from`, in order. Stops at the
    /// first pair that `from` cannot cover; pairs before it stay debited.
    pub fn burn_batch(&mut self, caller: AccountId, from: AccountId, ids: Vec<TokenId>, values: Vec<TokenBalance>) -> (r: Result<TransferBatch, Error>)
        requires
            old(self).wf(),
            old(self).balance_room(ids.len() as nat),
        ensures
            final(self).wf(),
            final(self).approvals_map() == old(self).approvals_map(),
            from.spec_is_null() ==> r == Err::<TransferBatch, Error>(Error::InvalidZeroAccount)
                && *final(self) == *old(self),
            !from.spec_is_null() && ids.len() != values.len() ==> r == Err::<TransferBatch, Error>(
                Error::InvalidArrayLength,
            ) && *final(self) == *old(self),
            r is Ok <==> !from.spec_is_null() && ids.len() == values.len() && burn_succeeds(
                old(self).balances_map(),
                from.bytes,
                ids@,
                values@,
                ids.len() as nat,
            ),
            r is Ok ==> r->Ok_0.operator == caller && r->Ok_0.from == from && r->Ok_0.to.spec_is_null()
                && r->Ok_0.ids@ == ids@ && r->Ok_0.values@ == values@
                && final(self).balances_map() == burned(old(self).balances_map(), from.bytes, ids@, values@, ids.len() as nat),
            !from.spec_is_null() && ids.len() == values.len() && r is Err ==> r == Err::<TransferBatch, Error>(
                Error::InsufficientBalance,
            ) && exists|k: nat|
                #![trigger burned(old(self).balances_map(), from.bytes, ids@, values@, k)]
                k < ids.len() && burn_succeeds(old(self).balances_map(), from.bytes, ids@, values@, k)
                    && !burn_succeeds(old(self).balances_map(), from.bytes, ids@, values@, k + 1)
                    && final(self).balances_map() == burned(old(self).balances_map(), from.bytes, ids@, values@, k),
    {
        let zero_account = AccountId::null();
        if from.is_null() {
            return Err(Error::InvalidZeroAccount);
        }
        if ids.len() != values.len() {
            return Err(Error::InvalidArrayLength);
        }
        let n = ids.len();
        let mut i: usize = 0;
        while i < n
            invariant
                0 <= i <= n,
                n == ids.len(),
                n == values.len(),
                self.wf(),
                self.approvals_map() == old(self).approvals_map(),
                self.balances_map().dom().len() <= old(self).balances_map().dom().len() + i,
                old(self).balance_room(ids.len() as nat),
                burn_succeeds(old(self).balances_map(), from.bytes, ids@, values@, i as nat),
                !from.spec_is_null(),
                self.balances_map() == burned(old(self).balances_map(), from.bytes, ids@, values@, i as nat),
            decreases n - i,
        {
            let id = ids[i];
            let value = values[i];
            match self.remove_token_from(&from, &id, value) {
                Ok(()) => {},
                Err(e) => {
                    proof {
                        if burn_succeeds(old(self).balances_map(), from.bytes, ids@, values@, n as nat) {
                            lemma_burn_succeeds_prefix(old(self).balances_map(), from.bytes, ids@, values@, (i + 1) as nat, n as nat);
                        }
                    }
                    return Err(e);
                },
            }
            i = i + 1;
        }
        Ok(TransferBatch { operator: caller, from, to: zero_account, ids, values })
    }
}

} // verus!
