use vstd::prelude::*;

verus! {

/// Key of a balance entry: the account's bytes and the token id.
pub type BalanceKey = ([u8; 32], u32);

/// What a balance table holds.
pub type BalanceEntries = Map<BalanceKey, u128>;

/// Key of an approval entry: the owner's bytes and the operator's bytes.
pub type ApprovalKey = ([u8; 32], [u8; 32]);

/// What an approval table holds.
pub type ApprovalEntries = Map<ApprovalKey, bool>;

/// Balances kept in an ink_storage `HashMap`.
#[verifier::external_body]
pub struct BalanceTable {
    map: ink_storage::collections::HashMap<([u8; 32], u32), u128>,
}

/// Approval flags kept in an ink_storage `HashMap`.
#[verifier::external_body]
pub struct ApprovalTable {
    map: ink_storage::collections::HashMap<([u8; 32], [u8; 32]), bool>,
}

/// The entries of a balance table.
pub uninterp spec fn balance_entries(t: BalanceTable) -> BalanceEntries;

/// The entries of an approval table.
pub uninterp spec fn approval_entries(t: ApprovalTable) -> ApprovalEntries;

impl BalanceTable {
    /// Relies on ink_storage's `HashMap::len`: the number of stored keys.
    #[verifier::external_body]
    pub(crate) fn len(&self) -> (r: u32)
        requires
            balance_entries(*self).dom().finite(),
        ensures
            r as nat == balance_entries(*self).dom().len(),
    {
        self.map.len()
    }

    /// Relies on ink_storage's `HashMap::new`: a map with no entries.
    #[verifier::external_body]
    pub(crate) fn new() -> (r: BalanceTable)
        ensures
            balance_entries(r) == BalanceEntries::empty(),
    {
        BalanceTable { map: ink_storage::collections::HashMap::new() }
    }

    /// Relies on ink_storage's `HashMap::get`: the value stored under the
    /// key, or `None` where there is none.
    #[verifier::external_body]
    pub(crate) fn get(&self, key: &([u8; 32], u32)) -> (r: Option<u128>)
        ensures
            r == (if balance_entries(*self).contains_key(*key) {
                Some(balance_entries(*self)[*key])
            } else {
                None::<u128>
            }),
    {
        self.map.get(key).copied()
    }

    /// Relies on ink_storage's `HashMap::insert`: the key is mapped to the
    /// value, every other entry stays. A key not yet present takes a slot
    /// in the map's key stash, whose `u32` counters must not overflow.
    #[verifier::external_body]
    pub(crate) fn insert(&mut self, key: ([u8; 32], u32), value: u128)
        requires
            balance_entries(*old(self)).dom().finite(),
            balance_entries(*old(self)).contains_key(key) || balance_entries(
                *old(self),
            ).dom().len() < u32::MAX,
        ensures
            balance_entries(*final(self)) == balance_entries(*old(self)).insert(key, value),
    {
        self.map.insert(key, value);
    }
}

impl ApprovalTable {
    /// Relies on ink_storage's `HashMap::len`: the number of stored keys.
    #[verifier::external_body]
    pub(crate) fn len(&self) -> (r: u32)
        requires
            approval_entries(*self).dom().finite(),
        ensures
            r as nat == approval_entries(*self).dom().len(),
    {
        self.map.len()
    }

    /// Relies on ink_storage's `HashMap::new`: a map with no entries.
    #[verifier::external_body]
    pub(crate) fn new() -> (r: ApprovalTable)
        ensures
            approval_entries(r) == ApprovalEntries::empty(),
    {
        ApprovalTable { map: ink_storage::collections::HashMap::new() }
    }

    /// Relies on ink_storage's `HashMap::get`: the value stored under the
    /// key, or `None` where there is none.
    #[verifier::external_body]
    pub(crate) fn get(&self, key: &([u8; 32], [u8; 32])) -> (r: Option<bool>)
        ensures
            r == (if approval_entries(*self).contains_key(*key) {
                Some(approval_entries(*self)[*key])
            } else {
                None::<bool>
            }),
    {
        self.map.get(key).copied()
    }

    /// Relies on ink_storage's `HashMap::insert`: the key is mapped to the
    /// value, every other entry stays. A key not yet present takes a slot
    /// in the map's key stash, whose `u32` counters must not overflow.
    #[verifier::external_body]
    pub(crate) fn insert(&mut self, key: ([u8; 32], [u8; 32]), value: bool)
        requires
            approval_entries(*old(self)).dom().finite(),
            approval_entries(*old(self)).contains_key(key) || approval_entries(
                *old(self),
            ).dom().len() < u32::MAX,
        ensures
            approval_entries(*final(self)) == approval_entries(*old(self)).insert(key, value),
    {
        self.map.insert(key, value);
    }
}

} // verus!
