use vstd::prelude::*;
use crate::VaultError;
use crate::state::{VaultState, LedgerView, open_tr, deposit_tr, withdraw_tr, close_tr};
use crate::derivation::{
    created_address, found_address, min_reserve, state_tag, vault_tag, state_tag_view,
    vault_tag_view, state_seeds_view, vault_seeds_view, derive_address, find_address,
    bytes_equal, rent_minimum_balance,
};

verus! {

/// The accounts one vault operation touches, as the handler sees them: the
/// authorizing user, the record address and its contents, the fund-holding
/// address and its balance, and the program that owns the derivation
/// namespace. The two addresses are supplied by the caller and are validated
/// against the recomputed derivation before any funds move.
pub struct VaultAccounts {
    /// The authorizing user's address.
    pub user_key: Vec<u8>,
    /// The user's personal balance.
    pub user_lamports: u64,
    /// The caller-supplied address of the vault record.
    pub state_key: Vec<u8>,
    /// The record persisted at the state address, present while the vault is
    /// open.
    pub record: Option<VaultState>,
    /// The caller-supplied fund-holding address.
    pub vault_key: Vec<u8>,
    /// The vault's balance.
    pub vault_lamports: u64,
    /// The address of the program that owns the derivation namespace.
    pub program_id: Vec<u8>,
}

impl VaultAccounts {
    /// The abstract ledger state these accounts carry.
    pub open spec fn ledger(self) -> LedgerView {
        LedgerView {
            user_lamports: self.user_lamports as int,
            vault_lamports: self.vault_lamports as int,
            record: self.record,
        }
    }

    /// What the hosting ledger guarantees of any set of accounts it hands to
    /// a handler: the owning program's address is 32 bytes, and the total
    /// supply fits the native balance type, so no transfer between the two
    /// parties can overflow.
    pub open spec fn wf(self) -> bool {
        &&& self.program_id@.len() == 32
        &&& self.user_lamports + self.vault_lamports <= u64::MAX
    }

    /// The supplied addresses re-derive from the record's persisted bumps:
    /// the state address from the `"state"` tag and the user, the vault
    /// address from the `"vault"` tag and the state address. This is the
    /// derivation proof that authorizes every operation on an open vault.
    pub open spec fn keys_match(self, rec: VaultState) -> bool {
        &&& created_address(state_seeds_view(self.user_key@, rec.state_bump), self.program_id@)
            == Some(self.state_key@)
        &&& created_address(vault_seeds_view(self.state_key@, rec.vault_bump), self.program_id@)
            == Some(self.vault_key@)
    }

    /// The operation touched only balances and the record, never the
    /// identities it was invoked with.
    pub open spec fn same_identities(self, other: Self) -> bool {
        &&& self.user_key@ == other.user_key@
        &&& self.state_key@ == other.state_key@
        &&& self.vault_key@ == other.vault_key@
        &&& self.program_id@ == other.program_id@
    }

    /// Re-derive both addresses from the record's bumps and compare them with
    /// the supplied ones, failing closed on any mismatch.
    fn keys_check(&self, rec: &VaultState) -> (r: bool)
        requires
            self.wf(),
        ensures
            r == self.keys_match(*rec),
    {
        let derived_state = derive_address(state_tag(), &self.user_key, rec.state_bump, &self.program_id);
        let state_ok = match &derived_state {
            Some(address) => bytes_equal(address, &self.state_key),
            None => false,
        };
        if !state_ok {
            return false;
        }
        let derived_vault = derive_address(vault_tag(), &self.state_key, rec.vault_bump, &self.program_id);
        match &derived_vault {
            Some(address) => bytes_equal(address, &self.vault_key),
            None => false,
        }
    }
}

/// What `initialize` ensures, relating the accounts before and after the call
/// to its result: the state address must match the found derivation for the
/// user, no record may exist yet, the vault address must match the found
/// derivation for the state address, and then the reserve moves from the user
/// to the vault and the record is created with the two found bumps. On every
/// failure the ledger is unchanged.
pub open spec fn initialize_post(pre: VaultAccounts, post: VaultAccounts, r: Result<(), VaultError>) -> bool {
    &&& post.wf()
    &&& post.same_identities(pre)
    &&& (match found_address(seq![state_tag_view(), pre.user_key@], pre.program_id@) {
        None => r == Err::<(), VaultError>(VaultError::AddressMismatch) && post.ledger() == pre.ledger(),
        Some(state_found) => if state_found.0 != pre.state_key@ {
            r == Err::<(), VaultError>(VaultError::AddressMismatch) && post.ledger() == pre.ledger()
        } else if pre.record is Some {
            r == Err::<(), VaultError>(VaultError::RecordAlreadyExists) && post.ledger() == pre.ledger()
        } else {
            match found_address(seq![vault_tag_view(), pre.state_key@], pre.program_id@) {
                None => r == Err::<(), VaultError>(VaultError::AddressMismatch) && post.ledger() == pre.ledger(),
                Some(vault_found) => if vault_found.0 != pre.vault_key@ {
                    r == Err::<(), VaultError>(VaultError::AddressMismatch) && post.ledger() == pre.ledger()
                } else {
                    let bumps = VaultState { vault_bump: vault_found.1, state_bump: state_found.1 };
                    let step = open_tr(pre.ledger(), bumps, min_reserve(0) as int);
                    &&& post.ledger() == step.0
                    &&& r == step.1
                    &&& r is Ok ==> post.keys_match(bumps)
                },
            }
        },
    })
}

/// What `deposit` ensures: with no record the operation reports
/// `RecordNotFound`; with a record whose derivation proof fails it reports
/// `AddressMismatch`; otherwise it takes the deposit step. On every failure
/// the ledger is unchanged.
pub open spec fn deposit_post(pre: VaultAccounts, post: VaultAccounts, amount: u64, r: Result<(), VaultError>) -> bool {
    &&& post.wf()
    &&& post.same_identities(pre)
    &&& (match pre.record {
        None => r == Err::<(), VaultError>(VaultError::RecordNotFound) && post.ledger() == pre.ledger(),
        Some(rec) => if pre.keys_match(rec) {
            let step = deposit_tr(pre.ledger(), amount as int);
            post.ledger() == step.0 && r == step.1
        } else {
            r == Err::<(), VaultError>(VaultError::AddressMismatch) && post.ledger() == pre.ledger()
        },
    })
}

/// What `withdraw` ensures: with no record the operation reports
/// `RecordNotFound`; with a record whose derivation proof fails it reports
/// `AddressMismatch`; otherwise it takes the withdraw step, whose reserve is
/// the minimum balance of a zero-length account. On every failure the ledger
/// is unchanged.
pub open spec fn withdraw_post(pre: VaultAccounts, post: VaultAccounts, amount: u64, r: Result<(), VaultError>) -> bool {
    &&& post.wf()
    &&& post.same_identities(pre)
    &&& (match pre.record {
        None => r == Err::<(), VaultError>(VaultError::RecordNotFound) && post.ledger() == pre.ledger(),
        Some(rec) => if pre.keys_match(rec) {
            let step = withdraw_tr(pre.ledger(), amount as int, min_reserve(0) as int);
            post.ledger() == step.0 && r == step.1
        } else {
            r == Err::<(), VaultError>(VaultError::AddressMismatch) && post.ledger() == pre.ledger()
        },
    })
}

/// What `close` ensures: with no record the operation reports
/// `RecordNotFound`; with a record whose derivation proof fails it reports
/// `AddressMismatch`; otherwise it drains the vault's entire balance to the
/// user and deletes the record. On every failure the ledger is unchanged.
pub open spec fn close_post(pre: VaultAccounts, post: VaultAccounts, r: Result<(), VaultError>) -> bool {
    &&& post.wf()
    &&& post.same_identities(pre)
    &&& (match pre.record {
        None => r == Err::<(), VaultError>(VaultError::RecordNotFound) && post.ledger() == pre.ledger(),
        Some(rec) => if pre.keys_match(rec) {
            let step = close_tr(pre.ledger());
            post.ledger() == step.0 && r == step.1
        } else {
            r == Err::<(), VaultError>(VaultError::AddressMismatch) && post.ledger() == pre.ledger()
        },
    })
}

/// The accounts of an `initialize` invocation.
pub struct Initialize {
    pub accounts: VaultAccounts,
}

impl Initialize {
    /// Open the vault: find the bumps for both addresses, validate the
    /// supplied addresses against them, persist the bumps in a fresh record,
    /// and fund the vault with the reserve that keeps it exempt from
    /// storage-cost reclamation, paid from the user's balance under the
    /// user's own authority.
    pub fn initialize(&mut self) -> (r: Result<(), VaultError>)
        requires
            old(self).accounts.wf(),
        ensures
            initialize_post(old(self).accounts, final(self).accounts, r),
    {
        let state_found = match find_address(state_tag(), &self.accounts.user_key, &self.accounts.program_id) {
            None => return Err(VaultError::AddressMismatch),
            Some(found) => found,
        };
        if !bytes_equal(&state_found.0, &self.accounts.state_key) {
            return Err(VaultError::AddressMismatch);
        }
        if self.accounts.record.is_some() {
            return Err(VaultError::RecordAlreadyExists);
        }
        let vault_found = match find_address(vault_tag(), &self.accounts.state_key, &self.accounts.program_id) {
            None => return Err(VaultError::AddressMismatch),
            Some(found) => found,
        };
        if !bytes_equal(&vault_found.0, &self.accounts.vault_key) {
            return Err(VaultError::AddressMismatch);
        }
        let reserve = rent_minimum_balance(0);
        if self.accounts.user_lamports < reserve {
            return Err(VaultError::InsufficientFunds);
        }
        self.accounts.user_lamports = self.accounts.user_lamports - reserve;
        self.accounts.vault_lamports = self.accounts.vault_lamports + reserve;
        self.accounts.record = Some(
            VaultState { vault_bump: vault_found.1, state_bump: state_found.1 },
        );
        Ok(())
    }
}

/// The accounts of a `deposit` invocation.
pub struct Deposit {
    pub accounts: VaultAccounts,
}

impl Deposit {
    /// Move `amount` from the user's balance into the vault, under the
    /// user's own authority, after proving the derivation of both supplied
    /// addresses from the persisted bumps. The record is not mutated.
    pub fn deposit(&mut self, amount: u64) -> (r: Result<(), VaultError>)
        requires
            old(self).accounts.wf(),
        ensures
            deposit_post(old(self).accounts, final(self).accounts, amount, r),
    {
        let rec = match self.accounts.record {
            None => return Err(VaultError::RecordNotFound),
            Some(rec) => rec,
        };
        if !self.accounts.keys_check(&rec) {
            return Err(VaultError::AddressMismatch);
        }
        if self.accounts.user_lamports < amount {
            return Err(VaultError::InsufficientFunds);
        }
        self.accounts.user_lamports = self.accounts.user_lamports - amount;
        self.accounts.vault_lamports = self.accounts.vault_lamports + amount;
        Ok(())
    }
}

/// The accounts of a `withdraw` invocation.
pub struct Withdraw {
    pub accounts: VaultAccounts,
}

impl Withdraw {
    /// Move `amount` out of the vault to the user, authorized by the
    /// derivation proof reconstructed from the persisted bumps, provided the
    /// vault keeps at least the reserve of a zero-length account afterwards.
    /// The record is not mutated.
    pub fn withdraw(&mut self, amount: u64) -> (r: Result<(), VaultError>)
        requires
            old(self).accounts.wf(),
        ensures
            withdraw_post(old(self).accounts, final(self).accounts, amount, r),
    {
        let rec = match self.accounts.record {
            None => return Err(VaultError::RecordNotFound),
            Some(rec) => rec,
        };
        if !self.accounts.keys_check(&rec) {
            return Err(VaultError::AddressMismatch);
        }
        let reserve = rent_minimum_balance(0);
        let vault_balance = self.accounts.vault_lamports;
        if vault_balance < reserve || vault_balance - reserve < amount {
            return Err(VaultError::InsufficientFunds);
        }
        self.accounts.vault_lamports = self.accounts.vault_lamports - amount;
        self.accounts.user_lamports = self.accounts.user_lamports + amount;
        Ok(())
    }
}

/// The accounts of a `close` invocation.
pub struct Close {
    pub accounts: VaultAccounts,
}

impl Close {
    /// Tear the vault down: drain its entire balance (not bounded by the
    /// reserve) to the user, authorized by the derivation proof, and delete
    /// the record.
    pub fn close(&mut self) -> (r: Result<(), VaultError>)
        requires
            old(self).accounts.wf(),
        ensures
            close_post(old(self).accounts, final(self).accounts, r),
    {
        let rec = match self.accounts.record {
            None => return Err(VaultError::RecordNotFound),
            Some(rec) => rec,
        };
        if !self.accounts.keys_check(&rec) {
            return Err(VaultError::AddressMismatch);
        }
        self.accounts.user_lamports = self.accounts.user_lamports + self.accounts.vault_lamports;
        self.accounts.vault_lamports = 0;
        self.accounts.record = None;
        Ok(())
    }
}

/// Entry point of the open operation.
pub fn initialize(ctx: &mut Initialize) -> (r: Result<(), VaultError>)
    requires
        old(ctx).accounts.wf(),
    ensures
        initialize_post(old(ctx).accounts, final(ctx).accounts, r),
{
    ctx.initialize()
}

/// Entry point of the deposit operation.
pub fn deposit(ctx: &mut Deposit, amount: u64) -> (r: Result<(), VaultError>)
    requires
        old(ctx).accounts.wf(),
    ensures
        deposit_post(old(ctx).accounts, final(ctx).accounts, amount, r),
{
    ctx.deposit(amount)
}

/// Entry point of the withdraw operation.
pub fn withdraw(ctx: &mut Withdraw, amount: u64) -> (r: Result<(), VaultError>)
    requires
        old(ctx).accounts.wf(),
    ensures
        withdraw_post(old(ctx).accounts, final(ctx).accounts, amount, r),
{
    ctx.withdraw(amount)
}

/// Entry point of the close operation.
pub fn close(ctx: &mut Close) -> (r: Result<(), VaultError>)
    requires
        old(ctx).accounts.wf(),
    ensures
        close_post(old(ctx).accounts, final(ctx).accounts, r),
{
    ctx.close()
}

/// Law: a successful open followed immediately by a close restores the user's
/// balance exactly, empties the vault and leaves no record — stated over the
/// contracts of the two operations, for any pair of invocations in which the
/// second starts from the accounts the first left behind.
pub proof fn lemma_open_close_round_trip(
    pre: VaultAccounts,
    mid: VaultAccounts,
    post: VaultAccounts,
    r1: Result<(), VaultError>,
    r2: Result<(), VaultError>,
)
    requires
        pre.record is None,
        pre.vault_lamports == 0,
        initialize_post(pre, mid, r1),
        r1 is Ok,
        close_post(mid, post, r2),
    ensures
        r2 is Ok,
        post.ledger().user_lamports == pre.ledger().user_lamports,
        post.ledger().vault_lamports == 0,
        post.record is None,
{
}

/// Law: opening twice without an intervening close fails — the second open
/// reports `RecordAlreadyExists` and leaves the ledger exactly as the first
/// open left it.
pub proof fn lemma_second_open_contract_fails(
    pre: VaultAccounts,
    mid: VaultAccounts,
    post: VaultAccounts,
    r1: Result<(), VaultError>,
    r2: Result<(), VaultError>,
)
    requires
        initialize_post(pre, mid, r1),
        r1 is Ok,
        initialize_post(mid, post, r2),
    ensures
        r2 == Err::<(), VaultError>(VaultError::RecordAlreadyExists),
        post.ledger() == mid.ledger(),
{
}

/// Law: on an open vault whose derivation proof checks out, a deposit the
/// user can fund succeeds and moves exactly `amount` from the user's balance
/// to the vault's balance, leaving the record as it was.
pub proof fn lemma_deposit_contract_moves_exact_amount(
    pre: VaultAccounts,
    post: VaultAccounts,
    amount: u64,
    r: Result<(), VaultError>,
)
    requires
        pre.record matches Some(rec) && pre.keys_match(rec),
        amount <= pre.user_lamports,
        deposit_post(pre, post, amount, r),
    ensures
        r is Ok,
        post.ledger().user_lamports == pre.ledger().user_lamports - amount,
        post.ledger().vault_lamports == pre.ledger().vault_lamports + amount,
        post.record == pre.record,
{
}

/// Law: on an open vault whose derivation proof checks out, a withdrawal that
/// would dip into the reserve fails with `InsufficientFunds` and changes
/// nothing.
pub proof fn lemma_withdraw_contract_below_reserve_fails(
    pre: VaultAccounts,
    post: VaultAccounts,
    amount: u64,
    r: Result<(), VaultError>,
)
    requires
        pre.record matches Some(rec) && pre.keys_match(rec),
        pre.vault_lamports < amount + min_reserve(0),
        withdraw_post(pre, post, amount, r),
    ensures
        r == Err::<(), VaultError>(VaultError::InsufficientFunds),
        post.ledger() == pre.ledger(),
{
}

/// Law: on an open vault whose derivation proof checks out, a withdrawal the
/// vault can cover above its reserve succeeds and moves exactly `amount` from
/// the vault's balance to the user's balance, leaving the record as it was.
pub proof fn lemma_withdraw_contract_moves_exact_amount(
    pre: VaultAccounts,
    post: VaultAccounts,
    amount: u64,
    r: Result<(), VaultError>,
)
    requires
        pre.wf(),
        pre.record matches Some(rec) && pre.keys_match(rec),
        pre.vault_lamports >= amount + min_reserve(0),
        withdraw_post(pre, post, amount, r),
    ensures
        r is Ok,
        post.ledger().vault_lamports == pre.ledger().vault_lamports - amount,
        post.ledger().user_lamports == pre.ledger().user_lamports + amount,
        post.record == pre.record,
{
}

/// Law: a successful close leaves a ledger on which deposit, withdraw and
/// close all report `RecordNotFound` and change nothing, until the vault is
/// opened again.
pub proof fn lemma_closed_vault_contract_rejects_operations(
    mid: VaultAccounts,
    post: VaultAccounts,
    next: VaultAccounts,
    amount: u64,
    r2: Result<(), VaultError>,
    r3: Result<(), VaultError>,
)
    requires
        close_post(mid, post, r2),
        r2 is Ok,
    ensures
        deposit_post(post, next, amount, r3) ==> r3 == Err::<(), VaultError>(
            VaultError::RecordNotFound,
        ) && next.ledger() == post.ledger(),
        withdraw_post(post, next, amount, r3) ==> r3 == Err::<(), VaultError>(
            VaultError::RecordNotFound,
        ) && next.ledger() == post.ledger(),
        close_post(post, next, r3) ==> r3 == Err::<(), VaultError>(
            VaultError::RecordNotFound,
        ) && next.ledger() == post.ledger(),
{
}

} // verus!
