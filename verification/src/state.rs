use vstd::prelude::*;
use crate::VaultError;

verus! {

/// The persisted metadata describing one user's vault: the two bump values
/// needed to re-derive its addresses and prove authorization. Both bumps are
/// fixed at creation and never change for the life of the record.
#[derive(Clone, Copy, Debug, PartialEq, Eq, Structural)]
pub struct VaultState {
    /// Disambiguating nonce used to derive the vault's fund-holding address.
    pub vault_bump: u8,
    /// Disambiguating nonce used to derive this record's own address.
    pub state_bump: u8,
}

/// The abstract ledger state that the four operations act on: the user's
/// personal balance, the vault's balance, and the vault record (present
/// exactly while the vault is open).
pub ghost struct LedgerView {
    pub user_lamports: int,
    pub vault_lamports: int,
    pub record: Option<VaultState>,
}

/// A ledger state the host could actually hold: balances are unsigned and
/// their sum fits the native balance type, so no transfer between the two
/// parties can overflow.
pub open spec fn ledger_ok(s: LedgerView) -> bool {
    &&& 0 <= s.user_lamports
    &&& 0 <= s.vault_lamports
    &&& s.user_lamports + s.vault_lamports <= u64::MAX
}

/// Effect of `initialize` (opening the vault) on the ledger, once the supplied
/// addresses have been validated: fails if a record already exists or the user
/// cannot fund the reserve; otherwise moves the reserve from the user to the
/// vault and creates the record with the freshly found bumps.
pub open spec fn open_tr(s: LedgerView, bumps: VaultState, reserve: int) -> (LedgerView, Result<(), VaultError>) {
    match s.record {
        Some(_) => (s, Err(VaultError::RecordAlreadyExists)),
        None => if s.user_lamports < reserve {
            (s, Err(VaultError::InsufficientFunds))
        } else {
            (
                LedgerView {
                    user_lamports: s.user_lamports - reserve,
                    vault_lamports: s.vault_lamports + reserve,
                    record: Some(bumps),
                },
                Ok(()),
            )
        },
    }
}

/// Effect of `deposit` on the ledger: fails if no record exists or the user's
/// balance is short; otherwise moves exactly `amount` from the user to the
/// vault. The record is never mutated.
pub open spec fn deposit_tr(s: LedgerView, amount: int) -> (LedgerView, Result<(), VaultError>) {
    match s.record {
        None => (s, Err(VaultError::RecordNotFound)),
        Some(_) => if s.user_lamports < amount {
            (s, Err(VaultError::InsufficientFunds))
        } else {
            (
                LedgerView {
                    user_lamports: s.user_lamports - amount,
                    vault_lamports: s.vault_lamports + amount,
                    record: s.record,
                },
                Ok(()),
            )
        },
    }
}

/// Effect of `withdraw` on the ledger: fails if no record exists, or if taking
/// `amount` would leave the vault below the reserve that keeps it exempt from
/// storage-cost reclamation; otherwise moves exactly `amount` from the vault
/// to the user. The record is never mutated.
pub open spec fn withdraw_tr(s: LedgerView, amount: int, reserve: int) -> (LedgerView, Result<(), VaultError>) {
    match s.record {
        None => (s, Err(VaultError::RecordNotFound)),
        Some(_) => if s.vault_lamports < amount + reserve {
            (s, Err(VaultError::InsufficientFunds))
        } else {
            (
                LedgerView {
                    user_lamports: s.user_lamports + amount,
                    vault_lamports: s.vault_lamports - amount,
                    record: s.record,
                },
                Ok(()),
            )
        },
    }
}

/// Effect of `close` on the ledger: fails if no record exists; otherwise
/// drains the vault's entire balance (not bounded by the reserve) back to the
/// user and deletes the record.
pub open spec fn close_tr(s: LedgerView) -> (LedgerView, Result<(), VaultError>) {
    match s.record {
        None => (s, Err(VaultError::RecordNotFound)),
        Some(_) => (
            LedgerView {
                user_lamports: s.user_lamports + s.vault_lamports,
                vault_lamports: 0,
                record: None,
            },
            Ok(()),
        ),
    }
}

/// Every transition preserves the sum of the two balances: funds only move
/// between the user and the vault, they are never created or destroyed.
pub proof fn lemma_transitions_conserve_funds(s: LedgerView, bumps: VaultState, amount: int, reserve: int)
    ensures
        open_tr(s, bumps, reserve).0.user_lamports + open_tr(s, bumps, reserve).0.vault_lamports
            == s.user_lamports + s.vault_lamports,
        deposit_tr(s, amount).0.user_lamports + deposit_tr(s, amount).0.vault_lamports
            == s.user_lamports + s.vault_lamports,
        withdraw_tr(s, amount, reserve).0.user_lamports + withdraw_tr(s, amount, reserve).0.vault_lamports
            == s.user_lamports + s.vault_lamports,
        close_tr(s).0.user_lamports + close_tr(s).0.vault_lamports
            == s.user_lamports + s.vault_lamports,
{
}

/// Opening a fresh vault and closing it immediately restores the user's
/// balance exactly and leaves no record behind.
pub proof fn lemma_open_then_close_restores_balance(s: LedgerView, bumps: VaultState, reserve: int)
    requires
        ledger_ok(s),
        s.record is None,
        s.vault_lamports == 0,
        0 <= reserve,
    ensures
        ({
            let (s1, r1) = open_tr(s, bumps, reserve);
            r1 is Ok ==> {
                let (s2, r2) = close_tr(s1);
                &&& r2 is Ok
                &&& s2.user_lamports == s.user_lamports
                &&& s2.vault_lamports == 0
                &&& s2.record is None
            }
        }),
{
}

/// A deposit of `amount`, made while the vault is open and the user can cover
/// it, succeeds and moves exactly `amount` from the user's balance to the
/// vault's balance.
pub proof fn lemma_deposit_moves_exact_amount(s: LedgerView, amount: int)
    requires
        ledger_ok(s),
        s.record is Some,
        0 <= amount <= s.user_lamports,
    ensures
        ({
            let (s1, r1) = deposit_tr(s, amount);
            &&& r1 is Ok
            &&& s1.vault_lamports == s.vault_lamports + amount
            &&& s1.user_lamports == s.user_lamports - amount
            &&& s1.record == s.record
        }),
{
}

/// A withdrawal that would leave the vault below the reserve fails with
/// `InsufficientFunds` and changes nothing.
pub proof fn lemma_withdraw_below_reserve_fails(s: LedgerView, amount: int, reserve: int)
    requires
        s.record is Some,
        s.vault_lamports < amount + reserve,
    ensures
        withdraw_tr(s, amount, reserve).1 == Err::<(), VaultError>(VaultError::InsufficientFunds),
        withdraw_tr(s, amount, reserve).0 == s,
{
}

/// A withdrawal the vault can cover above its reserve succeeds and moves
/// exactly `amount` from the vault's balance to the user's balance.
pub proof fn lemma_withdraw_moves_exact_amount(s: LedgerView, amount: int, reserve: int)
    requires
        ledger_ok(s),
        s.record is Some,
        0 <= amount,
        s.vault_lamports >= amount + reserve,
    ensures
        ({
            let (s1, r1) = withdraw_tr(s, amount, reserve);
            &&& r1 is Ok
            &&& s1.vault_lamports == s.vault_lamports - amount
            &&& s1.user_lamports == s.user_lamports + amount
            &&& s1.record == s.record
        }),
{
}

/// Closing an open vault drains its entire balance to the user and removes the
/// record; after that, deposit, withdraw and close all fail with
/// `RecordNotFound` and leave the ledger unchanged, until the vault is opened
/// again.
pub proof fn lemma_close_drains_and_rejects_further_operations(s: LedgerView, amount: int, reserve: int)
    requires
        s.record is Some,
    ensures
        ({
            let (s1, r1) = close_tr(s);
            &&& r1 is Ok
            &&& s1.user_lamports == s.user_lamports + s.vault_lamports
            &&& s1.vault_lamports == 0
            &&& s1.record is None
            &&& deposit_tr(s1, amount) == (s1, Err::<(), VaultError>(VaultError::RecordNotFound))
            &&& withdraw_tr(s1, amount, reserve) == (s1, Err::<(), VaultError>(VaultError::RecordNotFound))
            &&& close_tr(s1) == (s1, Err::<(), VaultError>(VaultError::RecordNotFound))
        }),
{
}

/// Opening twice without an intervening close fails: the second `initialize`
/// reports `RecordAlreadyExists` and changes nothing.
pub proof fn lemma_second_open_fails(s: LedgerView, bumps1: VaultState, bumps2: VaultState, reserve: int)
    requires
        s.record is None,
        s.user_lamports >= reserve,
    ensures
        ({
            let (s1, r1) = open_tr(s, bumps1, reserve);
            &&& r1 is Ok
            &&& open_tr(s1, bumps2, reserve) == (s1, Err::<(), VaultError>(VaultError::RecordAlreadyExists))
        }),
{
}

} // verus!
