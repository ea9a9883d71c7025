use anchor_lang::prelude::{Pubkey, Rent};
use anchor_vault::operations::{
    close, deposit, initialize, withdraw, Close, Deposit, Initialize, VaultAccounts, Withdraw,
};
use anchor_vault::{VaultError, VaultState};

const PROGRAM_ID: [u8; 32] = [7u8; 32];
const USER_KEY: [u8; 32] = [1u8; 32];

fn reserve() -> u64 {
    Rent::default().minimum_balance(0)
}

/// The canonical addresses and bumps for `USER_KEY`, computed with the same
/// derivation the library relies on.
fn derived_keys() -> (Vec<u8>, u8, Vec<u8>, u8) {
    let program = Pubkey::new_from_array(PROGRAM_ID);
    let (state, state_bump) = Pubkey::find_program_address(&[b"state", &USER_KEY], &program);
    let (vault, vault_bump) =
        Pubkey::find_program_address(&[b"vault", &state.to_bytes()], &program);
    (
        state.to_bytes().to_vec(),
        state_bump,
        vault.to_bytes().to_vec(),
        vault_bump,
    )
}

fn accounts(
    user_lamports: u64,
    vault_lamports: u64,
    record: Option<VaultState>,
) -> VaultAccounts {
    let (state_key, _, vault_key, _) = derived_keys();
    VaultAccounts {
        user_key: USER_KEY.to_vec(),
        user_lamports,
        state_key,
        record,
        vault_key,
        vault_lamports,
        program_id: PROGRAM_ID.to_vec(),
    }
}

#[test]
fn reserve_matches_default_rent_schedule() {
    // (128 bytes of overhead * 3480 lamports per byte-year) * threshold of 2 years.
    assert_eq!(reserve(), 890_880);
}

#[test]
fn scenario_full_lifecycle() {
    let r = reserve();
    let start = 2 * r + 1000;
    let (_, state_bump, _, vault_bump) = derived_keys();

    let mut open_ctx = Initialize {
        accounts: accounts(start, 0, None),
    };
    assert_eq!(initialize(&mut open_ctx), Ok(()));
    assert_eq!(open_ctx.accounts.user_lamports, start - r);
    assert_eq!(open_ctx.accounts.vault_lamports, r);
    let record = open_ctx.accounts.record;
    assert_eq!(
        record,
        Some(VaultState {
            vault_bump,
            state_bump,
        })
    );

    let mut deposit_ctx = Deposit {
        accounts: accounts(start - r, r, record),
    };
    assert_eq!(deposit(&mut deposit_ctx, 500), Ok(()));
    assert_eq!(deposit_ctx.accounts.user_lamports, start - r - 500);
    assert_eq!(deposit_ctx.accounts.vault_lamports, r + 500);
    assert_eq!(deposit_ctx.accounts.record, record);

    let mut withdraw_ctx = Withdraw {
        accounts: accounts(start - r - 500, r + 500, record),
    };
    assert_eq!(withdraw(&mut withdraw_ctx, 400), Ok(()));
    assert_eq!(withdraw_ctx.accounts.user_lamports, start - r - 100);
    assert_eq!(withdraw_ctx.accounts.vault_lamports, r + 100);
    assert_eq!(withdraw_ctx.accounts.record, record);

    let mut close_ctx = Close {
        accounts: accounts(start - r - 100, r + 100, record),
    };
    assert_eq!(close(&mut close_ctx), Ok(()));
    assert_eq!(close_ctx.accounts.user_lamports, start);
    assert_eq!(close_ctx.accounts.vault_lamports, 0);
    assert_eq!(close_ctx.accounts.record, None);

    // With the record gone, every operation fails until the vault is opened
    // again.
    let mut late_deposit = Deposit {
        accounts: accounts(start, 0, None),
    };
    assert_eq!(
        deposit(&mut late_deposit, 1),
        Err(VaultError::RecordNotFound)
    );
    let mut late_withdraw = Withdraw {
        accounts: accounts(start, 0, None),
    };
    assert_eq!(
        withdraw(&mut late_withdraw, 1),
        Err(VaultError::RecordNotFound)
    );
    let mut late_close = Close {
        accounts: accounts(start, 0, None),
    };
    assert_eq!(close(&mut late_close), Err(VaultError::RecordNotFound));

    let mut reopen = Initialize {
        accounts: accounts(start, 0, None),
    };
    assert_eq!(initialize(&mut reopen), Ok(()));
    assert_eq!(reopen.accounts.record, record);
}

#[test]
fn open_then_close_restores_user_balance() {
    let r = reserve();
    let start = r + 75;
    let mut open_ctx = Initialize {
        accounts: accounts(start, 0, None),
    };
    assert_eq!(initialize(&mut open_ctx), Ok(()));
    let mut close_ctx = Close {
        accounts: accounts(
            open_ctx.accounts.user_lamports,
            open_ctx.accounts.vault_lamports,
            open_ctx.accounts.record,
        ),
    };
    assert_eq!(close(&mut close_ctx), Ok(()));
    assert_eq!(close_ctx.accounts.user_lamports, start);
    assert_eq!(close_ctx.accounts.vault_lamports, 0);
    assert_eq!(close_ctx.accounts.record, None);
}

#[test]
fn second_open_fails_and_changes_nothing() {
    let r = reserve();
    let mut open_ctx = Initialize {
        accounts: accounts(3 * r, 0, None),
    };
    assert_eq!(initialize(&mut open_ctx), Ok(()));
    let mut again = Initialize {
        accounts: accounts(
            open_ctx.accounts.user_lamports,
            open_ctx.accounts.vault_lamports,
            open_ctx.accounts.record,
        ),
    };
    assert_eq!(initialize(&mut again), Err(VaultError::RecordAlreadyExists));
    assert_eq!(again.accounts.user_lamports, open_ctx.accounts.user_lamports);
    assert_eq!(again.accounts.vault_lamports, open_ctx.accounts.vault_lamports);
    assert_eq!(again.accounts.record, open_ctx.accounts.record);
}

#[test]
fn initialize_requires_reserve_funding() {
    let r = reserve();
    let mut poor = Initialize {
        accounts: accounts(r - 1, 0, None),
    };
    assert_eq!(initialize(&mut poor), Err(VaultError::InsufficientFunds));
    assert_eq!(poor.accounts.user_lamports, r - 1);
    assert_eq!(poor.accounts.vault_lamports, 0);
    assert_eq!(poor.accounts.record, None);

    let mut exact = Initialize {
        accounts: accounts(r, 0, None),
    };
    assert_eq!(initialize(&mut exact), Ok(()));
    assert_eq!(exact.accounts.user_lamports, 0);
    assert_eq!(exact.accounts.vault_lamports, r);
}

#[test]
fn deposit_moves_exact_amount() {
    let (_, state_bump, _, vault_bump) = derived_keys();
    let record = Some(VaultState {
        vault_bump,
        state_bump,
    });
    let mut ctx = Deposit {
        accounts: accounts(1000, 40, record),
    };
    assert_eq!(deposit(&mut ctx, 1000), Ok(()));
    assert_eq!(ctx.accounts.user_lamports, 0);
    assert_eq!(ctx.accounts.vault_lamports, 1040);
}

#[test]
fn deposit_rejects_unfunded_amount() {
    let (_, state_bump, _, vault_bump) = derived_keys();
    let record = Some(VaultState {
        vault_bump,
        state_bump,
    });
    let mut ctx = Deposit {
        accounts: accounts(999, 40, record),
    };
    assert_eq!(deposit(&mut ctx, 1000), Err(VaultError::InsufficientFunds));
    assert_eq!(ctx.accounts.user_lamports, 999);
    assert_eq!(ctx.accounts.vault_lamports, 40);
}

#[test]
fn withdraw_keeps_the_reserve() {
    let r = reserve();
    let (_, state_bump, _, vault_bump) = derived_keys();
    let record = Some(VaultState {
        vault_bump,
        state_bump,
    });

    let mut too_much = Withdraw {
        accounts: accounts(10, r + 100, record),
    };
    assert_eq!(
        withdraw(&mut too_much, 101),
        Err(VaultError::InsufficientFunds)
    );
    assert_eq!(too_much.accounts.user_lamports, 10);
    assert_eq!(too_much.accounts.vault_lamports, r + 100);

    let mut at_limit = Withdraw {
        accounts: accounts(10, r + 100, record),
    };
    assert_eq!(withdraw(&mut at_limit, 100), Ok(()));
    assert_eq!(at_limit.accounts.user_lamports, 110);
    assert_eq!(at_limit.accounts.vault_lamports, r);
}

#[test]
fn operations_without_record_report_record_not_found() {
    let mut no_deposit = Deposit {
        accounts: accounts(100, 0, None),
    };
    assert_eq!(
        deposit(&mut no_deposit, 10),
        Err(VaultError::RecordNotFound)
    );

    let mut no_withdraw = Withdraw {
        accounts: accounts(100, 0, None),
    };
    assert_eq!(
        withdraw(&mut no_withdraw, 10),
        Err(VaultError::RecordNotFound)
    );

    let mut no_close = Close {
        accounts: accounts(100, 0, None),
    };
    assert_eq!(close(&mut no_close), Err(VaultError::RecordNotFound));
}

#[test]
fn tampered_addresses_are_rejected() {
    let r = reserve();
    let (state_key, state_bump, vault_key, vault_bump) = derived_keys();
    let record = Some(VaultState {
        vault_bump,
        state_bump,
    });

    // A state address that was not derived for this user.
    let mut bad_state = Deposit {
        accounts: VaultAccounts {
            user_key: USER_KEY.to_vec(),
            user_lamports: 1000,
            state_key: USER_KEY.to_vec(),
            record,
            vault_key: vault_key.clone(),
            vault_lamports: r,
            program_id: PROGRAM_ID.to_vec(),
        },
    };
    assert_eq!(
        deposit(&mut bad_state, 10),
        Err(VaultError::AddressMismatch)
    );
    assert_eq!(bad_state.accounts.user_lamports, 1000);
    assert_eq!(bad_state.accounts.vault_lamports, r);

    // A wrong bump in the record must no longer re-derive the state address.
    let mut bad_bump = Withdraw {
        accounts: VaultAccounts {
            user_key: USER_KEY.to_vec(),
            user_lamports: 1000,
            state_key: state_key.clone(),
            record: Some(VaultState {
                vault_bump,
                state_bump: state_bump.wrapping_add(1),
            }),
            vault_key: vault_key.clone(),
            vault_lamports: 2 * r,
            program_id: PROGRAM_ID.to_vec(),
        },
    };
    assert_eq!(
        withdraw(&mut bad_bump, 1),
        Err(VaultError::AddressMismatch)
    );

    // A vault address not derived from the state address.
    let mut bad_vault = Initialize {
        accounts: VaultAccounts {
            user_key: USER_KEY.to_vec(),
            user_lamports: 2 * r,
            state_key: state_key.clone(),
            record: None,
            vault_key: state_key.clone(),
            vault_lamports: 0,
            program_id: PROGRAM_ID.to_vec(),
        },
    };
    assert_eq!(
        initialize(&mut bad_vault),
        Err(VaultError::AddressMismatch)
    );
    assert_eq!(bad_vault.accounts.user_lamports, 2 * r);
    assert_eq!(bad_vault.accounts.record, None);
}

#[test]
fn stored_bumps_authorize_later_operations() {
    let r = reserve();
    let mut open_ctx = Initialize {
        accounts: accounts(2 * r, 0, None),
    };
    assert_eq!(initialize(&mut open_ctx), Ok(()));
    // The bumps persisted at open re-derive both addresses, so a later
    // withdraw built from the same record passes the derivation proof.
    let mut withdraw_ctx = Withdraw {
        accounts: accounts(
            open_ctx.accounts.user_lamports,
            open_ctx.accounts.vault_lamports + 30,
            open_ctx.accounts.record,
        ),
    };
    assert_eq!(withdraw(&mut withdraw_ctx, 30), Ok(()));
    assert_eq!(withdraw_ctx.accounts.vault_lamports, r);
}
