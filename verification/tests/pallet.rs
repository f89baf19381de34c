use migration::{
    AccountId, DispatchError, Error, GenesisConfig, IdentityConversion, InMemoryLedger, Ledger,
    Pallet,
};

const TOKEN_ID: u32 = 1;

fn account_from_seed(seed: &str) -> AccountId {
    let mut bytes = [0u8; 32];
    let seed_bytes = seed.as_bytes();
    let mut i: usize = 0;
    while i < seed_bytes.len() && i < 32 {
        bytes[i] = seed_bytes[i];
        i += 1;
    }
    AccountId { bytes }
}

fn get_users() -> Vec<AccountId> {
    vec![
        account_from_seed("Alice"),
        account_from_seed("Bob"),
        account_from_seed("Charlie"),
    ]
}

fn new_test_ext(
    vault_total: u128,
    migration_vault_account: AccountId,
    migration_owner_account: AccountId,
) -> (Pallet, InMemoryLedger) {
    let genesis = GenesisConfig {
        migration_vault_account: Some(migration_vault_account),
        migration_owner: Some(migration_owner_account),
        asset_id: Some(TOKEN_ID),
    };
    let (pallet, diagnostics) = genesis.build();
    assert!(diagnostics.is_empty());
    let mut ledger = InMemoryLedger::new();
    ledger
        .mint_into(TOKEN_ID, migration_vault_account, vault_total)
        .unwrap();
    (pallet, ledger)
}

#[test]
fn correct_error_for_unauthorised() {
    let users = get_users();
    let account1 = users[0];
    let account2 = users[1];
    let account3 = users[2];
    let signer = account1;
    let migration_vault_account = account_from_seed("MigrationVault");
    let migration_owner_account = account2;

    let (pallet, mut ledger) = new_test_ext(1000, migration_vault_account, migration_owner_account);

    let result = pallet.migrate::<IdentityConversion, InMemoryLedger>(
        &mut ledger,
        signer,
        account3.bytes,
        account3,
        50,
    );
    assert_eq!(result, Err(DispatchError::Module(Error::Unauthorised)));
}

#[test]
fn migration_should_work_for_correct_values() {
    let users = get_users();
    let account1 = users[0];
    let account2 = users[1];
    let account3 = users[2];
    let signer = account1;
    let migration_vault_account = account_from_seed("MigrationVault");
    let migration_owner_account = account1;
    let vault_total = 1000;
    let migrate_amount = 50;

    let (pallet, mut ledger) = new_test_ext(vault_total, migration_vault_account, migration_owner_account);

    let result = pallet.migrate::<IdentityConversion, InMemoryLedger>(
        &mut ledger,
        signer,
        account2.bytes,
        account3,
        migrate_amount,
    );
    assert!(result.is_ok());

    let token_id = pallet.get_token_id().unwrap();

    let vault_balance = ledger.balance(token_id, migration_vault_account);
    let account_balance = ledger.balance(token_id, account3);

    assert_eq!(vault_balance, vault_total - migrate_amount);
    assert_eq!(account_balance, migrate_amount);

    assert_eq!(
        result.unwrap(),
        migration::Event::BalanceMigrated {
            amount: migrate_amount,
            from_vault: migration_vault_account,
            for_account: account2.bytes,
            to_account: account3,
            vault_balance_remained: vault_total - migrate_amount,
            account_balance_after: migrate_amount,
        }
    );
}

#[test]
fn double_migration_should_work_for_correct_values() {
    let users = get_users();
    let account1 = users[0];
    let account2 = users[1];
    let account3 = users[2];
    let signer = account1;
    let migration_vault_account = account_from_seed("MigrationVault");
    let migration_owner_account = account1;
    let vault_total = 1000;
    let migrate_amount1 = 50;
    let migrate_amount2 = 50;

    let (pallet, mut ledger) = new_test_ext(vault_total, migration_vault_account, migration_owner_account);

    let result = pallet.migrate::<IdentityConversion, InMemoryLedger>(
        &mut ledger,
        signer,
        account2.bytes,
        account3,
        migrate_amount1,
    );
    assert!(result.is_ok());

    let token_id = pallet.get_token_id().unwrap();

    let mut vault_balance = ledger.balance(token_id, migration_vault_account);
    let mut account_balance = ledger.balance(token_id, account3);

    assert_eq!(vault_balance, vault_total - migrate_amount1);
    assert_eq!(account_balance, migrate_amount1);

    assert_eq!(
        result.unwrap(),
        migration::Event::BalanceMigrated {
            amount: migrate_amount1,
            from_vault: migration_vault_account,
            for_account: account2.bytes,
            to_account: account3,
            vault_balance_remained: vault_total - migrate_amount1,
            account_balance_after: migrate_amount1,
        }
    );

    let result = pallet.migrate::<IdentityConversion, InMemoryLedger>(
        &mut ledger,
        signer,
        account2.bytes,
        account3,
        migrate_amount2,
    );
    assert!(result.is_ok());

    vault_balance = ledger.balance(token_id, migration_vault_account);
    account_balance = ledger.balance(token_id, account3);

    assert_eq!(vault_balance, vault_total - migrate_amount1 - migrate_amount2);
    assert_eq!(account_balance, migrate_amount1 + migrate_amount2);

    assert_eq!(
        result.unwrap(),
        migration::Event::BalanceMigrated {
            amount: migrate_amount2,
            from_vault: migration_vault_account,
            for_account: account2.bytes,
            to_account: account3,
            vault_balance_remained: vault_total - migrate_amount1 - migrate_amount2,
            account_balance_after: migrate_amount1 + migrate_amount2,
        }
    );
}

#[test]
fn unauthorised_call_after_migrations_changes_nothing() {
    let users = get_users();
    let account1 = users[0];
    let account2 = users[1];
    let account3 = users[2];
    let migration_vault_account = account_from_seed("MigrationVault");

    let (pallet, mut ledger) = new_test_ext(1000, migration_vault_account, account1);

    for _ in 0..2 {
        let result = pallet.migrate::<IdentityConversion, InMemoryLedger>(
            &mut ledger,
            account1,
            account2.bytes,
            account3,
            50,
        );
        assert!(result.is_ok());
    }
    assert_eq!(ledger.balance(TOKEN_ID, migration_vault_account), 900);
    assert_eq!(ledger.balance(TOKEN_ID, account3), 100);

    let result = pallet.migrate::<IdentityConversion, InMemoryLedger>(
        &mut ledger,
        account2,
        account2.bytes,
        account3,
        25,
    );
    assert_eq!(result, Err(DispatchError::Module(Error::Unauthorised)));
    assert_eq!(ledger.balance(TOKEN_ID, migration_vault_account), 900);
    assert_eq!(ledger.balance(TOKEN_ID, account3), 100);
}

#[test]
fn unauthorised_even_for_zero_amount() {
    let users = get_users();
    let account1 = users[0];
    let account2 = users[1];
    let account3 = users[2];
    let vault = account_from_seed("MigrationVault");

    let (pallet, mut ledger) = new_test_ext(1000, vault, account1);

    let result = pallet.migrate::<IdentityConversion, InMemoryLedger>(
        &mut ledger,
        account2,
        account3.bytes,
        account3,
        0,
    );
    assert_eq!(result, Err(DispatchError::Module(Error::Unauthorised)));
}

#[test]
fn missing_vault_account_error_comes_first() {
    let genesis = GenesisConfig {
        migration_vault_account: None,
        migration_owner: None,
        asset_id: None,
    };
    let (pallet, _diagnostics) = genesis.build();
    let mut ledger = InMemoryLedger::new();
    let caller = account_from_seed("Alice");
    let dest = account_from_seed("Bob");

    let result = pallet.migrate::<IdentityConversion, InMemoryLedger>(
        &mut ledger,
        caller,
        dest.bytes,
        dest,
        50,
    );
    assert_eq!(
        result,
        Err(DispatchError::Module(Error::MigrationVaultAccountNoValue))
    );
}

#[test]
fn missing_owner_account_error() {
    let vault = account_from_seed("MigrationVault");
    let genesis = GenesisConfig {
        migration_vault_account: Some(vault),
        migration_owner: None,
        asset_id: None,
    };
    let (pallet, _diagnostics) = genesis.build();
    let mut ledger = InMemoryLedger::new();
    let caller = account_from_seed("Alice");
    let dest = account_from_seed("Bob");

    let result = pallet.migrate::<IdentityConversion, InMemoryLedger>(
        &mut ledger,
        caller,
        dest.bytes,
        dest,
        50,
    );
    assert_eq!(
        result,
        Err(DispatchError::Module(Error::MigrationOwnerNoValue))
    );
}

#[test]
fn missing_asset_id_error() {
    let vault = account_from_seed("MigrationVault");
    let owner = account_from_seed("Alice");
    let genesis = GenesisConfig {
        migration_vault_account: Some(vault),
        migration_owner: Some(owner),
        asset_id: None,
    };
    let (pallet, _diagnostics) = genesis.build();
    let mut ledger = InMemoryLedger::new();
    let dest = account_from_seed("Bob");

    let result = pallet.migrate::<IdentityConversion, InMemoryLedger>(
        &mut ledger,
        owner,
        dest.bytes,
        dest,
        50,
    );
    assert_eq!(result, Err(DispatchError::Module(Error::AssetIdNoValue)));
}

#[test]
fn failed_calls_leave_balances_untouched() {
    let users = get_users();
    let account1 = users[0];
    let account2 = users[1];
    let vault = account_from_seed("MigrationVault");

    let (pallet, mut ledger) = new_test_ext(1000, vault, account1);

    // unauthorized caller
    let result = pallet.migrate::<IdentityConversion, InMemoryLedger>(
        &mut ledger,
        account2,
        account2.bytes,
        account2,
        50,
    );
    assert!(result.is_err());
    // ledger refusal: more than the vault holds
    let result = pallet.migrate::<IdentityConversion, InMemoryLedger>(
        &mut ledger,
        account1,
        account2.bytes,
        account2,
        2000,
    );
    assert!(result.is_err());

    assert_eq!(ledger.balance(TOKEN_ID, vault), 1000);
    assert_eq!(ledger.balance(TOKEN_ID, account2), 0);
    assert_eq!(pallet.get_vault(), Some(vault));
    assert_eq!(pallet.get_owner(), Some(account1));
    assert_eq!(pallet.get_token_id(), Some(TOKEN_ID));
}

#[test]
fn correlation_reference_passes_through_unchanged() {
    let users = get_users();
    let account1 = users[0];
    let account3 = users[2];
    let vault = account_from_seed("MigrationVault");

    let (pallet, mut ledger) = new_test_ext(1000, vault, account1);

    let mut reference = [0u8; 32];
    let mut i: usize = 0;
    while i < 32 {
        reference[i] = i as u8;
        i += 1;
    }

    let result = pallet.migrate::<IdentityConversion, InMemoryLedger>(
        &mut ledger,
        account1,
        reference,
        account3,
        50,
    );
    match result.unwrap() {
        migration::Event::BalanceMigrated { for_account, .. } => {
            assert_eq!(for_account, reference);
        }
    }
}

#[test]
fn ledger_insufficient_balance_passes_through() {
    let users = get_users();
    let account1 = users[0];
    let account3 = users[2];
    let vault = account_from_seed("MigrationVault");

    let (pallet, mut ledger) = new_test_ext(1000, vault, account1);

    let result = pallet.migrate::<IdentityConversion, InMemoryLedger>(
        &mut ledger,
        account1,
        account3.bytes,
        account3,
        1001,
    );
    assert_eq!(
        result,
        Err(DispatchError::Ledger(
            migration::LedgerError::InsufficientBalance
        ))
    );
    assert_eq!(ledger.balance(TOKEN_ID, vault), 1000);
}

#[test]
fn ledger_overflow_passes_through() {
    let users = get_users();
    let account1 = users[0];
    let account3 = users[2];
    let vault = account_from_seed("MigrationVault");

    let (pallet, mut ledger) = new_test_ext(1000, vault, account1);
    ledger.mint_into(TOKEN_ID, account3, u128::MAX - 10).unwrap();

    let result = pallet.migrate::<IdentityConversion, InMemoryLedger>(
        &mut ledger,
        account1,
        account3.bytes,
        account3,
        50,
    );
    assert_eq!(
        result,
        Err(DispatchError::Ledger(migration::LedgerError::Overflow))
    );
    assert_eq!(ledger.balance(TOKEN_ID, vault), 1000);
    assert_eq!(ledger.balance(TOKEN_ID, account3), u128::MAX - 10);
}

#[test]
fn migration_to_vault_itself_changes_nothing() {
    let account1 = account_from_seed("Alice");
    let vault = account_from_seed("MigrationVault");

    let (pallet, mut ledger) = new_test_ext(1000, vault, account1);

    let result = pallet.migrate::<IdentityConversion, InMemoryLedger>(
        &mut ledger,
        account1,
        vault.bytes,
        vault,
        50,
    );
    assert!(result.is_ok());
    assert_eq!(ledger.balance(TOKEN_ID, vault), 1000);
}
