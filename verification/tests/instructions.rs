use whitelist_pda::{
    add_wallet, check_wallet, create_whitelist, find_wallet_address, find_whitelist_address,
    lookup_wallet, remove_wallet, set_authority, Account, AccountInfo, AddWallet, CheckWallet,
    CreateWhitelist, Pubkey, RemoveWallet, SetAuthority, Wallet, Whitelist, WhitelistError,
};

fn pubkey(byte: u8) -> Pubkey {
    Pubkey::new_from_array([byte; 32])
}

fn authority_of(byte: u8, lamports: u64) -> AccountInfo {
    AccountInfo { key: pubkey(byte), is_signer: true, lamports }
}

fn whitelist_of(authority: u8, counter: u64) -> Account<Whitelist> {
    let (address, _) = find_whitelist_address(&pubkey(authority)).unwrap();
    Account {
        key: address,
        lamports: 500,
        data: Whitelist { authority: pubkey(authority), counter },
    }
}

fn record_of(whitelist: &Account<Whitelist>, wallet: u8, lamports: u64) -> Account<Wallet> {
    let (address, _) = find_wallet_address(&whitelist.key, &pubkey(wallet)).unwrap();
    Account { key: address, lamports, data: Wallet {} }
}

fn fresh_create(authority: AccountInfo, min_balance: u64) -> CreateWhitelist {
    let (address, _) = find_whitelist_address(&authority.key).unwrap();
    CreateWhitelist {
        authority,
        whitelist: Account {
            key: address,
            lamports: 0,
            data: Whitelist { authority: pubkey(0), counter: 0 },
        },
        min_balance,
    }
}

#[test]
fn whitelist_data_is_forty_bytes() {
    assert_eq!(Whitelist::LEN, 40);
}

#[test]
fn accounts_exist_while_they_hold_lamports() {
    let whitelist = whitelist_of(1, 0);
    assert!(whitelist.is_active());
    assert!(record_of(&whitelist, 2, 1).is_active());
    assert!(!record_of(&whitelist, 2, 0).is_active());
}

#[test]
fn authority_must_sign_and_match() {
    let whitelist = whitelist_of(1, 0).data;
    assert!(whitelist.is_authority(&authority_of(1, 0)));
    assert!(!whitelist.is_authority(&authority_of(2, 0)));
    assert!(!whitelist.is_authority(&AccountInfo { key: pubkey(1), is_signer: false, lamports: 0 }));
}

#[test]
fn create_whitelist_sets_authority_and_counter() {
    let mut ctx = fresh_create(authority_of(1, 2_500), 1_000);
    ctx.whitelist.data = Whitelist { authority: pubkey(9), counter: 77 };
    let address = ctx.whitelist.key;
    assert_eq!(create_whitelist(&mut ctx), Ok(()));
    assert_eq!(
        ctx,
        CreateWhitelist {
            authority: authority_of(1, 1_500),
            whitelist: Account {
                key: address,
                lamports: 1_000,
                data: Whitelist { authority: pubkey(1), counter: 0 },
            },
            min_balance: 1_000,
        }
    );
}

#[test]
fn create_whitelist_spends_the_last_lamport() {
    let mut ctx = fresh_create(authority_of(1, 1_000), 1_000);
    assert_eq!(create_whitelist(&mut ctx), Ok(()));
    assert_eq!(ctx.authority.lamports, 0);
    assert_eq!(ctx.whitelist.lamports, 1_000);
}

#[test]
fn create_whitelist_needs_a_signature() {
    let mut ctx = fresh_create(authority_of(1, 2_500), 1_000);
    ctx.authority.is_signer = false;
    let before = ctx;
    assert_eq!(create_whitelist(&mut ctx), Err(WhitelistError::Unauthorized));
    assert_eq!(ctx, before);
}

#[test]
fn create_whitelist_at_another_address() {
    let mut ctx = fresh_create(authority_of(1, 2_500), 1_000);
    ctx.whitelist.key = find_whitelist_address(&pubkey(2)).unwrap().0;
    let before = ctx;
    assert_eq!(create_whitelist(&mut ctx), Err(WhitelistError::MismatchedDerivation));
    assert_eq!(ctx, before);
    ctx.whitelist.key = pubkey(1);
    assert_eq!(create_whitelist(&mut ctx), Err(WhitelistError::MismatchedDerivation));
}

#[test]
fn create_whitelist_twice() {
    let mut ctx = fresh_create(authority_of(1, 2_500), 1_000);
    assert_eq!(create_whitelist(&mut ctx), Ok(()));
    let before = ctx;
    assert_eq!(create_whitelist(&mut ctx), Err(WhitelistError::InfrastructureError));
    assert_eq!(ctx, before);
}

#[test]
fn create_whitelist_without_funds() {
    let mut ctx = fresh_create(authority_of(1, 999), 1_000);
    let before = ctx;
    assert_eq!(create_whitelist(&mut ctx), Err(WhitelistError::InfrastructureError));
    assert_eq!(ctx, before);
    let mut ctx = fresh_create(authority_of(1, 999), 0);
    assert_eq!(create_whitelist(&mut ctx), Err(WhitelistError::InfrastructureError));
}

#[test]
fn create_whitelist_given_the_derived_address() {
    let mut ctx = fresh_create(authority_of(1, 2_500), 1_000);
    let address = ctx.whitelist.key;
    let before = ctx;
    assert_eq!(ctx.process(None), Err(WhitelistError::MismatchedDerivation));
    assert_eq!(ctx.process(Some((pubkey(1), 255))), Err(WhitelistError::MismatchedDerivation));
    assert_eq!(ctx, before);
    assert_eq!(ctx.process(Some((address, 3))), Ok(()));
    assert_eq!(ctx.whitelist.data, Whitelist { authority: pubkey(1), counter: 0 });
}

#[test]
fn add_wallet_creates_the_record_and_counts() {
    let whitelist = whitelist_of(1, 41);
    let record = record_of(&whitelist, 2, 0);
    let mut ctx =
        AddWallet { authority: authority_of(1, 900), whitelist, wallet_pda: record, min_balance: 300 };
    assert_eq!(add_wallet(&mut ctx, pubkey(2)), Ok(()));
    assert_eq!(
        ctx,
        AddWallet {
            authority: authority_of(1, 600),
            whitelist: Account {
                data: Whitelist { authority: pubkey(1), counter: 42 },
                ..whitelist
            },
            wallet_pda: Account { lamports: 300, ..record },
            min_balance: 300,
        }
    );
}

#[test]
fn add_wallet_by_someone_else() {
    let whitelist = whitelist_of(1, 0);
    let mut ctx = AddWallet {
        authority: authority_of(3, 900),
        whitelist,
        wallet_pda: record_of(&whitelist, 2, 0),
        min_balance: 300,
    };
    let before = ctx;
    assert_eq!(add_wallet(&mut ctx, pubkey(2)), Err(WhitelistError::Unauthorized));
    assert_eq!(ctx, before);
    ctx.authority = AccountInfo { key: pubkey(1), is_signer: false, lamports: 900 };
    assert_eq!(add_wallet(&mut ctx, pubkey(2)), Err(WhitelistError::Unauthorized));
}

#[test]
fn unauthorized_comes_before_every_other_refusal() {
    let whitelist = whitelist_of(1, u64::MAX);
    let mut add = AddWallet {
        authority: authority_of(3, 0),
        whitelist,
        wallet_pda: Account { key: pubkey(9), lamports: 5, data: Wallet {} },
        min_balance: 0,
    };
    assert_eq!(add_wallet(&mut add, pubkey(2)), Err(WhitelistError::Unauthorized));
    let mut remove = RemoveWallet {
        authority: authority_of(3, u64::MAX),
        whitelist: whitelist_of(1, 0),
        wallet_pda: Account { key: pubkey(9), lamports: 0, data: Wallet {} },
    };
    assert_eq!(remove_wallet(&mut remove, pubkey(2)), Err(WhitelistError::Unauthorized));
}

#[test]
fn add_wallet_at_another_address() {
    let whitelist = whitelist_of(1, 0);
    let mut ctx = AddWallet {
        authority: authority_of(1, 900),
        whitelist,
        wallet_pda: record_of(&whitelist, 3, 0),
        min_balance: 300,
    };
    let before = ctx;
    assert_eq!(add_wallet(&mut ctx, pubkey(2)), Err(WhitelistError::MismatchedDerivation));
    assert_eq!(ctx, before);
    ctx.wallet_pda = record_of(&whitelist_of(4, 0), 2, 0);
    assert_eq!(add_wallet(&mut ctx, pubkey(2)), Err(WhitelistError::MismatchedDerivation));
    ctx.wallet_pda.lamports = 10;
    assert_eq!(add_wallet(&mut ctx, pubkey(2)), Err(WhitelistError::MismatchedDerivation));
}

#[test]
fn add_wallet_that_is_whitelisted() {
    let whitelist = whitelist_of(1, 1);
    let mut ctx = AddWallet {
        authority: authority_of(1, 0),
        whitelist,
        wallet_pda: record_of(&whitelist, 2, 1),
        min_balance: 300,
    };
    let before = ctx;
    assert_eq!(add_wallet(&mut ctx, pubkey(2)), Err(WhitelistError::AlreadyWhitelisted));
    assert_eq!(ctx, before);
}

#[test]
fn add_wallet_without_funds() {
    let whitelist = whitelist_of(1, 0);
    let mut ctx = AddWallet {
        authority: authority_of(1, 299),
        whitelist,
        wallet_pda: record_of(&whitelist, 2, 0),
        min_balance: 300,
    };
    let before = ctx;
    assert_eq!(add_wallet(&mut ctx, pubkey(2)), Err(WhitelistError::InfrastructureError));
    assert_eq!(ctx, before);
    ctx.min_balance = 0;
    assert_eq!(add_wallet(&mut ctx, pubkey(2)), Err(WhitelistError::InfrastructureError));
    ctx.min_balance = 299;
    assert_eq!(add_wallet(&mut ctx, pubkey(2)), Ok(()));
    assert_eq!(ctx.authority.lamports, 0);
}

#[test]
fn add_wallet_at_the_counter_limit() {
    let whitelist = whitelist_of(1, u64::MAX);
    let mut ctx = AddWallet {
        authority: authority_of(1, 900),
        whitelist,
        wallet_pda: record_of(&whitelist, 2, 0),
        min_balance: 300,
    };
    let before = ctx;
    assert_eq!(add_wallet(&mut ctx, pubkey(2)), Err(WhitelistError::ArithmeticOverflow));
    assert_eq!(ctx, before);
    ctx.whitelist.data.counter = u64::MAX - 1;
    assert_eq!(add_wallet(&mut ctx, pubkey(2)), Ok(()));
    assert_eq!(ctx.whitelist.data.counter, u64::MAX);
}

#[test]
fn add_wallet_given_the_derived_address() {
    let whitelist = whitelist_of(1, 0);
    let record = Account { key: pubkey(50), lamports: 0, data: Wallet {} };
    let mut ctx =
        AddWallet { authority: authority_of(1, 900), whitelist, wallet_pda: record, min_balance: 300 };
    let before = ctx;
    assert_eq!(ctx.process(None), Err(WhitelistError::MismatchedDerivation));
    assert_eq!(ctx.process(Some((pubkey(51), 255))), Err(WhitelistError::MismatchedDerivation));
    assert_eq!(ctx, before);
    assert_eq!(ctx.process(Some((pubkey(50), 200))), Ok(()));
    assert_eq!(ctx.whitelist.data.counter, 1);
    assert_eq!(ctx.wallet_pda.lamports, 300);
    assert_eq!(ctx.process(Some((pubkey(50), 200))), Err(WhitelistError::AlreadyWhitelisted));
}

#[test]
fn check_wallet_tells_active_from_absent() {
    let whitelist = whitelist_of(1, 1);
    let mut ctx = CheckWallet { whitelist, wallet_pda: record_of(&whitelist, 2, 1) };
    assert_eq!(check_wallet(&ctx, pubkey(2)), Ok(()));
    ctx.wallet_pda.lamports = u64::MAX;
    assert_eq!(check_wallet(&ctx, pubkey(2)), Ok(()));
    ctx.wallet_pda.lamports = 0;
    assert_eq!(check_wallet(&ctx, pubkey(2)), Err(WhitelistError::NotWhitelisted));
}

#[test]
fn check_wallet_with_a_foreign_account() {
    let whitelist = whitelist_of(1, 1);
    for lamports in [0, 1, 1_000] {
        let other_wallet = CheckWallet { whitelist, wallet_pda: record_of(&whitelist, 3, lamports) };
        assert_eq!(
            check_wallet(&other_wallet, pubkey(2)),
            Err(WhitelistError::MismatchedDerivation)
        );
        let other_whitelist =
            CheckWallet { whitelist, wallet_pda: record_of(&whitelist_of(4, 0), 2, lamports) };
        assert_eq!(
            check_wallet(&other_whitelist, pubkey(2)),
            Err(WhitelistError::MismatchedDerivation)
        );
        let raw_key = CheckWallet {
            whitelist,
            wallet_pda: Account { key: pubkey(2), lamports, data: Wallet {} },
        };
        assert_eq!(check_wallet(&raw_key, pubkey(2)), Err(WhitelistError::MismatchedDerivation));
    }
}

#[test]
fn check_wallet_given_the_derived_address() {
    let whitelist = whitelist_of(1, 1);
    let ctx = CheckWallet {
        whitelist,
        wallet_pda: Account { key: pubkey(50), lamports: 7, data: Wallet {} },
    };
    assert_eq!(ctx.process(Some((pubkey(50), 1))), Ok(()));
    assert_eq!(ctx.process(Some((pubkey(51), 1))), Err(WhitelistError::MismatchedDerivation));
    assert_eq!(ctx.process(None), Err(WhitelistError::MismatchedDerivation));
    let absent = CheckWallet {
        whitelist,
        wallet_pda: Account { key: pubkey(50), lamports: 0, data: Wallet {} },
    };
    assert_eq!(absent.process(Some((pubkey(50), 1))), Err(WhitelistError::NotWhitelisted));
    assert_eq!(absent.process(None), Err(WhitelistError::MismatchedDerivation));
}

#[test]
fn remove_wallet_closes_the_record_and_counts() {
    let whitelist = whitelist_of(1, 42);
    let record = record_of(&whitelist, 2, 300);
    let mut ctx = RemoveWallet { authority: authority_of(1, 600), whitelist, wallet_pda: record };
    assert_eq!(remove_wallet(&mut ctx, pubkey(2)), Ok(()));
    assert_eq!(
        ctx,
        RemoveWallet {
            authority: authority_of(1, 900),
            whitelist: Account {
                data: Whitelist { authority: pubkey(1), counter: 41 },
                ..whitelist
            },
            wallet_pda: Account { lamports: 0, ..record },
        }
    );
}

#[test]
fn remove_wallet_by_someone_else() {
    let whitelist = whitelist_of(1, 1);
    let mut ctx = RemoveWallet {
        authority: authority_of(3, 600),
        whitelist,
        wallet_pda: record_of(&whitelist, 2, 300),
    };
    let before = ctx;
    assert_eq!(remove_wallet(&mut ctx, pubkey(2)), Err(WhitelistError::Unauthorized));
    assert_eq!(ctx, before);
    ctx.authority = AccountInfo { key: pubkey(1), is_signer: false, lamports: 600 };
    assert_eq!(remove_wallet(&mut ctx, pubkey(2)), Err(WhitelistError::Unauthorized));
}

#[test]
fn remove_wallet_at_another_address() {
    let whitelist = whitelist_of(1, 1);
    let mut ctx = RemoveWallet {
        authority: authority_of(1, 600),
        whitelist,
        wallet_pda: record_of(&whitelist, 3, 300),
    };
    let before = ctx;
    assert_eq!(remove_wallet(&mut ctx, pubkey(2)), Err(WhitelistError::MismatchedDerivation));
    assert_eq!(ctx, before);
}

#[test]
fn remove_wallet_that_is_absent() {
    let whitelist = whitelist_of(1, 5);
    let mut ctx = RemoveWallet {
        authority: authority_of(1, 600),
        whitelist,
        wallet_pda: record_of(&whitelist, 2, 0),
    };
    let before = ctx;
    assert_eq!(remove_wallet(&mut ctx, pubkey(2)), Err(WhitelistError::NotWhitelisted));
    assert_eq!(ctx, before);
    assert_eq!(ctx.whitelist.data.counter, 5);
}

#[test]
fn remove_wallet_at_the_counter_limit() {
    let whitelist = whitelist_of(1, 0);
    let mut ctx = RemoveWallet {
        authority: authority_of(1, 600),
        whitelist,
        wallet_pda: record_of(&whitelist, 2, 300),
    };
    let before = ctx;
    assert_eq!(remove_wallet(&mut ctx, pubkey(2)), Err(WhitelistError::ArithmeticOverflow));
    assert_eq!(ctx, before);
}

#[test]
fn remove_wallet_with_a_refund_out_of_range() {
    let whitelist = whitelist_of(1, 1);
    let mut ctx = RemoveWallet {
        authority: authority_of(1, u64::MAX - 299),
        whitelist,
        wallet_pda: record_of(&whitelist, 2, 300),
    };
    let before = ctx;
    assert_eq!(remove_wallet(&mut ctx, pubkey(2)), Err(WhitelistError::ArithmeticOverflow));
    assert_eq!(ctx, before);
    ctx.authority.lamports = u64::MAX - 300;
    assert_eq!(remove_wallet(&mut ctx, pubkey(2)), Ok(()));
    assert_eq!(ctx.authority.lamports, u64::MAX);
    assert_eq!(ctx.whitelist.data.counter, 0);
}

#[test]
fn remove_wallet_given_the_derived_address() {
    let whitelist = whitelist_of(1, 1);
    let mut ctx = RemoveWallet {
        authority: authority_of(1, 600),
        whitelist,
        wallet_pda: Account { key: pubkey(50), lamports: 300, data: Wallet {} },
    };
    let before = ctx;
    assert_eq!(ctx.process(None), Err(WhitelistError::MismatchedDerivation));
    assert_eq!(ctx.process(Some((pubkey(51), 255))), Err(WhitelistError::MismatchedDerivation));
    assert_eq!(ctx, before);
    assert_eq!(ctx.process(Some((pubkey(50), 255))), Ok(()));
    assert_eq!(ctx.whitelist.data.counter, 0);
    assert_eq!(ctx.authority.lamports, 900);
    assert_eq!(ctx.process(Some((pubkey(50), 255))), Err(WhitelistError::NotWhitelisted));
}

#[test]
fn set_authority_replaces_the_authority_only() {
    let whitelist = whitelist_of(1, 9);
    let mut ctx = SetAuthority { authority: authority_of(1, 600), whitelist };
    assert_eq!(set_authority(&mut ctx, pubkey(8)), Ok(()));
    assert_eq!(
        ctx,
        SetAuthority {
            authority: authority_of(1, 600),
            whitelist: Account {
                data: Whitelist { authority: pubkey(8), counter: 9 },
                ..whitelist
            },
        }
    );
}

#[test]
fn set_authority_by_someone_else() {
    let whitelist = whitelist_of(1, 9);
    let mut ctx = SetAuthority { authority: authority_of(8, 600), whitelist };
    let before = ctx;
    assert_eq!(set_authority(&mut ctx, pubkey(8)), Err(WhitelistError::Unauthorized));
    assert_eq!(ctx, before);
    ctx.authority = AccountInfo { key: pubkey(1), is_signer: false, lamports: 600 };
    assert_eq!(set_authority(&mut ctx, pubkey(8)), Err(WhitelistError::Unauthorized));
    assert_eq!(ctx.whitelist, whitelist);
}

#[test]
fn lamports_are_neither_made_nor_lost() {
    let whitelist = whitelist_of(1, 0);
    let mut add = AddWallet {
        authority: authority_of(1, 1_234),
        whitelist,
        wallet_pda: record_of(&whitelist, 2, 0),
        min_balance: 234,
    };
    assert_eq!(add_wallet(&mut add, pubkey(2)), Ok(()));
    assert_eq!(add.authority.lamports + add.wallet_pda.lamports, 1_234);
    let mut remove = RemoveWallet {
        authority: add.authority,
        whitelist: add.whitelist,
        wallet_pda: add.wallet_pda,
    };
    assert_eq!(remove_wallet(&mut remove, pubkey(2)), Ok(()));
    assert_eq!(remove.authority.lamports, 1_234);
    assert_eq!(remove.wallet_pda.lamports, 0);
}

#[test]
fn lookup_wallet_asks_for_the_derived_address() {
    let whitelist = whitelist_of(1, 1);
    let record = record_of(&whitelist, 2, 300);
    let balance_of = |address: Pubkey| if address == record.key { record.lamports } else { 0 };
    assert_eq!(lookup_wallet(&whitelist, pubkey(2), balance_of), Ok(()));
    assert_eq!(
        lookup_wallet(&whitelist, pubkey(3), balance_of),
        Err(WhitelistError::NotWhitelisted)
    );
    assert_eq!(
        lookup_wallet(&whitelist_of(4, 1), pubkey(2), balance_of),
        Err(WhitelistError::NotWhitelisted)
    );
    let elsewhere = |address: Pubkey| if address == pubkey(2) { 300 } else { 0 };
    assert_eq!(
        lookup_wallet(&whitelist, pubkey(2), elsewhere),
        Err(WhitelistError::NotWhitelisted)
    );
}

#[test]
fn lookup_wallet_agrees_with_check_wallet() {
    let whitelist = whitelist_of(1, 1);
    for lamports in [0, 1, u64::MAX] {
        let record = record_of(&whitelist, 2, lamports);
        let checked = check_wallet(&CheckWallet { whitelist, wallet_pda: record }, pubkey(2));
        assert_eq!(lookup_wallet(&whitelist, pubkey(2), |_| lamports), checked);
    }
}
