use backgammon::account::{Account, Signer, TransferError};
use backgammon::pubkey::Pubkey;
use backgammon::vault::{
    deposit, initialize, withdraw, Deposit, ErrorCode, Initialize, UserAccount, Withdraw,
};

fn key(n: u8) -> Pubkey {
    Pubkey::new_from_array([n; 32])
}

fn fresh_vault(address: u8) -> Account<UserAccount> {
    Account { key: key(address), lamports: 0, data: UserAccount::default() }
}

fn vault_with(address: u8, authority: u8, balance: u64, lamports: u64) -> Account<UserAccount> {
    Account {
        key: key(address),
        lamports,
        data: UserAccount { balance, authority: key(authority) },
    }
}

#[test]
fn initialize_succeeds() {
    assert_eq!(initialize(&Initialize {}), Ok(()));
}

#[test]
fn fresh_vault_is_empty_and_unowned() {
    let record = UserAccount::default();
    assert_eq!(record.balance, 0);
    assert_eq!(record.authority, Pubkey::default());
    assert!(record.authority.is_unset());
    assert_eq!(Pubkey::default().to_bytes(), [0u8; 32]);
}

#[test]
fn deposit_then_withdraw_leaves_the_difference() {
    let user = Signer { key: key(1), lamports: 1_000 };
    let mut d = Deposit { user, user_account: fresh_vault(9) };
    assert_eq!(deposit(&mut d, 100), Ok(()));
    assert_eq!(d.user_account.data.balance, 100);
    assert_eq!(d.user_account.data.authority, key(1));
    assert_eq!(d.user_account.lamports, 100);
    assert_eq!(d.user.lamports, 900);

    let mut w = Withdraw { user: d.user, user_account: d.user_account };
    assert_eq!(withdraw(&mut w, 40), Ok(()));
    assert_eq!(w.user_account.data.balance, 60);
    assert_eq!(w.user_account.lamports, 60);
    assert_eq!(w.user.lamports, 940);
    assert_eq!(w.user_account.data.authority, key(1));
    assert_eq!(w.user_account.key, key(9));
}

#[test]
fn withdraw_more_than_balance_is_refused() {
    let before = Withdraw {
        user: Signer { key: key(1), lamports: 5 },
        user_account: vault_with(9, 1, 10, 10),
    };
    let mut w = before.clone();
    assert_eq!(withdraw(&mut w, 50), Err(ErrorCode::InsufficientFunds));
    assert_eq!(w, before);
    assert_eq!(w.user_account.data.balance, 10);
}

#[test]
fn withdraw_of_whole_balance_empties_the_vault() {
    let mut w = Withdraw {
        user: Signer { key: key(1), lamports: 0 },
        user_account: vault_with(9, 1, 10, 10),
    };
    assert_eq!(withdraw(&mut w, 10), Ok(()));
    assert_eq!(w.user_account.data.balance, 0);
    assert_eq!(w.user_account.lamports, 0);
    assert_eq!(w.user.lamports, 10);
}

#[test]
fn withdraw_by_a_stranger_is_refused() {
    let before = Withdraw {
        user: Signer { key: key(2), lamports: 5 },
        user_account: vault_with(9, 1, 10, 10),
    };
    let mut w = before.clone();
    assert_eq!(withdraw(&mut w, 1), Err(ErrorCode::Unauthorized));
    assert_eq!(w, before);
    // The signer is checked before the balance.
    assert_eq!(withdraw(&mut w, 50), Err(ErrorCode::Unauthorized));
    assert_eq!(w, before);
    // Even a withdrawal of nothing is refused.
    assert_eq!(withdraw(&mut w, 0), Err(ErrorCode::Unauthorized));
    assert_eq!(w, before);
}

#[test]
fn withdraw_from_an_unowned_vault_is_refused() {
    let mut w = Withdraw { user: Signer { key: key(1), lamports: 5 }, user_account: fresh_vault(9) };
    assert_eq!(withdraw(&mut w, 0), Err(ErrorCode::Unauthorized));
}

#[test]
fn deposit_without_funds_is_refused() {
    let before = Deposit { user: Signer { key: key(1), lamports: 99 }, user_account: fresh_vault(9) };
    let mut d = before.clone();
    assert_eq!(
        deposit(&mut d, 100),
        Err(ErrorCode::Transfer(TransferError::InsufficientLamports))
    );
    assert_eq!(d, before);
}

#[test]
fn deposit_that_overflows_the_holding_is_refused() {
    let before = Deposit {
        user: Signer { key: key(1), lamports: 10 },
        user_account: vault_with(9, 1, 0, u64::MAX - 5),
    };
    let mut d = before.clone();
    assert_eq!(deposit(&mut d, 6), Err(ErrorCode::Transfer(TransferError::Overflow)));
    assert_eq!(d, before);
    assert_eq!(deposit(&mut d, 5), Ok(()));
    assert_eq!(d.user_account.lamports, u64::MAX);
    assert_eq!(d.user_account.data.balance, 5);
}

#[test]
fn deposit_that_overflows_the_balance_is_refused() {
    let before = Deposit {
        user: Signer { key: key(1), lamports: 10 },
        user_account: vault_with(9, 1, u64::MAX - 5, 0),
    };
    let mut d = before.clone();
    assert_eq!(deposit(&mut d, 6), Err(ErrorCode::BalanceOverflow));
    assert_eq!(d, before);
}

#[test]
fn withdraw_that_the_holding_cannot_cover_is_refused() {
    let before = Withdraw {
        user: Signer { key: key(1), lamports: 0 },
        user_account: vault_with(9, 1, 10, 4),
    };
    let mut w = before.clone();
    assert_eq!(
        withdraw(&mut w, 5),
        Err(ErrorCode::Transfer(TransferError::InsufficientLamports))
    );
    assert_eq!(w, before);
}

#[test]
fn withdraw_that_overflows_the_user_is_refused() {
    let before = Withdraw {
        user: Signer { key: key(1), lamports: u64::MAX },
        user_account: vault_with(9, 1, 10, 10),
    };
    let mut w = before.clone();
    assert_eq!(withdraw(&mut w, 1), Err(ErrorCode::Transfer(TransferError::Overflow)));
    assert_eq!(w, before);
}

#[test]
fn first_depositor_becomes_the_authority() {
    let mut d = Deposit { user: Signer { key: key(2), lamports: 10 }, user_account: fresh_vault(9) };
    assert!(d.user_account.data.authority.is_unset());
    assert_eq!(deposit(&mut d, 0), Ok(()));
    assert_eq!(d.user_account.data.authority, key(2));
    assert_eq!(d.user_account.data.balance, 0);
}

#[test]
fn a_later_deposit_keeps_the_authority() {
    let mut d = Deposit {
        user: Signer { key: key(2), lamports: 10 },
        user_account: vault_with(9, 1, 7, 7),
    };
    assert_eq!(deposit(&mut d, 0), Ok(()));
    assert_eq!(d.user_account.data.authority, key(1));
    assert_eq!(d.user_account.data.balance, 7);
    assert_eq!(deposit(&mut d, 3), Ok(()));
    assert_eq!(d.user_account.data.authority, key(1));
    assert_eq!(d.user_account.data.balance, 10);
    assert_eq!(d.user_account.lamports, 10);
    assert_eq!(d.user.lamports, 7);
}

#[test]
fn a_stranger_who_deposits_still_cannot_withdraw() {
    let mut d = Deposit {
        user: Signer { key: key(2), lamports: 10 },
        user_account: vault_with(9, 1, 7, 7),
    };
    assert_eq!(deposit(&mut d, 0), Ok(()));
    let before = Withdraw { user: d.user, user_account: d.user_account };
    let mut w = before.clone();
    assert_eq!(withdraw(&mut w, 7), Err(ErrorCode::Unauthorized));
    assert_eq!(w, before);
    // The owner still can.
    let mut w = Withdraw { user: Signer { key: key(1), lamports: 0 }, user_account: w.user_account };
    assert_eq!(withdraw(&mut w, 7), Ok(()));
    assert_eq!(w.user.lamports, 7);
    assert_eq!(w.user_account.data.balance, 0);
}

#[test]
fn balance_is_deposits_less_withdrawals() {
    // deposit 30, withdraw 50 (refused), deposit 25, withdraw 40, a stranger's
    // withdrawal of 1 (refused), withdraw 15.
    let mut user = Signer { key: key(1), lamports: 100 };
    let stranger = Signer { key: key(2), lamports: 100 };
    let mut vault = fresh_vault(9);
    let mut credited: u64 = 0;
    let mut debited: u64 = 0;
    let steps: [(bool, bool, u64); 6] = [
        (true, true, 30),
        (false, true, 50),
        (true, true, 25),
        (false, true, 40),
        (false, false, 1),
        (false, true, 15),
    ];
    for (is_deposit, by_owner, amount) in steps {
        let signer = if by_owner { user } else { stranger };
        if is_deposit {
            let mut d = Deposit { user: signer, user_account: vault.clone() };
            if deposit(&mut d, amount).is_ok() {
                credited += amount;
            }
            vault = d.user_account;
            user = d.user;
        } else {
            let mut w = Withdraw { user: signer, user_account: vault.clone() };
            if withdraw(&mut w, amount).is_ok() {
                debited += amount;
            }
            vault = w.user_account;
            if by_owner {
                user = w.user;
            }
        }
    }
    assert_eq!(credited, 55);
    assert_eq!(debited, 55);
    assert_eq!(vault.data.balance, credited - debited);
    assert_eq!(vault.data.balance, 0);
    assert_eq!(vault.lamports, 0);
    assert_eq!(user.lamports, 100);
}
