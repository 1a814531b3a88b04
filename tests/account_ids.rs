use rusty_bank::account::{Account, Cmd, Error, Evt, State};
use rusty_bank::account_ids::AccountIds;
use rusty_bank::euro_cent::EuroCent;

#[test]
fn index_holds_created_identifiers_only() {
    let mut ids = AccountIds::new();
    assert!(!ids.contains(1));
    ids.observe(&Evt::Created(1));
    ids.observe(&Evt::Deposited { id: 2, old_balance: EuroCent(0), amount: EuroCent(5) });
    ids.observe(&Evt::Withdrawn { id: 3, old_balance: EuroCent(5), amount: EuroCent(5) });
    assert!(ids.contains(1));
    assert!(!ids.contains(2));
    assert!(!ids.contains(3));
    ids.observe(&Evt::Created(1));
    assert!(ids.contains(1));
}

#[test]
fn end_to_end_create_deposit_withdraw() {
    let account_id: u128 = 42;
    let mut ids = AccountIds::new();
    let mut account = Account::new();

    let created = account.handle_cmd(Cmd::Create(account_id)).unwrap();
    assert!(created.lifecycle);
    account.handle_evt(created.evt);
    // Accepted, but not yet observed by the index.
    assert!(!ids.contains(account_id));
    ids.observe(&created.evt);
    assert!(ids.contains(account_id));

    let deposited = account.handle_cmd(Cmd::Deposit(1, EuroCent(50))).unwrap();
    account.handle_evt(deposited.evt);
    assert_eq!(account.state(), State::Created { id: account_id, balance: EuroCent(50) });

    let withdrawn = account.handle_cmd(Cmd::Withdraw(2, EuroCent(20))).unwrap();
    account.handle_evt(withdrawn.evt);
    assert_eq!(account.state(), State::Created { id: account_id, balance: EuroCent(30) });

    assert_eq!(
        account.handle_cmd(Cmd::Withdraw(3, EuroCent(31))),
        Err(Error::InvalidWithdraw { balance: EuroCent(30), withdraw_amount: EuroCent(31) })
    );
    assert_eq!(account.state(), State::Created { id: account_id, balance: EuroCent(30) });
}
