use rusty_bank::account::{Cmd, Error};
use rusty_bank::euro_cent::EuroCent;
use rusty_bank::request::{next_action, Action, Event, Operation, Outcome};

#[test]
fn create_skips_the_existence_check() {
    let op = Operation::CreateAccount { id: 5 };
    assert_eq!(next_action(op, Event::Start), Action::GetAccount);
    assert_eq!(next_action(op, Event::AccountObtained(true)), Action::Submit(Cmd::Create(5)));
    assert_eq!(
        next_action(op, Event::Handled(Some(Ok(())))),
        Action::Reply(Outcome::Accepted)
    );
}

#[test]
fn deposit_to_unknown_account_is_not_found() {
    let op = Operation::Deposit { op_id: 1, amount: EuroCent(50) };
    assert_eq!(next_action(op, Event::Start), Action::CheckExists);
    assert_eq!(next_action(op, Event::ExistsChecked(false)), Action::Reply(Outcome::NotFound));
}

#[test]
fn deposit_to_known_account_is_submitted() {
    let op = Operation::Deposit { op_id: 1, amount: EuroCent(50) };
    assert_eq!(next_action(op, Event::ExistsChecked(true)), Action::GetAccount);
    assert_eq!(
        next_action(op, Event::AccountObtained(true)),
        Action::Submit(Cmd::Deposit(1, EuroCent(50)))
    );
}

#[test]
fn rejected_withdrawal_is_reported() {
    let op = Operation::Withdraw { op_id: 3, amount: EuroCent(31) };
    assert_eq!(
        next_action(op, Event::AccountObtained(true)),
        Action::Submit(Cmd::Withdraw(3, EuroCent(31)))
    );
    let error = Error::InvalidWithdraw { balance: EuroCent(30), withdraw_amount: EuroCent(31) };
    assert_eq!(
        next_action(op, Event::Handled(Some(Err(error)))),
        Action::Reply(Outcome::Rejected(error))
    );
}

#[test]
fn infrastructure_failures_end_in_failed() {
    let op = Operation::Withdraw { op_id: 3, amount: EuroCent(1) };
    assert_eq!(next_action(op, Event::AccountObtained(false)), Action::Reply(Outcome::Failed));
    assert_eq!(next_action(op, Event::Handled(None)), Action::Reply(Outcome::Failed));
}
