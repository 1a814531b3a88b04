use crate::account::{Cmd, Error};
use crate::euro_cent::EuroCent;
use vstd::prelude::*;

verus! {

/// An operation that callers ask of the accounts, with the identifier of
/// the operation: for `CreateAccount`, that of the new account.
#[derive(Debug, Clone, Copy, PartialEq, Eq, Structural)]
pub enum Operation {
    CreateAccount { id: u128 },
    Deposit { op_id: u128, amount: EuroCent },
    Withdraw { op_id: u128, amount: EuroCent },
}

/// What the last action of a request came back with.
#[derive(Debug, Clone, Copy)]
pub enum Event {
    /// Nothing was done yet.
    Start,
    /// The identifier index answered whether the account exists.
    ExistsChecked(bool),
    /// The entity cache handed out the account, or failed to.
    AccountObtained(bool),
    /// The account handled the command: `None` where it could not be
    /// reached, else whether it accepted the command.
    Handled(Option<Result<(), Error>>),
}

/// How a request ends.
#[derive(Debug, Clone, Copy, PartialEq, Eq, Structural)]
pub enum Outcome {
    /// The command was accepted.
    Accepted,
    /// The account does not exist.
    NotFound,
    /// The account rejected the command.
    Rejected(Error),
    /// The infrastructure failed.
    Failed,
}

/// What to do next for a request.
#[derive(Debug, Clone, Copy, PartialEq, Eq, Structural)]
pub enum Action {
    /// Ask the identifier index whether the account exists.
    CheckExists,
    /// Obtain the account from the entity cache.
    GetAccount,
    /// Submit this command to the account.
    Submit(Cmd),
    /// Answer the caller.
    Reply(Outcome),
}

/// The command that carries out an operation.
pub open spec fn command_of(op: Operation) -> Cmd {
    match op {
        Operation::CreateAccount { id } => Cmd::Create(id),
        Operation::Deposit { op_id, amount } => Cmd::Deposit(op_id, amount),
        Operation::Withdraw { op_id, amount } => Cmd::Withdraw(op_id, amount),
    }
}

/// The steps of a request: deposits and withdrawals first make sure that
/// the account exists, a creation does not; then the account is obtained,
/// the command submitted and its result answered.
pub open spec fn request_action(op: Operation, event: Event) -> Action {
    match event {
        Event::Start => if op is CreateAccount {
            Action::GetAccount
        } else {
            Action::CheckExists
        },
        Event::ExistsChecked(exists) => if exists {
            Action::GetAccount
        } else {
            Action::Reply(Outcome::NotFound)
        },
        Event::AccountObtained(obtained) => if obtained {
            Action::Submit(command_of(op))
        } else {
            Action::Reply(Outcome::Failed)
        },
        Event::Handled(result) => Action::Reply(
            match result {
                Some(Ok(())) => Outcome::Accepted,
                Some(Err(e)) => Outcome::Rejected(e),
                None => Outcome::Failed,
            },
        ),
    }
}

/// The next action of a request for `op`, given what the last one came back with.
pub fn next_action(op: Operation, event: Event) -> (r: Action)
    ensures
        r == request_action(op, event),
{
    match event {
        Event::Start => match op {
            Operation::CreateAccount { .. } => Action::GetAccount,
            _ => Action::CheckExists,
        },
        Event::ExistsChecked(exists) => {
            if exists {
                Action::GetAccount
            } else {
                Action::Reply(Outcome::NotFound)
            }
        },
        Event::AccountObtained(obtained) => {
            if obtained {
                let cmd = match op {
                    Operation::CreateAccount { id } => Cmd::Create(id),
                    Operation::Deposit { op_id, amount } => Cmd::Deposit(op_id, amount),
                    Operation::Withdraw { op_id, amount } => Cmd::Withdraw(op_id, amount),
                };
                Action::Submit(cmd)
            } else {
                Action::Reply(Outcome::Failed)
            }
        },
        Event::Handled(result) => Action::Reply(
            match result {
                Some(Ok(())) => Outcome::Accepted,
                Some(Err(e)) => Outcome::Rejected(e),
                None => Outcome::Failed,
            },
        ),
    }
}

} // verus!
