use crate::account::{apply, balance_of, can_apply, decide, Cmd, Error, Evt, State};
use crate::euro_cent::EuroCent;
use vstd::prelude::*;

verus! {

/// The state after a command: folded with its event where accepted, left as
/// it is where rejected.
pub open spec fn step(state: State, cmd: Cmd) -> State {
    match decide(state, cmd) {
        Ok(evt) => apply(state, evt),
        Err(_) => state,
    }
}

/// The state reached by handling `cmds` in order from `NonExistent`.
pub open spec fn replay(cmds: Seq<Cmd>) -> State
    decreases cmds.len(),
{
    if cmds.len() == 0 {
        State::NonExistent
    } else {
        step(replay(cmds.drop_last()), cmds.last())
    }
}

/// The sum of the amounts of the deposits accepted while replaying `cmds`.
pub open spec fn accepted_deposits(cmds: Seq<Cmd>) -> int
    decreases cmds.len(),
{
    if cmds.len() == 0 {
        0
    } else {
        let prev = cmds.drop_last();
        accepted_deposits(prev) + match (cmds.last(), decide(replay(prev), cmds.last())) {
            (Cmd::Deposit(_, amount), Ok(_)) => amount.0 as int,
            _ => 0,
        }
    }
}

/// The sum of the amounts of the withdrawals accepted while replaying `cmds`.
pub open spec fn accepted_withdrawals(cmds: Seq<Cmd>) -> int
    decreases cmds.len(),
{
    if cmds.len() == 0 {
        0
    } else {
        let prev = cmds.drop_last();
        accepted_withdrawals(prev) + match (cmds.last(), decide(replay(prev), cmds.last())) {
            (Cmd::Withdraw(_, amount), Ok(_)) => amount.0 as int,
            _ => 0,
        }
    }
}

/// How many `Create` commands were accepted while replaying `cmds`.
pub open spec fn accepted_creates(cmds: Seq<Cmd>) -> nat
    decreases cmds.len(),
{
    if cmds.len() == 0 {
        0
    } else {
        let prev = cmds.drop_last();
        accepted_creates(prev) + match (cmds.last(), decide(replay(prev), cmds.last())) {
            (Cmd::Create(_), Ok(_)) => 1nat,
            _ => 0nat,
        }
    }
}

/// Whether `cmds` holds a `Create` command.
pub open spec fn has_create(cmds: Seq<Cmd>) -> bool {
    exists|i: int| 0 <= i < cmds.len() && (#[trigger] cmds[i]) is Create
}

/// Every event that the command handler emits can be folded into the state
/// it was emitted in, and moves the balance by exactly its amount.
pub proof fn lemma_accepted_evt_applies(state: State, cmd: Cmd)
    ensures
        decide(state, cmd) matches Ok(evt) ==> can_apply(state, evt),
        balance_of(step(state, cmd)) == balance_of(state) + match (cmd, decide(state, cmd)) {
            (Cmd::Deposit(_, amount), Ok(_)) => amount.0 as int,
            (Cmd::Withdraw(_, amount), Ok(_)) => -(amount.0 as int),
            _ => 0,
        },
{
}

/// The balance reached by replaying any sequence of commands is the sum of
/// the accepted deposits minus the sum of the accepted withdrawals, and is
/// never negative.
pub proof fn lemma_replay_balance(cmds: Seq<Cmd>)
    ensures
        balance_of(replay(cmds)) == accepted_deposits(cmds) - accepted_withdrawals(cmds),
        balance_of(replay(cmds)) >= 0,
    decreases cmds.len(),
{
    if cmds.len() > 0 {
        lemma_replay_balance(cmds.drop_last());
        lemma_accepted_evt_applies(replay(cmds.drop_last()), cmds.last());
    }
}

/// `Create` is accepted exactly once: the replay reaches a created account
/// if and only if a `Create` was given, and then exactly one was accepted.
pub proof fn lemma_create_once(cmds: Seq<Cmd>)
    ensures
        replay(cmds) is Created <==> has_create(cmds),
        accepted_creates(cmds) == (if has_create(cmds) { 1nat } else { 0nat }),
    decreases cmds.len(),
{
    if cmds.len() > 0 {
        let prev = cmds.drop_last();
        lemma_create_once(prev);
        if has_create(prev) {
            let i = choose|i: int| 0 <= i < prev.len() && (#[trigger] prev[i]) is Create;
            assert(cmds[i] is Create);
        }
        if has_create(cmds) && !has_create(prev) {
            let i = choose|i: int| 0 <= i < cmds.len() && (#[trigger] cmds[i]) is Create;
            if i < prev.len() {
                assert(prev[i] is Create);
            }
        }
        if !has_create(cmds) {
            assert(!(cmds[cmds.len() - 1] is Create));
        }
    }
}

/// A second `Create` on a created account fails with `AlreadyCreated` and
/// leaves the state, and so the balance, as it was.
pub proof fn lemma_second_create_rejected(state: State, op: u128)
    requires
        state is Created,
    ensures
        decide(state, Cmd::Create(op)) == Err::<Evt, Error>(Error::AlreadyCreated),
        step(state, Cmd::Create(op)) == state,
{
}

/// A withdrawal is accepted if and only if its amount is at most the
/// balance; withdrawing the whole balance leaves zero.
pub proof fn lemma_withdraw_accepted_iff(id: u128, balance: EuroCent, op: u128, amount: EuroCent)
    ensures
        decide(State::Created { id, balance }, Cmd::Withdraw(op, amount)) is Ok <==> amount.0
            <= balance.0,
        amount == balance ==> balance_of(step(State::Created { id, balance }, Cmd::Withdraw(op, amount)))
            == 0,
{
}

/// Folding `Created`, then a deposit of `amount`, then a withdrawal of the
/// same amount, leaves a created account with a zero balance.
pub proof fn lemma_deposit_withdraw_round_trip(
    id: u128,
    deposit_op: u128,
    deposit_old: EuroCent,
    withdraw_op: u128,
    withdraw_old: EuroCent,
    amount: EuroCent,
)
    ensures
        ({
            let s1 = apply(State::NonExistent, Evt::Created(id));
            let s2 = apply(s1, Evt::Deposited { id: deposit_op, old_balance: deposit_old, amount });
            let s3 = apply(s2, Evt::Withdrawn { id: withdraw_op, old_balance: withdraw_old, amount });
            &&& can_apply(State::NonExistent, Evt::Created(id))
            &&& can_apply(s1, Evt::Deposited { id: deposit_op, old_balance: deposit_old, amount })
            &&& can_apply(s2, Evt::Withdrawn { id: withdraw_op, old_balance: withdraw_old, amount })
            &&& s3 == State::Created { id, balance: EuroCent(0) }
        }),
{
}

} // verus!
