use crate::euro_cent::EuroCent;
use vstd::prelude::*;

verus! {

/// The tag that marks the events of an account's lifecycle, so that the
/// identifier index can read them alone.
pub const ACCOUNT_LIFECYCLE_TAG: &'static str = "account-lifecycle";

/// Commands for an account; the first field identifies the operation.
#[derive(Debug, Clone, Copy, PartialEq, Eq, Structural)]
pub enum Cmd {
    Create(u128),
    Deposit(u128, EuroCent),
    Withdraw(u128, EuroCent),
}

/// Events of an account.
#[derive(Debug, Clone, Copy, PartialEq, Eq, Structural)]
pub enum Evt {
    Created(u128),
    Deposited { id: u128, old_balance: EuroCent, amount: EuroCent },
    Withdrawn { id: u128, old_balance: EuroCent, amount: EuroCent },
}

/// An event together with whether it carries [ACCOUNT_LIFECYCLE_TAG].
#[derive(Debug, Clone, Copy, PartialEq, Eq, Structural)]
pub struct TaggedEvt {
    pub evt: Evt,
    pub lifecycle: bool,
}

/// The state of an account.
#[derive(Debug, Clone, Copy, PartialEq, Eq, Structural)]
pub enum State {
    NonExistent,
    Created { id: u128, balance: EuroCent },
}

/// Why a command was rejected.
#[derive(Debug, Clone, Copy, PartialEq, Eq, Structural)]
pub enum Error {
    /// The balance is smaller than the amount to withdraw.
    InvalidWithdraw { balance: EuroCent, withdraw_amount: EuroCent },
    /// The balance plus the amount to deposit would not fit in a `u64`.
    InvalidDeposit { balance: EuroCent, deposit_amount: EuroCent },
    NotYetCreated,
    AlreadyCreated,
}

/// What a command leads to in a state: the event it emits, or why it is
/// rejected.
pub open spec fn decide(state: State, cmd: Cmd) -> Result<Evt, Error> {
    match state {
        State::NonExistent => match cmd {
            Cmd::Create(id) => Ok(Evt::Created(id)),
            _ => Err(Error::NotYetCreated),
        },
        State::Created { balance, .. } => match cmd {
            Cmd::Create(_) => Err(Error::AlreadyCreated),
            Cmd::Deposit(id, amount) => if balance.0 + amount.0 > u64::MAX {
                Err(Error::InvalidDeposit { balance, deposit_amount: amount })
            } else {
                Ok(Evt::Deposited { id, old_balance: balance, amount })
            },
            Cmd::Withdraw(id, amount) => if balance.0 < amount.0 {
                Err(Error::InvalidWithdraw { balance, withdraw_amount: amount })
            } else {
                Ok(Evt::Withdrawn { id, old_balance: balance, amount })
            },
        },
    }
}

/// Whether an event may be folded into a state. Any other pair means that
/// events and commands have fallen out of step.
pub open spec fn can_apply(state: State, evt: Evt) -> bool {
    match (state, evt) {
        (State::NonExistent, Evt::Created(_)) => true,
        (State::Created { balance, .. }, Evt::Deposited { amount, .. }) => balance.0 + amount.0
            <= u64::MAX,
        (State::Created { balance, .. }, Evt::Withdrawn { amount, .. }) => amount.0 <= balance.0,
        _ => false,
    }
}

/// The state after folding an event; a state that cannot take the event is
/// left as it is.
pub open spec fn apply(state: State, evt: Evt) -> State {
    if !can_apply(state, evt) {
        state
    } else {
        match (state, evt) {
            (State::NonExistent, Evt::Created(id)) => State::Created { id, balance: EuroCent(0) },
            (State::Created { id, balance }, Evt::Deposited { amount, .. }) => State::Created {
                id,
                balance: EuroCent((balance.0 + amount.0) as u64),
            },
            (State::Created { id, balance }, Evt::Withdrawn { amount, .. }) => State::Created {
                id,
                balance: EuroCent((balance.0 - amount.0) as u64),
            },
            _ => state,
        }
    }
}

/// The balance of a state; an account not yet created holds nothing.
pub open spec fn balance_of(state: State) -> int {
    match state {
        State::NonExistent => 0,
        State::Created { balance, .. } => balance.0 as int,
    }
}

/// Whether a snapshot is due after `count` events with the given cadence.
pub open spec fn snapshot_due(snapshot_after: Option<u64>, count: nat) -> bool {
    match snapshot_after {
        Some(n) => n > 0 && count % (n as nat) == 0,
        None => false,
    }
}

/// An account. Starts with no state, no snapshots and no events applied.
#[derive(Debug, Clone, Copy)]
pub struct Account {
    snapshot_after: Option<u64>,
    state: State,
    evt_count: u64,
}

impl Account {
    /// The account's state.
    pub closed spec fn spec_state(&self) -> State {
        self.state
    }

    /// Every how many events a snapshot is taken, if at all.
    pub closed spec fn spec_snapshot_after(&self) -> Option<u64> {
        self.snapshot_after
    }

    /// How many events were applied since construction.
    pub closed spec fn spec_evt_count(&self) -> nat {
        self.evt_count as nat
    }

    /// A new account in state `NonExistent`.
    pub fn new() -> (r: Account)
        ensures
            r.spec_state() == State::NonExistent,
            r.spec_snapshot_after() == None::<u64>,
            r.spec_evt_count() == 0,
    {
        Account { snapshot_after: None, state: State::NonExistent, evt_count: 0 }
    }

    /// An account restored from a snapshot of its state, with no events
    /// applied since and no snapshot cadence.
    pub fn from_state(state: State) -> (r: Account)
        ensures
            r.spec_state() == state,
            r.spec_snapshot_after() == None::<u64>,
            r.spec_evt_count() == 0,
    {
        Account { snapshot_after: None, state, evt_count: 0 }
    }

    /// The same account, taking a snapshot every `snapshot_after` events, or
    /// never for `None`.
    pub fn with_snapshot_after(self, snapshot_after: Option<u64>) -> (r: Account)
        requires
            snapshot_after matches Some(n) ==> n >= 1,
        ensures
            r.spec_snapshot_after() == snapshot_after,
            r.spec_state() == self.spec_state(),
            r.spec_evt_count() == self.spec_evt_count(),
    {
        Account { snapshot_after, ..self }
    }

    /// The account's state.
    pub fn state(&self) -> (r: State)
        ensures
            r == self.spec_state(),
    {
        self.state
    }

    /// How many events were applied since construction.
    pub fn evt_count(&self) -> (r: u64)
        ensures
            r as nat == self.spec_evt_count(),
    {
        self.evt_count
    }

    /// Checks a command against the current state: the event it emits, with
    /// `Created` tagged for the lifecycle index, or why it is rejected.
    pub fn handle_cmd(&self, cmd: Cmd) -> (r: Result<TaggedEvt, Error>)
        ensures
            match decide(self.spec_state(), cmd) {
                Ok(evt) => r == Ok::<TaggedEvt, Error>(
                    TaggedEvt { evt, lifecycle: evt is Created },
                ),
                Err(e) => r == Err::<TaggedEvt, Error>(e),
            },
    {
        match (self.state, cmd) {
            (State::NonExistent, Cmd::Create(id)) => Ok(
                TaggedEvt { evt: Evt::Created(id), lifecycle: true },
            ),
            (State::NonExistent, _) => Err(Error::NotYetCreated),
            (State::Created { balance, .. }, Cmd::Deposit(id, amount)) => {
                match balance.checked_add(amount) {
                    Some(_) => Ok(
                        TaggedEvt {
                            evt: Evt::Deposited { id, old_balance: balance, amount },
                            lifecycle: false,
                        },
                    ),
                    None => Err(Error::InvalidDeposit { balance, deposit_amount: amount }),
                }
            },
            (State::Created { balance, .. }, Cmd::Withdraw(id, amount)) => {
                if balance.0 < amount.0 {
                    Err(Error::InvalidWithdraw { balance, withdraw_amount: amount })
                } else {
                    Ok(
                        TaggedEvt {
                            evt: Evt::Withdrawn { id, old_balance: balance, amount },
                            lifecycle: false,
                        },
                    )
                }
            },
            (State::Created { .. }, Cmd::Create(_)) => Err(Error::AlreadyCreated),
        }
    }

    /// Whether [Account::handle_evt] may take the event: the state can take
    /// it and the event counter has room.
    pub fn can_handle_evt(&self, evt: &Evt) -> (r: bool)
        ensures
            r == (can_apply(self.spec_state(), *evt) && self.spec_evt_count() < u64::MAX),
    {
        if self.evt_count == u64::MAX {
            return false;
        }
        match (self.state, *evt) {
            (State::NonExistent, Evt::Created(_)) => true,
            (State::Created { balance, .. }, Evt::Deposited { amount, .. }) => balance.checked_add(
                amount,
            ).is_some(),
            (State::Created { balance, .. }, Evt::Withdrawn { amount, .. }) => amount.0
                <= balance.0,
            _ => false,
        }
    }

    /// Folds an event into the state and counts it; returns the new state as
    /// a snapshot candidate when a snapshot is due.
    pub fn handle_evt(&mut self, evt: Evt) -> (r: Option<State>)
        requires
            can_apply(old(self).spec_state(), evt),
            old(self).spec_evt_count() < u64::MAX,
        ensures
            final(self).spec_state() == apply(old(self).spec_state(), evt),
            final(self).spec_evt_count() == old(self).spec_evt_count() + 1,
            final(self).spec_snapshot_after() == old(self).spec_snapshot_after(),
            r == (if snapshot_due(old(self).spec_snapshot_after(), final(self).spec_evt_count()) {
                Some(final(self).spec_state())
            } else {
                None
            }),
    {
        let next = match (self.state, evt) {
            (State::Created { id, balance }, Evt::Deposited { amount, .. }) => State::Created {
                id,
                balance: EuroCent(balance.0 + amount.0),
            },
            (State::Created { id, balance }, Evt::Withdrawn { amount, .. }) => State::Created {
                id,
                balance: EuroCent(balance.0 - amount.0),
            },
            (_, Evt::Created(id)) => State::Created { id, balance: EuroCent(0) },
            (state, _) => state,
        };
        self.state = next;
        self.evt_count = self.evt_count + 1;
        match self.snapshot_after {
            Some(n) => {
                if n > 0 && self.evt_count % n == 0 {
                    Some(self.state)
                } else {
                    None
                }
            },
            None => None,
        }
    }
}

impl Default for Account {
    fn default() -> (r: Account)
        ensures
            r.spec_state() == State::NonExistent,
            r.spec_snapshot_after() == None::<u64>,
            r.spec_evt_count() == 0,
    {
        Account::new()
    }
}

} // verus!
