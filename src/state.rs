use vstd::prelude::*;

verus! {

/// Where an escrow stands in its lifecycle.
#[derive(Clone, Copy, Debug, PartialEq, Eq, Structural)]
pub enum EscrowState {
    Initialized,
    Accepted,
    Refunded,
    Disputed,
}

/// The two operations that move the held balance out of custody.
#[derive(Clone, Copy, Debug, PartialEq, Eq, Structural)]
pub enum Operation {
    /// Release the balance to the counterparty.
    Accept,
    /// Return the balance to the initializer.
    Refund,
}

impl EscrowState {
    /// `Accepted` and `Refunded` end the lifecycle: no operation succeeds from them.
    pub open spec fn is_terminal(self) -> bool {
        self == EscrowState::Accepted || self == EscrowState::Refunded
    }

    pub fn is_terminal_state(&self) -> (r: bool)
        ensures
            r == self.is_terminal(),
    {
        match self {
            EscrowState::Accepted | EscrowState::Refunded => true,
            _ => false,
        }
    }
}

impl Operation {
    /// The states from which the operation may start: Accept only from
    /// `Initialized`, Refund from `Initialized` or `Disputed`.
    pub open spec fn permitted_from(self, s: EscrowState) -> bool {
        match self {
            Operation::Accept => s == EscrowState::Initialized,
            Operation::Refund => s == EscrowState::Initialized || s == EscrowState::Disputed,
        }
    }

    /// The state the operation leaves behind when it succeeds.
    pub open spec fn target(self) -> EscrowState {
        match self {
            Operation::Accept => EscrowState::Accepted,
            Operation::Refund => EscrowState::Refunded,
        }
    }

    /// Whether the operation moves the balance: it must be permitted and the
    /// custodial transfer must succeed.
    pub open spec fn moves_funds(self, s: EscrowState, transfer_ok: bool) -> bool {
        self.permitted_from(s) && transfer_ok
    }

    /// The state after the operation: the target when funds moved, otherwise
    /// the state it started from (a rejected or rolled back operation).
    pub open spec fn next_state(self, s: EscrowState, transfer_ok: bool) -> EscrowState {
        if self.moves_funds(s, transfer_ok) {
            self.target()
        } else {
            s
        }
    }

    pub fn is_permitted_from(&self, s: &EscrowState) -> (r: bool)
        ensures
            r == self.permitted_from(*s),
    {
        match self {
            Operation::Accept => match s {
                EscrowState::Initialized => true,
                _ => false,
            },
            Operation::Refund => match s {
                EscrowState::Initialized | EscrowState::Disputed => true,
                _ => false,
            },
        }
    }

    pub fn target_state(&self) -> (r: EscrowState)
        ensures
            r == self.target(),
    {
        match self {
            Operation::Accept => EscrowState::Accepted,
            Operation::Refund => EscrowState::Refunded,
        }
    }
}

} // verus!
