use vstd::prelude::*;

use crate::state::{EscrowState, Operation};

verus! {

/// An account address or a party's identity: 32 opaque bytes.
#[derive(Clone, Copy, Debug, PartialEq, Eq)]
pub struct Pubkey {
    pub bytes: [u8; 32],
}

/// The escrow record: who deposited, how much is held, and where it stands.
#[derive(Clone, Copy, Debug, PartialEq, Eq)]
pub struct Escrow {
    pub initializer: Pubkey,
    pub initializer_amount: u64,
    pub state: EscrowState,
}

/// The error raised by the state machine itself.
#[derive(Clone, Copy, Debug, PartialEq, Eq, Structural)]
pub enum ErrorCode {
    /// The operation is not permitted from the record's current state.
    InvalidState,
}

/// Why an Accept or Refund failed: the state machine refused it, or the
/// custodial transfer failed with its own error, handed on unchanged.
#[derive(Debug, PartialEq, Eq)]
pub enum EscrowError<E> {
    Core(ErrorCode),
    Transfer(E),
}

/// The accounts of one custodial transfer; the amount goes beside it.
#[derive(Clone, Copy, Debug, PartialEq, Eq)]
pub struct Transfer {
    pub from: Pubkey,
    pub to: Pubkey,
    /// Who signs for the move: the escrow record itself, never a caller.
    pub authority: Pubkey,
}

/// What Create works on: the freshly provisioned record and its depositor.
#[derive(Clone, Copy, Debug, PartialEq, Eq)]
pub struct Initialize {
    pub escrow: Escrow,
    pub initializer: Pubkey,
}

/// What Accept works on: the record, its address (the transfer authority),
/// the custodial account, and the counterparty's account.
#[derive(Clone, Copy, Debug, PartialEq, Eq)]
pub struct Accept {
    pub escrow: Escrow,
    pub escrow_address: Pubkey,
    pub escrow_token_account: Pubkey,
    pub freelancer_token_account: Pubkey,
}

/// What Refund works on: the record, its address (the transfer authority),
/// the custodial account, and the initializer's account.
#[derive(Clone, Copy, Debug, PartialEq, Eq)]
pub struct Refund {
    pub escrow: Escrow,
    pub escrow_address: Pubkey,
    pub escrow_token_account: Pubkey,
    pub initializer_token_account: Pubkey,
}

impl Escrow {
    /// A new record: held for `initializer`, `amount` locked, in `Initialized`.
    pub fn new(initializer: Pubkey, amount: u64) -> (r: Escrow)
        ensures
            r.initializer == initializer,
            r.initializer_amount == amount,
            r.state == EscrowState::Initialized,
    {
        Escrow { initializer, initializer_amount: amount, state: EscrowState::Initialized }
    }
}

impl Accept {
    /// The transfer Accept asks for: custody to the counterparty, signed by the record.
    pub open spec fn transfer_spec(self) -> Transfer {
        Transfer {
            from: self.escrow_token_account,
            to: self.freelancer_token_account,
            authority: self.escrow_address,
        }
    }
}

impl Refund {
    /// The transfer Refund asks for: custody back to the initializer, signed by the record.
    pub open spec fn transfer_spec(self) -> Transfer {
        Transfer {
            from: self.escrow_token_account,
            to: self.initializer_token_account,
            authority: self.escrow_address,
        }
    }
}

/// How an operation that was permitted ends, given what the transfer returned:
/// on success the record moves to the operation's target and `Ok` comes back;
/// on failure the record is as it was and the transfer's error comes back.
/// Only the state may change, and only as `next_state` says.
pub open spec fn settled<E>(
    op: Operation,
    before: Escrow,
    outcome: Result<(), E>,
    after: Escrow,
    r: Result<(), EscrowError<E>>,
) -> bool {
    &&& after.initializer == before.initializer
    &&& after.initializer_amount == before.initializer_amount
    &&& after.state == op.next_state(before.state, outcome is Ok)
    &&& match outcome {
        Ok(_) => r is Ok,
        Err(e) => r == Err::<(), EscrowError<E>>(EscrowError::Transfer(e)),
    }
}

/// Create: fills the provisioned record for the calling initializer with
/// `amount` locked and the state `Initialized`.
pub fn initialize(ctx: &mut Initialize, amount: u64)
    ensures
        final(ctx).initializer == old(ctx).initializer,
        final(ctx).escrow.initializer == old(ctx).initializer,
        final(ctx).escrow.initializer_amount == amount,
        final(ctx).escrow.state == EscrowState::Initialized,
{
    ctx.escrow = Escrow::new(ctx.initializer, amount);
}

/// A custodial transfer that a permitted Accept or Refund asks the host to
/// make: which operation, the state it started from (to roll back to), the
/// accounts, and the amount.
#[derive(Clone, Copy, Debug, PartialEq, Eq)]
pub struct PendingTransfer {
    pub op: Operation,
    pub prior: EscrowState,
    pub transfer: Transfer,
    pub amount: u64,
}

/// What a permitted operation on `before` hands back: the accounts it was
/// given, the locked amount, and the state to roll back to.
pub open spec fn pending_for(op: Operation, before: Escrow, transfer: Transfer) -> PendingTransfer {
    PendingTransfer { op, prior: before.state, transfer, amount: before.initializer_amount }
}

/// The guard and the flag of one operation. When the state refuses it the
/// record is untouched and no transfer is asked for; otherwise the state is
/// set to the target before any transfer happens and the transfer to make
/// comes back.
fn begin(escrow: &mut Escrow, op: Operation, transfer: Transfer) -> (r: Result<PendingTransfer, ErrorCode>)
    ensures
        !op.permitted_from(old(escrow).state) ==> r == Err::<PendingTransfer, ErrorCode>(
            ErrorCode::InvalidState,
        ) && *final(escrow) == *old(escrow),
        op.permitted_from(old(escrow).state) ==> r == Ok::<PendingTransfer, ErrorCode>(
            pending_for(op, *old(escrow), transfer),
        ) && *final(escrow) == (Escrow { state: op.target(), ..*old(escrow) }),
{
    if !op.is_permitted_from(&escrow.state) {
        return Err(ErrorCode::InvalidState);
    }
    let prior = escrow.state;
    escrow.state = op.target_state();
    Ok(PendingTransfer { op, prior, transfer, amount: escrow.initializer_amount })
}

/// Accept, first half: from `Initialized` only, marks the record `Accepted`
/// and returns the transfer of exactly the locked amount from custody to the
/// counterparty, signed by the record. Any other state is refused with
/// `InvalidState`, the record unchanged and no transfer asked for. The host
/// makes the transfer and hands its outcome to `settle`.
pub fn accept(ctx: &mut Accept) -> (r: Result<PendingTransfer, ErrorCode>)
    ensures
        final(ctx).escrow_address == old(ctx).escrow_address,
        final(ctx).escrow_token_account == old(ctx).escrow_token_account,
        final(ctx).freelancer_token_account == old(ctx).freelancer_token_account,
        !Operation::Accept.permitted_from(old(ctx).escrow.state) ==> r == Err::<
            PendingTransfer,
            ErrorCode,
        >(ErrorCode::InvalidState) && final(ctx).escrow == old(ctx).escrow,
        Operation::Accept.permitted_from(old(ctx).escrow.state) ==> r == Ok::<
            PendingTransfer,
            ErrorCode,
        >(pending_for(Operation::Accept, old(ctx).escrow, old(ctx).transfer_spec()))
            && final(ctx).escrow == (Escrow { state: EscrowState::Accepted, ..old(ctx).escrow }),
{
    let request = Transfer {
        from: ctx.escrow_token_account,
        to: ctx.freelancer_token_account,
        authority: ctx.escrow_address,
    };
    begin(&mut ctx.escrow, Operation::Accept, request)
}

/// Refund, first half: from `Initialized` or `Disputed`, marks the record
/// `Refunded` and returns the transfer of exactly the locked amount from
/// custody back to the initializer, signed by the record. Any other state is
/// refused with `InvalidState`, the record unchanged and no transfer asked
/// for. The host makes the transfer and hands its outcome to `settle`.
pub fn refund(ctx: &mut Refund) -> (r: Result<PendingTransfer, ErrorCode>)
    ensures
        final(ctx).escrow_address == old(ctx).escrow_address,
        final(ctx).escrow_token_account == old(ctx).escrow_token_account,
        final(ctx).initializer_token_account == old(ctx).initializer_token_account,
        !Operation::Refund.permitted_from(old(ctx).escrow.state) ==> r == Err::<
            PendingTransfer,
            ErrorCode,
        >(ErrorCode::InvalidState) && final(ctx).escrow == old(ctx).escrow,
        Operation::Refund.permitted_from(old(ctx).escrow.state) ==> r == Ok::<
            PendingTransfer,
            ErrorCode,
        >(pending_for(Operation::Refund, old(ctx).escrow, old(ctx).transfer_spec()))
            && final(ctx).escrow == (Escrow { state: EscrowState::Refunded, ..old(ctx).escrow }),
{
    let request = Transfer {
        from: ctx.escrow_token_account,
        to: ctx.initializer_token_account,
        authority: ctx.escrow_address,
    };
    begin(&mut ctx.escrow, Operation::Refund, request)
}

/// Second half of Accept or Refund: given the record as the first half left
/// it and the outcome of the transfer it asked for, keeps the new state when
/// the transfer succeeded and rolls it back when it failed, handing the
/// transfer's error on. Measured against the record before the first half,
/// the whole operation is `settled`.
pub fn settle<E>(escrow: &mut Escrow, pending: PendingTransfer, outcome: Result<(), E>) -> (r: Result<
    (),
    EscrowError<E>,
>)
    requires
        pending.op.permitted_from(pending.prior),
        old(escrow).state == pending.op.target(),
    ensures
        settled(
            pending.op,
            (Escrow { state: pending.prior, ..*old(escrow) }),
            outcome,
            *final(escrow),
            r,
        ),
{
    match outcome {
        Ok(()) => Ok(()),
        Err(e) => {
            escrow.state = pending.prior;
            Err(EscrowError::Transfer(e))
        },
    }
}

} // verus!
