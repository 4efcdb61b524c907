use vstd::prelude::*;

use crate::errors::ExecutionError;
use crate::events::{EventLog, FeeCollected};
use crate::ledger;
use crate::state::{Address, CollectFee};

verus! {

/// The transfer request the handler constructs: move exactly `amount`
/// units from `from` to `to`, nothing else.
#[derive(Clone, Copy, PartialEq, Eq, Structural, Debug)]
pub struct TransferRequest {
    pub from: Address,
    pub to: Address,
    pub amount: u64,
}

impl TransferRequest {
    pub fn new(from: Address, to: Address, amount: u64) -> (request: TransferRequest)
        ensures
            request.from == from,
            request.to == to,
            request.amount == amount,
    {
        TransferRequest { from, to, amount }
    }
}

/// When an invocation runs to completion: the context passes shape
/// validation, the source signed, and the ledger primitive accepts the
/// amount against the two balances.
pub open spec fn invocation_accepted(ctx: CollectFee, amount: u64) -> bool {
    &&& ctx.accounts_well_formed()
    &&& ctx.source_authorized()
    &&& ledger::can_transfer(ctx.from, ctx.to, amount)
}

/// The one completion event a successful invocation emits: the resolved
/// source and destination addresses and the transferred amount.
pub open spec fn completion_of(ctx: CollectFee, amount: u64) -> FeeCollected {
    FeeCollected { from: ctx.from.address, to: ctx.to.address, amount }
}

/// The context after a successful invocation: the amount moved from the
/// source balance to the destination balance and nothing else changed.
pub open spec fn transfer_applied(pre: CollectFee, post: CollectFee, amount: u64) -> bool {
    &&& ledger::debited(pre.from, post.from, amount)
    &&& ledger::credited(pre.to, post.to, amount)
    &&& post.system_program == pre.system_program
}

/// The checks owed before any state is touched, in the order the
/// instruction makes them: shape validation of the references and the
/// capability token, then the source account's signature.
pub fn authorize(ctx: &CollectFee) -> (r: Result<(), ExecutionError>)
    ensures
        r is Ok <==> ctx.accounts_well_formed() && ctx.source_authorized(),
        !ctx.accounts_well_formed() ==> r == Err::<(), ExecutionError>(
            ExecutionError::MalformedAccounts,
        ),
        ctx.accounts_well_formed() && !ctx.source_authorized() ==> r == Err::<(), ExecutionError>(
            ExecutionError::Unauthorized,
        ),
{
    if !(ctx.from.is_writable && ctx.to.is_writable && ctx.system_program.genuine) {
        Err(ExecutionError::MalformedAccounts)
    } else if !ctx.from.is_signer {
        Err(ExecutionError::Unauthorized)
    } else {
        Ok(())
    }
}

/// Executes one `collect_fee` invocation against the modeled ledger:
/// validates the context, enforces the source's authorization, moves the
/// amount through the transfer primitive, and on success appends exactly
/// one completion event to the log. On any failure the context and the
/// log are exactly as before the call.
pub fn collect_fee(ctx: &mut CollectFee, amount: u64, log: &mut EventLog) -> (r: Result<
    (),
    ExecutionError,
>)
    ensures
        r is Ok <==> invocation_accepted(*old(ctx), amount),
        r is Ok ==> transfer_applied(*old(ctx), *final(ctx), amount),
        r is Ok ==> final(log)@ == old(log)@.push(completion_of(*old(ctx), amount)),
        r is Err ==> *final(ctx) == *old(ctx) && final(log)@ == old(log)@,
        !old(ctx).accounts_well_formed() ==> r == Err::<(), ExecutionError>(
            ExecutionError::MalformedAccounts,
        ),
        old(ctx).accounts_well_formed() && !old(ctx).source_authorized() ==> r == Err::<
            (),
            ExecutionError,
        >(ExecutionError::Unauthorized),
        old(ctx).accounts_well_formed() && old(ctx).source_authorized() && !ledger::can_transfer(
            old(ctx).from,
            old(ctx).to,
            amount,
        ) ==> r == Err::<(), ExecutionError>(ExecutionError::TransferFailed),
{
    match authorize(ctx) {
        Err(e) => {
            return Err(e);
        },
        Ok(()) => {},
    }
    let request = TransferRequest::new(ctx.from.address, ctx.to.address, amount);
    match ledger::transfer(&mut ctx.from, &mut ctx.to, request.amount) {
        Err(_) => Err(ExecutionError::TransferFailed),
        Ok(()) => {
            log.emit(completion_event(&request));
            Ok(())
        },
    }
}

/// A single successful invocation emits exactly one event, never zero and
/// never more: a log that grew by a push holds one more entry than before,
/// every prior entry unmoved, with the new event at the end.
pub proof fn lemma_success_emits_exactly_one(
    pre: Seq<FeeCollected>,
    post: Seq<FeeCollected>,
    event: FeeCollected,
)
    requires
        post == pre.push(event),
    ensures
        post.len() == pre.len() + 1,
        forall|i: int| 0 <= i < pre.len() ==> post[i] == pre[i],
        post[pre.len() as int] == event,
{
}

/// A zero-amount invocation is accepted exactly when the context is
/// well formed and the source signed: the balance conditions hold of
/// every pair of accounts when nothing is to move.
pub proof fn lemma_zero_amount_accepted(ctx: CollectFee)
    ensures
        invocation_accepted(ctx, 0) <==> ctx.accounts_well_formed() && ctx.source_authorized(),
{
}

/// Applying a zero-amount transfer leaves both balances exactly as they
/// were; only the event records that the degenerate transfer happened.
pub proof fn lemma_zero_amount_preserves_balances(pre: CollectFee, post: CollectFee)
    requires
        transfer_applied(pre, post, 0),
    ensures
        post.from.balance == pre.from.balance,
        post.to.balance == pre.to.balance,
{
}

/// The completion event for a finished transfer request, field for field.
pub fn completion_event(request: &TransferRequest) -> (event: FeeCollected)
    ensures
        event.from == request.from,
        event.to == request.to,
        event.amount == request.amount,
{
    FeeCollected { from: request.from, to: request.to, amount: request.amount }
}

} // verus!
