use vstd::prelude::*;

use crate::errors::LedgerError;
use crate::state::AccountRef;

verus! {

/// When the transfer primitive accepts a request: the source holds at
/// least the requested amount and crediting the destination stays within
/// the balance type.
pub open spec fn can_transfer(from: AccountRef, to: AccountRef, amount: u64) -> bool {
    &&& amount <= from.balance
    &&& to.balance + amount <= u64::MAX
}

/// The source account after a transfer: the amount left its balance and
/// everything else about the account is as before.
pub open spec fn debited(pre: AccountRef, post: AccountRef, amount: u64) -> bool {
    &&& post.address == pre.address
    &&& post.balance == pre.balance - amount
    &&& post.is_signer == pre.is_signer
    &&& post.is_writable == pre.is_writable
}

/// The destination account after a transfer: the amount joined its balance
/// and everything else about the account is as before.
pub open spec fn credited(pre: AccountRef, post: AccountRef, amount: u64) -> bool {
    &&& post.address == pre.address
    &&& post.balance == pre.balance + amount
    &&& post.is_signer == pre.is_signer
    &&& post.is_writable == pre.is_writable
}

/// The ledger's native transfer primitive over the two resolved accounts,
/// as the runtime specifies it: atomic, so either the full amount moves or
/// neither balance changes. Succeeds exactly when the source balance covers
/// the amount and the destination balance can take it.
pub fn transfer(from: &mut AccountRef, to: &mut AccountRef, amount: u64) -> (r: Result<
    (),
    LedgerError,
>)
    ensures
        r is Ok <==> can_transfer(*old(from), *old(to), amount),
        r is Ok ==> debited(*old(from), *final(from), amount) && credited(
            *old(to),
            *final(to),
            amount,
        ),
        r is Err ==> *final(from) == *old(from) && *final(to) == *old(to),
        old(from).balance < amount ==> r == Err::<(), LedgerError>(LedgerError::InsufficientFunds),
        amount <= old(from).balance && old(to).balance + amount > u64::MAX ==> r == Err::<
            (),
            LedgerError,
        >(LedgerError::BalanceOverflow),
{
    if from.balance < amount {
        return Err(LedgerError::InsufficientFunds);
    }
    match to.balance.checked_add(amount) {
        None => Err(LedgerError::BalanceOverflow),
        Some(credited_balance) => {
            from.balance = from.balance - amount;
            to.balance = credited_balance;
            Ok(())
        },
    }
}

} // verus!
