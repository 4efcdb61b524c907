use vstd::prelude::*;

use crate::errors::ExecutionError;
use crate::handler::{authorize, TransferRequest};
use crate::state::{Address, CollectFee};

use anchor_lang::solana_program::instruction::Instruction;
use anchor_lang::solana_program::pubkey::Pubkey;

verus! {

/// The runtime's 32-byte account key, opaque to the library: values of it
/// are built and carried through, never read.
#[verifier::external_type_specification]
#[verifier::external_body]
pub struct ExPubkey(Pubkey);

/// The runtime's instruction record, opaque to the library: the invoking
/// shell hands it to the ledger unchanged.
#[verifier::external_type_specification]
#[verifier::external_body]
pub struct ExInstruction(Instruction);

/// The runtime key an address packs into: `Pubkey::new_from_array` over
/// the address's four words, little-endian word by word. A function of the
/// address alone.
pub uninterp spec fn key_of(address: Address) -> Pubkey;

/// What the system interface's `transfer` constructor returns for a
/// source key, a destination key and an amount. A function of the three
/// arguments alone.
pub uninterp spec fn transfer_instruction_of(from: Pubkey, to: Pubkey, lamports: u64) -> Instruction;

/// Relies on `Pubkey::new_from_array`: packs the four little-endian words
/// of the address into the runtime's 32-byte key and reads nothing else.
#[verifier::external_body]
fn runtime_key(address: &Address) -> (key: Pubkey)
    ensures
        key == key_of(*address),
{
    let mut bytes = [0u8; 32];
    bytes[0..8].copy_from_slice(&address.w0.to_le_bytes());
    bytes[8..16].copy_from_slice(&address.w1.to_le_bytes());
    bytes[16..24].copy_from_slice(&address.w2.to_le_bytes());
    bytes[24..32].copy_from_slice(&address.w3.to_le_bytes());
    Pubkey::new_from_array(bytes)
}

/// Relies on the system interface's `transfer` constructor: it builds the
/// native instruction that moves `lamports` from `from_pubkey` to
/// `to_pubkey`, reading nothing but its three arguments.
pub assume_specification[ anchor_lang::solana_program::system_instruction::transfer ](
    from_pubkey: &Pubkey,
    to_pubkey: &Pubkey,
    lamports: u64,
) -> (r: Instruction)
    ensures
        r == transfer_instruction_of(*from_pubkey, *to_pubkey, lamports),
;

/// The native form of a transfer request: one runtime key per address,
/// then the system interface's instruction constructor on the amount.
pub fn native_transfer_instruction(request: &TransferRequest) -> (ix: Instruction)
    ensures
        ix == transfer_instruction_of(key_of(request.from), key_of(request.to), request.amount),
{
    let from = runtime_key(&request.from);
    let to = runtime_key(&request.to);
    anchor_lang::solana_program::system_instruction::transfer(&from, &to, request.amount)
}

/// Everything the instruction does before any state is touched: shape
/// validation, then the source's authorization, then construction of the
/// native transfer instruction moving exactly `amount` from the source
/// address to the destination address. Where a check fails, the error the
/// whole invocation must fail with comes back instead.
pub fn prepare_native_transfer(ctx: &CollectFee, amount: u64) -> (r: Result<
    Instruction,
    ExecutionError,
>)
    ensures
        r is Ok <==> ctx.accounts_well_formed() && ctx.source_authorized(),
        r is Ok ==> r->Ok_0 == transfer_instruction_of(
            key_of(ctx.from.address),
            key_of(ctx.to.address),
            amount,
        ),
        !ctx.accounts_well_formed() ==> r == Err::<Instruction, ExecutionError>(
            ExecutionError::MalformedAccounts,
        ),
        ctx.accounts_well_formed() && !ctx.source_authorized() ==> r == Err::<
            Instruction,
            ExecutionError,
        >(ExecutionError::Unauthorized),
{
    match authorize(ctx) {
        Err(e) => Err(e),
        Ok(()) => {
            let request = TransferRequest::new(ctx.from.address, ctx.to.address, amount);
            Ok(native_transfer_instruction(&request))
        },
    }
}

} // verus!
