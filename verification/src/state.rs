use vstd::prelude::*;

verus! {

/// A fixed-width account address: the ledger identifies every account by a
/// 32-byte key, held here as four little-endian 64-bit words.
#[derive(Clone, Copy, PartialEq, Eq, Structural, Debug)]
pub struct Address {
    pub w0: u64,
    pub w1: u64,
    pub w2: u64,
    pub w3: u64,
}

/// A resolved ledger account as the runtime hands it to the handler: its
/// address, its current balance, and the runtime's findings about it for
/// the current invocation.
#[derive(Clone, Copy, PartialEq, Eq, Structural, Debug)]
pub struct AccountRef {
    pub address: Address,
    /// Balance in the ledger's smallest native unit.
    pub balance: u64,
    /// Whether this account's controlling key signed the current invocation.
    pub is_signer: bool,
    /// Whether the runtime resolved this account as writable.
    pub is_writable: bool,
}

/// The capability token for the ledger's native transfer primitive. The
/// runtime resolves the token before the handler runs and records here
/// whether it refers to the genuine runtime-provided transfer facility,
/// so that no substitute transfer routine can be passed in its place.
#[derive(Clone, Copy, PartialEq, Eq, Structural, Debug)]
pub struct SystemAuthority {
    pub genuine: bool,
}

/// The invocation context of `collect_fee`: the paying account (which must
/// have signed), the receiving account, and the capability token for the
/// transfer primitive.
#[derive(Clone, Copy, PartialEq, Eq, Structural, Debug)]
pub struct CollectFee {
    pub from: AccountRef,
    pub to: AccountRef,
    pub system_program: SystemAuthority,
}

impl CollectFee {
    /// The shape validation owed by the runtime before the handler runs:
    /// both accounts were resolved writable and the capability token refers
    /// to the genuine transfer primitive.
    pub open spec fn accounts_well_formed(self) -> bool {
        &&& self.from.is_writable
        &&& self.to.is_writable
        &&& self.system_program.genuine
    }

    /// The sole authorization condition: the source account signed the
    /// current invocation.
    pub open spec fn source_authorized(self) -> bool {
        self.from.is_signer
    }
}

} // verus!
