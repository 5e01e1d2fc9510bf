//! Why a request is aborted.

use vstd::prelude::*;

verus! {

/// The reasons for which a request is aborted. Each of them ends the request:
/// nothing is retried, and a request that ends with one of them has changed
/// no account.
#[derive(Clone, Copy, Debug, PartialEq, Eq, Structural)]
pub enum ProgramError {
    /// The instruction payload is not the encoding of an instruction.
    InstructionDecodeFailure,
    /// Fewer accounts were supplied than the instruction requires.
    NotEnoughAccounts,
    /// A supplied account is not the address derived for the owner.
    InvalidDerivation,
    /// The record account is not controlled by the record service.
    WrongController,
    /// The record account does not carry the authorization of its deriver.
    MissingAuthority,
    /// The storage of the record account is not the encoding of a record.
    InvalidAccountData,
    /// The host did not create a record account, and gave this code.
    AccountCreationFailure(u64),
    /// The record service, called through the host, failed with this code.
    DelegatedCallFailed(u64),
}

} // verus!
