//! Accounts as the host presents them to a program.

use vstd::prelude::*;
use crate::error::ProgramError;
use crate::pubkey::Pubkey;

verus! {

/// One account of the host's ledger, as handed to a program for the length of
/// one request.
#[derive(Clone, Debug)]
pub struct AccountInfo {
    /// Address of the account.
    pub key: Pubkey,
    /// Whether the request carries this account's authorization.
    pub is_signer: bool,
    /// Whether the request may change this account.
    pub is_writable: bool,
    /// Balance of the account.
    pub lamports: u64,
    /// Storage of the account.
    pub data: Vec<u8>,
    /// The program that controls the account.
    pub owner: Pubkey,
    /// Whether the storage holds a program.
    pub executable: bool,
    /// The epoch at which the account next owes rent.
    pub rent_epoch: u64,
}

/// What an `AccountInfo` holds, as mathematical values.
pub struct AccountState {
    pub key: Seq<u8>,
    pub is_signer: bool,
    pub is_writable: bool,
    pub lamports: u64,
    pub data: Seq<u8>,
    pub owner: Seq<u8>,
    pub executable: bool,
    pub rent_epoch: u64,
}

impl View for AccountInfo {
    type V = AccountState;

    open spec fn view(&self) -> AccountState {
        AccountState {
            key: self.key@,
            is_signer: self.is_signer,
            is_writable: self.is_writable,
            lamports: self.lamports,
            data: self.data@,
            owner: self.owner@,
            executable: self.executable,
            rent_epoch: self.rent_epoch,
        }
    }
}

/// The states of a list of accounts, in order.
pub open spec fn states(accounts: Seq<AccountInfo>) -> Seq<AccountState> {
    Seq::new(accounts.len(), |i: int| accounts[i]@)
}

impl AccountInfo {
    /// An account with the given contents.
    pub fn new(
        key: &Pubkey,
        is_signer: bool,
        is_writable: bool,
        lamports: u64,
        data: Vec<u8>,
        owner: &Pubkey,
        executable: bool,
        rent_epoch: u64,
    ) -> (account: AccountInfo)
        ensures
            account@ == (AccountState {
                key: key@,
                is_signer,
                is_writable,
                lamports,
                data: data@,
                owner: owner@,
                executable,
                rent_epoch,
            }),
    {
        AccountInfo {
            key: *key,
            is_signer,
            is_writable,
            lamports,
            data,
            owner: *owner,
            executable,
            rent_epoch,
        }
    }

    /// Checks that the program `expected` controls this account.
    pub fn validate_ownership(&self, expected: &Pubkey) -> (res: Result<(), ProgramError>)
        ensures
            res == if self@.owner == expected@ {
                Ok::<(), ProgramError>(())
            } else {
                Err::<(), ProgramError>(ProgramError::WrongController)
            },
    {
        if self.owner == *expected {
            Ok(())
        } else {
            Err(ProgramError::WrongController)
        }
    }

    /// Checks that the request carries the authorization of this account.
    /// For a record account the authorization is the proof of its deriver,
    /// which the host has checked; it is no signature of an owner.
    pub fn validate_authority(&self) -> (res: Result<(), ProgramError>)
        ensures
            res == if self@.is_signer {
                Ok::<(), ProgramError>(())
            } else {
                Err::<(), ProgramError>(ProgramError::MissingAuthority)
            },
    {
        if self.is_signer {
            Ok(())
        } else {
            Err(ProgramError::MissingAuthority)
        }
    }
}

} // verus!
