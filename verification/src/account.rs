//! Accounts as the operations see them: an address, the value held there,
//! and for a record account the record itself.
use vstd::prelude::*;
use crate::pubkey::Pubkey;

verus! {

/// A party that authorized the transaction, with the value it holds.
#[derive(Clone, Copy, Debug, PartialEq, Eq)]
pub struct Signer {
    pub key: Pubkey,
    pub lamports: u64,
}

/// An account that only holds value.
#[derive(Clone, Copy, Debug, PartialEq, Eq)]
pub struct SystemAccount {
    pub key: Pubkey,
    pub lamports: u64,
}

/// An account that holds value and one record of type `T`.
#[derive(Clone, Debug, PartialEq, Eq)]
pub struct Account<T> {
    pub key: Pubkey,
    pub lamports: u64,
    pub data: T,
}

/// Why value could not be moved from one holder to another.
#[derive(Clone, Copy, Debug, PartialEq, Eq, Structural)]
pub enum TransferError {
    /// The paying side holds less than the amount.
    InsufficientLamports,
    /// The receiving side would hold more than a `u64` can count.
    Overflow,
}

/// What `transfer` returns: the two holdings after `lamports` moved from the
/// first to the second, or the reason nothing moved.
pub open spec fn transfer_spec(from: u64, to: u64, lamports: u64) -> Result<
    (u64, u64),
    TransferError,
> {
    if from < lamports {
        Err(TransferError::InsufficientLamports)
    } else if to + lamports > u64::MAX {
        Err(TransferError::Overflow)
    } else {
        Ok(((from - lamports) as u64, (to + lamports) as u64))
    }
}

/// Moves `lamports` from a holding of `from` to a holding of `to` and returns
/// both holdings as they are afterwards.
pub fn transfer(from: u64, to: u64, lamports: u64) -> (r: Result<(u64, u64), TransferError>)
    ensures
        r == transfer_spec(from, to, lamports),
{
    if from < lamports {
        return Err(TransferError::InsufficientLamports);
    }
    match to.checked_add(lamports) {
        Some(credited) => Ok((from - lamports, credited)),
        None => Err(TransferError::Overflow),
    }
}

/// A transfer neither makes nor loses value.
pub proof fn lemma_transfer_conserves(from: u64, to: u64, lamports: u64)
    ensures
        match transfer_spec(from, to, lamports) {
            Ok((a, b)) => a + b == from + to && a == from - lamports,
            Err(_) => true,
        },
{
}

} // verus!
