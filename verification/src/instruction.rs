//! A dispatchable call: the program to run, the accounts it may touch, in
//! order, and the payload it is to interpret.

use crate::pubkey::Pubkey;
use vstd::prelude::*;

verus! {

/// One entry of a call's account list. The program finds its accounts by
/// position, so the order of the list is part of the call.
#[derive(Clone, Copy, Debug, Default, PartialEq, Eq)]
pub struct AccountMeta {
    /// The account.
    pub pubkey: Pubkey,
    /// Whether the call must carry a signature of this account.
    pub is_signer: bool,
    /// Whether the program may change the account.
    pub is_writable: bool,
}

impl AccountMeta {
    /// An account that the program may change.
    pub open spec fn writable(pubkey: Pubkey, is_signer: bool) -> AccountMeta {
        AccountMeta { pubkey, is_signer, is_writable: true }
    }

    /// An account that the program may only read.
    pub open spec fn readonly(pubkey: Pubkey, is_signer: bool) -> AccountMeta {
        AccountMeta { pubkey, is_signer, is_writable: false }
    }

    /// Describes an account that the program may change.
    pub fn new(pubkey: Pubkey, is_signer: bool) -> (meta: AccountMeta)
        ensures
            meta == Self::writable(pubkey, is_signer),
    {
        AccountMeta { pubkey, is_signer, is_writable: true }
    }

    /// Describes an account that the program may only read.
    pub fn new_readonly(pubkey: Pubkey, is_signer: bool) -> (meta: AccountMeta)
        ensures
            meta == Self::readonly(pubkey, is_signer),
    {
        AccountMeta { pubkey, is_signer, is_writable: false }
    }
}

/// A call ready to be dispatched.
#[derive(Clone, Debug, PartialEq, Eq)]
pub struct Instruction {
    /// The program that executes the call.
    pub program_id: Pubkey,
    /// The accounts handed to the program, in the order it expects them.
    pub accounts: Vec<AccountMeta>,
    /// The payload, opaque to everyone but the program.
    pub data: Vec<u8>,
}

} // verus!
