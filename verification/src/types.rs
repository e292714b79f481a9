//! The plain-value model of the surrounding ledger: 32-byte identifiers,
//! payment media, custodial vaults, and recipient balances.

use vstd::prelude::*;

verus! {

/// A 32-byte ledger identifier, held as four 64-bit words. It stands for a
/// buyer or creator identity, a content identifier, a token mint, or an
/// issued credential; the core only ever compares identifiers for equality.
#[derive(Clone, Copy, Debug, PartialEq, Eq, Hash, Structural)]
pub struct Id32 {
    pub w0: u64,
    pub w1: u64,
    pub w2: u64,
    pub w3: u64,
}

/// The medium a payment is made in: the ledger's native currency, or a
/// fungible token named by its mint identifier.
#[derive(Clone, Copy, Debug, PartialEq, Eq, Structural)]
pub enum PaymentMedium {
    Native,
    Token(Id32),
}

impl PaymentMedium {
    /// Whether the token accounts supplied with a call are valid for this
    /// medium: the native path needs none, the token path needs accounts
    /// supplied for exactly the declared mint.
    pub open spec fn accounts_ok_spec(&self, supplied_mint: Option<Id32>) -> bool {
        match *self {
            PaymentMedium::Native => true,
            PaymentMedium::Token(mint) => supplied_mint == Some(mint),
        }
    }

    /// Checks the supplied token accounts against this medium.
    pub fn accounts_ok(&self, supplied_mint: &Option<Id32>) -> (r: bool)
        ensures
            r == self.accounts_ok_spec(*supplied_mint),
    {
        match self {
            PaymentMedium::Native => true,
            PaymentMedium::Token(mint) => {
                match supplied_mint {
                    Some(m) => m == mint,
                    None => false,
                }
            },
        }
    }
}

/// A custodial balance holder bound 1:1 to an escrow record or a split
/// configuration. It is controlled by protocol-derived authority alone: the
/// only way value enters or leaves is through the operations of this crate,
/// applied by the ledger runtime.
#[derive(Clone, Copy, Debug, PartialEq, Eq, Structural)]
pub struct Vault {
    /// The held balance, in the smallest unit of the owner's medium.
    pub balance: u64,
}

impl Vault {
    /// A freshly derived vault holds nothing.
    pub fn new() -> (v: Vault)
        ensures
            v.balance == 0,
    {
        Vault { balance: 0 }
    }

    /// Moves `amount` into the vault.
    pub fn deposit(&mut self, amount: u64)
        requires
            old(self).balance + amount <= u64::MAX,
        ensures
            final(self).balance == old(self).balance + amount,
    {
        self.balance = self.balance + amount;
    }

    /// Moves `amount` out of the vault.
    pub fn withdraw(&mut self, amount: u64)
        requires
            amount <= old(self).balance,
        ensures
            final(self).balance == old(self).balance - amount,
    {
        self.balance = self.balance - amount;
    }
}

/// A per-call recipient account: the identity it was supplied under and its
/// balance in the medium of the call.
#[derive(Clone, Copy, Debug, PartialEq, Eq, Structural)]
pub struct RecipientAccount {
    pub identity: Id32,
    pub balance: u64,
}

} // verus!
