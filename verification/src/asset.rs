//! What the ledger sees of the fungible asset service, and what it asks of it.
//!
//! Balances live in the asset service. The ledger reads a snapshot of the
//! accounts an operation touches, decides, and answers with the instructions
//! that the caller hands to the service. The ledger's counters and the
//! instructions belong together: the caller keeps the new counters only if the
//! service carried the instructions out.

use vstd::prelude::*;
use crate::identity::Address;

verus! {

/// A snapshot of one balance account of the asset service.
#[derive(Clone, Copy, Debug, PartialEq, Eq)]
pub struct TokenAccount {
    /// Where the account lives.
    pub key: Address,
    /// Who may debit it.
    pub owner: Address,
    /// What it holds.
    pub amount: u64,
}

/// A snapshot of one token of the asset service.
#[derive(Clone, Copy, Debug, PartialEq, Eq)]
pub struct Mint {
    /// Where the token lives.
    pub key: Address,
    /// Who may mint it; nobody, once the right was given up.
    pub mint_authority: Option<Address>,
}

impl Mint {
    /// `who` holds the right to mint the token.
    pub open spec fn may_be_minted_by(self, who: Address) -> bool {
        self.mint_authority == Some(who)
    }

    /// Whether `who` holds the right to mint the token.
    pub fn is_minted_by(&self, who: &Address) -> (ok: bool)
        ensures
            ok == self.may_be_minted_by(*who),
    {
        match &self.mint_authority {
            Some(authority) => authority.equals(who),
            None => false,
        }
    }
}

/// Move `amount` from one balance account to another.
#[derive(Clone, Copy, Debug, PartialEq, Eq)]
pub struct Transfer {
    pub from: Address,
    pub to: Address,
    /// The identity in whose name the debit is made.
    pub authority: Address,
    pub amount: u64,
}

/// Create `amount` new units of the token `mint` in the account `to`.
#[derive(Clone, Copy, Debug, PartialEq, Eq)]
pub struct MintTo {
    pub mint: Address,
    pub to: Address,
    /// The identity that holds the right to mint.
    pub authority: Address,
    pub amount: u64,
}

/// Give up the right to mint the token `mint`, for good: the service is asked
/// to leave the token without any minting authority.
#[derive(Clone, Copy, Debug, PartialEq, Eq)]
pub struct RevokeMintAuthority {
    pub mint: Address,
    /// The identity that holds the right until now.
    pub current_authority: Address,
}

impl MintTo {
    /// Whether the service, which mints only in the name of the one that
    /// holds the right, carries the instruction out on `mint`.
    pub open spec fn accepted_by(self, mint: Mint) -> bool {
        mint.key == self.mint && mint.may_be_minted_by(self.authority)
    }
}

impl RevokeMintAuthority {
    /// Whether the service carries the instruction out on `mint`.
    pub open spec fn accepted_by(self, mint: Mint) -> bool {
        mint.key == self.mint && mint.may_be_minted_by(self.current_authority)
    }

    /// The token once the service has carried the instruction out: nobody
    /// may mint it.
    pub open spec fn applied_to(self, mint: Mint) -> Mint {
        if self.accepted_by(mint) {
            Mint { mint_authority: None, ..mint }
        } else {
            mint
        }
    }
}

/// Once the right to mint a token was given up, the service carries out no
/// instruction to mint it, in whose name ever, and none to give the right up
/// again: the token stays without anybody who may mint it.
pub proof fn lemma_revocation_is_final(
    mint: Mint,
    revocation: RevokeMintAuthority,
    later_grant: MintTo,
    later_revocation: RevokeMintAuthority,
)
    requires
        revocation.accepted_by(mint),
    ensures
        revocation.applied_to(mint).mint_authority is None,
        !later_grant.accepted_by(revocation.applied_to(mint)),
        later_revocation.applied_to(revocation.applied_to(mint)) == revocation.applied_to(mint),
{
}

impl Transfer {
    /// The balance of the account `account`, which held `balance`, once the
    /// service has carried the transfer out.
    pub open spec fn balance_after(self, account: Address, balance: int) -> int {
        balance - (if account == self.from {
            self.amount as int
        } else {
            0
        }) + (if account == self.to {
            self.amount as int
        } else {
            0
        })
    }
}

/// A transfer creates nothing and destroys nothing: what two accounts hold
/// together is the same before and after, if both or neither take part in it.
/// The paying account has less by the amount, the receiving one more.
pub proof fn lemma_transfer_conserves(
    transfer: Transfer,
    first: Address,
    first_balance: int,
    second: Address,
    second_balance: int,
)
    requires
        first != second,
        (first == transfer.from || first == transfer.to) <==> (second == transfer.from || second
            == transfer.to),
    ensures
        transfer.balance_after(first, first_balance) + transfer.balance_after(
            second,
            second_balance,
        ) == first_balance + second_balance,
        transfer.from != transfer.to ==> transfer.balance_after(transfer.from, first_balance)
            == first_balance - transfer.amount,
        transfer.from != transfer.to ==> transfer.balance_after(transfer.to, second_balance)
            == second_balance + transfer.amount,
{
}

} // verus!
