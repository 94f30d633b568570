use vstd::prelude::*;

use crate::address::Address;

verus! {

/// One side of a token movement: the contract instance that performs it (its escrow),
/// or an outside account.
#[derive(Clone, Copy, Debug, PartialEq, Eq)]
pub enum Party {
    Contract,
    Account(Address),
}

/// A token movement that a contract operation asks the host to carry out.  When
/// `via_allowance` is set the contract moves the tokens as spender of the payer's
/// allowance, so the payer does not sign the call; otherwise the payer authorises the
/// movement itself.
#[derive(Clone, Copy, Debug, PartialEq, Eq)]
pub struct Transfer {
    pub token: Address,
    pub from: Party,
    pub to: Party,
    pub amount: i128,
    pub via_allowance: bool,
}

/// Tokens moved from `from` into the contract's escrow.
pub open spec fn deposit(token: Address, from: Address, amount: int) -> Transfer {
    Transfer { token, from: Party::Account(from), to: Party::Contract, amount: amount as i128, via_allowance: false }
}

/// Tokens released from the contract's escrow to `to`.
pub open spec fn payout(token: Address, to: Address, amount: int) -> Transfer {
    Transfer { token, from: Party::Contract, to: Party::Account(to), amount: amount as i128, via_allowance: false }
}

/// Tokens moved directly between two accounts, through the payer's allowance when
/// `via_allowance` is set.
pub open spec fn direct(
    token: Address,
    from: Address,
    to: Address,
    amount: int,
    via_allowance: bool,
) -> Transfer {
    Transfer {
        token,
        from: Party::Account(from),
        to: Party::Account(to),
        amount: amount as i128,
        via_allowance,
    }
}

} // verus!
