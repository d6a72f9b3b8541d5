//! Plain-value model of a token payment: the ledger's token kinds are
//! identified by numeric ids, semi-fungible tokens carry a nonce.

use vstd::prelude::*;

verus! {

/// A payment of `amount` units of the token `token_identifier`, at nonce
/// `token_nonce` for semi-fungible tokens (nonce zero for fungible ones).
#[derive(Clone, Copy, Debug, PartialEq, Eq, Structural)]
pub struct EsdtTokenPayment {
    pub token_identifier: u64,
    pub token_nonce: u64,
    pub amount: u64,
}

impl EsdtTokenPayment {
    pub fn new(token_identifier: u64, token_nonce: u64, amount: u64) -> (r: EsdtTokenPayment)
        ensures
            r == (EsdtTokenPayment { token_identifier, token_nonce, amount }),
    {
        EsdtTokenPayment { token_identifier, token_nonce, amount }
    }
}

} // verus!
