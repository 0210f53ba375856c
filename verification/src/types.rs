//! Plain value types the pool works on: asset identifiers, account
//! identities and payments.

use vstd::prelude::*;

verus! {

/// Identifier of a fungible asset.  The pool only ever compares
/// identifiers, so an opaque numeric handle carries everything it reads.
#[derive(Clone, Copy, Debug, PartialEq, Eq, Structural)]
pub struct TokenId(pub u64);

/// Identity of an account or of another contract instance.
#[derive(Clone, Copy, Debug, PartialEq, Eq, Structural)]
pub struct AccountId(pub u64);

/// One transferred amount of one asset, as an entry point receives or
/// emits it.
#[derive(Clone, Copy, Debug, PartialEq, Eq, Structural)]
pub struct TokenPayment {
    pub token_id: TokenId,
    pub token_nonce: u64,
    pub amount: u64,
}

impl TokenPayment {
    pub fn new(token_id: TokenId, token_nonce: u64, amount: u64) -> (p: TokenPayment)
        ensures
            p == (TokenPayment { token_id, token_nonce, amount }),
    {
        TokenPayment { token_id, token_nonce, amount }
    }
}

} // verus!
