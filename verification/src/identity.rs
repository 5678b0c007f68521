//! Identities and the one authorization rule of the ledger: a caller is
//! let through when its key is the required key, and in no other case.

use crate::error::ErrorCode;
use anchor_lang::prelude::Pubkey;
use vstd::prelude::*;

verus! {

/// A public key, as `anchor_lang` hands it to a program. The ledger carries
/// keys and compares them; it never looks inside one.
#[verifier::external_type_specification]
#[verifier::external_body]
pub struct ExPubkey(anchor_lang::prelude::Pubkey);

/// Compares two keys with `==`, that is with the `PartialEq::eq` that
/// `solana_program` derives for `Pubkey` over the 32 bytes of a key
/// (`anchor_lang::prelude::Pubkey` is that type). Trusted, not proved: the
/// answer is `true` exactly when the two are the same key.
#[verifier::external_body]
fn same_key(a: &Pubkey, b: &Pubkey) -> (same: bool)
    ensures
        same == (*a == *b),
{
    a == b
}

/// Lets `actual` through when it is `expected`, and turns every other key
/// down as `Unauthorized`. There are no roles and no partial matches.
pub fn require_identity(actual: &Pubkey, expected: &Pubkey) -> (r: Result<(), ErrorCode>)
    ensures
        *actual == *expected ==> r == Ok::<(), ErrorCode>(()),
        *actual != *expected ==> r == Err::<(), ErrorCode>(ErrorCode::Unauthorized),
{
    if same_key(actual, expected) {
        Ok(())
    } else {
        Err(ErrorCode::Unauthorized)
    }
}

} // verus!
