//! The types of the Anchor framework and of the Solana runtime that the program's signatures
//! name. Nothing here has a contract: each item only tells Verus that the type exists.

use vstd::prelude::*;

verus! {

/// `anchor_lang::context::Context`, what the framework hands to an instruction handler. Its four
/// fields are public, and Verus reads them as the framework defines them: the id of the running
/// program, a mutable borrow of the instruction's accounts, the accounts that were passed beyond
/// those, and the bump seeds by name. So a handler's contract can say what becomes of the
/// borrowed accounts.
#[verifier::external_type_specification]
#[verifier::reject_recursive_types(T)]
pub struct ExContext<'a, 'b, 'c, 'info, T>(anchor_lang::context::Context<'a, 'b, 'c, 'info, T>);

/// `anchor_lang::error::Error`, the error of the framework's `Result`. Verus sees nothing inside
/// a value of it.
#[verifier::external_type_specification]
#[verifier::external_body]
pub struct ExError(anchor_lang::error::Error);

/// `solana_program::pubkey::Pubkey`, an address on the ledger, declared because a field of
/// `Context` has this type. Verus sees nothing inside a value of it.
#[verifier::external_type_specification]
#[verifier::external_body]
pub struct ExPubkey(anchor_lang::solana_program::pubkey::Pubkey);

/// `solana_program::account_info::AccountInfo`, the runtime's handle on one account, declared
/// because a field of `Context` holds a slice of them. Verus sees nothing inside a value of it,
/// and no function of this library reaches the lamports or the data behind one.
#[verifier::external_type_specification]
#[verifier::external_body]
pub struct ExAccountInfo<'a>(anchor_lang::solana_program::account_info::AccountInfo<'a>);

} // verus!
