//! The program's instruction handlers, and what holds of them.

use anchor_lang::context::Context;
use anchor_lang::error::Error;
use crate::Initialize;
use vstd::prelude::*;

verus! {

/// The accounts of `initialize` once the instruction has run on `before`. The instruction writes
/// nothing, so they are `before`.
pub open spec fn accounts_after_initialize(before: Initialize) -> Initialize {
    before
}

/// The accounts after `n` invocations of `initialize` in a row, the first of them on `before`.
pub open spec fn accounts_after_invocations(n: nat, before: Initialize) -> Initialize
    decreases n,
{
    if n == 0 {
        before
    } else {
        accounts_after_invocations((n - 1) as nat, accounts_after_initialize(before))
    }
}

/// The `initialize` instruction. It asks nothing of the context: whatever the program id, the
/// remaining accounts and the bump seeds in it, the instruction succeeds, and the accounts that
/// the context borrows are afterwards what they were before.
pub fn initialize(ctx: Context<Initialize>) -> (result: Result<(), Error>)
    ensures
        result == Ok::<(), Error>(()),
        *final(ctx.accounts) == accounts_after_initialize(*old(ctx.accounts)),
{
    Ok(())
}

/// Invoking `initialize` is idempotent: a second invocation adds nothing to the first, and any
/// number of invocations in a row leaves the accounts as they were before the first.
pub proof fn initialize_is_idempotent(n: nat, before: Initialize)
    ensures
        accounts_after_initialize(accounts_after_initialize(before)) == accounts_after_initialize(
            before,
        ),
        accounts_after_invocations(n, before) == before,
    decreases n,
{
    if n > 0 {
        initialize_is_idempotent((n - 1) as nat, accounts_after_initialize(before));
    }
}

} // verus!
