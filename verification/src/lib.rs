//! An on-chain program with a single instruction, `initialize`, which takes no accounts and no
//! arguments, changes nothing and always succeeds.
//!
//! The program is written for the Anchor framework: the instruction handler receives the
//! framework's `Context` and answers with the framework's `Result`. The framework's types are
//! declared in [`framework`]; the handler and what is proved of it stand in
//! [`anchor_todo_list_project`].

use vstd::prelude::*;

pub mod anchor_todo_list_project;
pub mod framework;

verus! {

/// The address under which the program is deployed, as its 32 bytes. In base58 it reads
/// `7FdoTRNSdgya71wk4h3ZSf4dtuiW7ZJozSG3RBR8sxQR`. The runtime routes a transaction to the
/// program by this address.
pub const PROGRAM_ID: [u8; 32] = [
    92, 229, 221, 37, 240, 204, 194, 62, 140, 54, 114, 212, 157, 209, 214, 59,
    255, 18, 134, 7, 210, 142, 120, 19, 102, 192, 43, 108, 73, 236, 196, 202,
];

/// The accounts that the `initialize` instruction takes: none. The type has a single value.
pub struct Initialize {}

} // verus!
