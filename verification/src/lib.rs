//! Construction of ledger instructions (mint creation, token minting, SOL and
//! token transfers) together with keypair generation, message signing and
//! signature verification.  Each request handler takes a plain request value,
//! validates it, calls into the blockchain SDK where cryptography or
//! instruction encoding is needed, and returns a response envelope whose
//! fields are pinned down by the function's contract.

pub mod bytes;
pub mod common;
pub mod create_token;
pub mod generate_keypair;
pub mod mint_token;
pub mod model;
pub mod sdk;
pub mod send_sol;
pub mod send_token;
pub mod sign_message;
pub mod verify_message;
