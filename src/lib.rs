//! A rate-limited token vault with pre-authorised, time-bounded transfers.
//!
//! The library holds the program's logic: the fixed byte layouts of its
//! records and instructions, the derivation seeds of its accounts, the
//! sliding-window withdrawal engine, and the handlers that validate accounts
//! and decide which ledger actions an instruction performs.
pub mod codec;
pub mod errors;
pub mod instructions;
pub mod keys;
pub mod laws;
pub mod ledger;
pub mod processors;
pub mod states;
pub mod withdraw;
