//! A greeting program for an account-based runtime: it checks the account it
//! is handed, counts greetings in the account's first four bytes, and writes
//! the log lines that the host prints.

pub mod account;
pub mod counter;
pub mod decimal;
pub mod greeting;
pub mod program;
