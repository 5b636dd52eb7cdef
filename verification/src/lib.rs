//! A per-room session relay: one proctor and many members exchange text
//! events through mailboxes, with a fixed topology that is proved here.
//!
//! `server` holds the relay of one room and `topology` what its rules add up
//! to; `session` decides what a client's session does to the relay, `wire`
//! reads and writes the JSON that crosses sockets and mailboxes, `mailbox`
//! is the channel into a session, and `directory` keeps one relay for each
//! room. The other modules decide for the HTTP side: who a request comes
//! from (`token`, `claims`, `auth`), what it is answered with (`controller`,
//! `accounts`, `profile`), and how secrets and wallets are kept
//! (`encryption`, `wallet`).

pub mod accounts;
pub mod auth;
pub mod claims;
pub mod controller;
pub mod decimal;
pub mod directory;
pub mod encryption;
mod entropy;
pub mod mailbox;
pub mod profile;
pub mod server;
pub mod session;
pub mod token;
pub mod topology;
pub mod user_type;
pub mod wallet;
pub mod wire;
