//! A terminal vault viewer: it decrypts a password-protected file of named
//! credentials, lets the user browse them, and copies a chosen secret to the
//! system clipboard. The input-driven state machine that governs the
//! interface, the record loader, and the clipboard handoff are verified.

pub mod account;
pub mod clipboard;
pub mod loader;
pub mod machine;
pub mod numeric;
pub mod state;
