//! A local, single-user secret vault: credentials encrypted under one master
//! passphrase, kept in a SQLite store, with a random password generator.

pub mod crypto;
pub mod db;
pub mod session;
pub mod vault;
