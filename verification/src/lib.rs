//! A client that keeps files in an object store and seals them before they leave: key pairs and
//! envelopes, named profiles of credentials and keys, and the session that commands act on.
//! What talks to the store, to the disk and to the terminal stands outside this library and is
//! told by it what to do next.

pub mod command;
pub mod config;
pub mod console;
pub mod crypto;
pub mod s3;
pub mod text;
