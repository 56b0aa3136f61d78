//! Persistent state of a desktop document reader, without the I/O.
//!
//! The crate decides; its host performs. The host queries the environment,
//! touches the file system and turns text into records, and hands what it saw
//! to the functions here:
//!
//! * [`paths`] resolves where each store lives,
//! * [`store`] leads a read or a write of a store step by step, and says what
//!   a load yields whatever the read ended in,
//! * [`config`] holds the settings record and its import and export errors,
//! * [`history`] keeps the bounded list of recently opened documents.

pub mod config;
pub mod history;
pub mod paths;
pub mod store;
