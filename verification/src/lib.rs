//! Dynamic updates of single DNS resource records, decided step by step.
//!
//! The library holds the decisions of an update: how a typed request becomes
//! a record, which zone and which existing records a pair of lookups shows,
//! which calls an update consists of, and how the reverse mapping follows the
//! forward one. It performs no I/O: it says which call the caller is to make
//! next, and is handed what came back.
//!
//! - [`record`]: resource records as plain values, and how they are written.
//! - [`codec`]: from a request to a record, to its reverse record, and to the
//!   marker that stands for a record set.
//! - [`session`]: the calls that the library asks for, and the replies that
//!   it takes.
//! - [`resolver`]: from the answers to two lookups to the zone and the
//!   records that exist.
//! - [`orchestrator`]: the calls that change a name, and the machine that
//!   asks for them one by one.
//! - [`reverse`]: the names under which addresses are looked up in reverse.
//! - [`run`]: what holds of whole updates, from the first call to the last.
//! - [`error`]: what can go wrong, and how it is said.
//! - [`notation`]: decimal numbers and the notations of addresses.
//! - [`parse`]: the reading of values, which is left to the standard library
//!   and to `hickory_proto`.

pub mod codec;
pub mod error;
pub mod notation;
pub mod orchestrator;
pub mod parse;
pub mod record;
pub mod resolver;
pub mod reverse;
pub mod run;
pub mod session;
