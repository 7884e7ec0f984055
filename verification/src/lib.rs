//! A two-stage pipeline of verifiable computation. A private program is
//! proved on this machine; its proof is chained as an assumption into the
//! proof of a public program; the seal and the statement of that second proof
//! are encoded into a call for a ledger contract and sent, once.
//!
//! The library decides and encodes; it proves nothing and sends nothing
//! itself. [`pipeline`] is the run as a state machine: its caller does what
//! each action asks for and reports the outcome as the next event. The other
//! modules are the steps of a run, each usable on its own:
//! [`chaining`] builds the environments of the two stages, [`journal`] is the
//! codec of the private program's input and output, [`seal`] and
//! [`statement`] read the second proof, and [`call`] writes the call.

pub mod artifact;
pub mod bytes;
pub mod call;
pub mod chaining;
pub mod environment;
pub mod error;
pub mod journal;
pub mod pipeline;
pub mod seal;
pub mod statement;
pub mod uint256;
