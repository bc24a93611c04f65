//! A proposal / bond / reputation / voting engine for population-scaled
//! decentralized governance.
//!
//! Every state transition is a pure function from the records it reads to the
//! records it writes; moving tokens and loading or storing records is left to
//! the caller, which carries out the transfers that the engine asks for.

pub mod address;
pub mod error;
pub mod params;
pub mod proposal;
pub mod voting;
pub mod downstream;
pub mod laws;

pub use address::Address;
pub use error::GovernanceError;

