//! Ownership and lifecycle core of a transactional key-value store binding.
//!
//! The storage engine itself is reached by the embedding program. This
//! library holds what that program decides with: the identity of the engine
//! objects it owns, the configuration it hands over, the outcome of opening a
//! database, and what the engine is asked for when a transaction begins, an
//! iterator is created or the database is closed.

pub mod error;
pub mod handle;
pub mod options;
pub mod transaction_db;
