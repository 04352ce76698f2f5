//! Engines for use in a test suite: how they are configured, and the factory
//! that keeps the stores of single regions.
//!
//! A server uses two different storage engine instances, the "raft" engine, for
//! storing consensus data, and the "kv" engine, for storing user data. The
//! constructors for these two are located in the `raft` and `kv` modules
//! respectively. Which kind of engine they construct is chosen at compile time,
//! as a type parameter. The kinds are
//!
//! - `RocksEngine`, for either
//! - `PanicEngine`, for either
//! - `RaftLogEngine`, for the "raft" engine alone
//!
//! An engine is constructed as a value that describes it, from which the storage
//! library that it belongs to opens it. The `ctor` module holds the options and
//! the constructors of each kind.
//!
//! The `run` module puts the steps of the factory together to whole operations.
//! The `laws` module states what holds of these, and the `path` module what holds
//! of the paths of tablets.

pub mod ctor;
pub mod decimal;
pub mod kv;
pub mod laws;
pub mod path;
pub mod raft;
pub mod registry;
pub mod run;
mod shared;
pub mod temp;

pub use temp::new_temp_engine;
