//! Constructors for the "raft" engine.

use vstd::prelude::*;

use crate::ctor::{RaftDBOptions, RaftEngineConstructorExt};

verus! {

/// Constructs a raft engine of the kind `T` in the directory `path`.
pub fn new_engine<K, R, T: RaftEngineConstructorExt<K, R>>(
    path: &str,
    db_opt: Option<RaftDBOptions<K, R>>,
) -> (engine: T)
    ensures
        engine.is_raft_engine(path@, db_opt.deep_view()),
{
    T::new_raft_engine(path, db_opt)
}

} // verus!
