//! The engine that refuses every use.

use vstd::prelude::*;

use crate::ctor::{CFOptions, DBOptions, KvEngineConstructorExt, RaftEngineConstructorExt};

verus! {

/// An engine without any data, which takes no options. Constructing it always
/// succeeds; every use of it is an error.
pub struct PanicEngine;

impl<K, R> KvEngineConstructorExt<K, R> for PanicEngine {
    open spec fn is_kv_engine(
        self,
        path: Seq<char>,
        db_opt: Option<crate::ctor::DBOptionsView<K, R>>,
        cfs: Seq<crate::ctor::CFOptionsView>,
    ) -> bool {
        self == PanicEngine
    }

    fn new_kv_engine(
        _path: &str,
        _db_opt: Option<DBOptions<K, R>>,
        _cfs: &[&str],
        _opts: Option<Vec<CFOptions>>,
    ) -> (engine: Self) {
        PanicEngine
    }

    fn new_kv_engine_opt(
        _path: &str,
        _db_opt: DBOptions<K, R>,
        _cfs_opts: Vec<CFOptions>,
    ) -> (engine: Self) {
        PanicEngine
    }
}

impl<K, R> RaftEngineConstructorExt<K, R> for PanicEngine {
    open spec fn is_raft_engine(
        self,
        path: Seq<char>,
        db_opt: Option<crate::ctor::DBOptionsView<K, R>>,
    ) -> bool {
        self == PanicEngine
    }

    fn new_raft_engine(_path: &str, _db_opt: Option<DBOptions<K, R>>) -> (engine: Self) {
        PanicEngine
    }
}

} // verus!
