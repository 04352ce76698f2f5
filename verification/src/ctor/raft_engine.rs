//! Construction of the engine that keeps raft logs.

use std::sync::Arc;
use vstd::prelude::*;

use crate::ctor::{RaftDBOptions, RaftEngineConstructorExt};

verus! {

/// What is configured of a raft log engine. What is not here is left as it is
/// by default.
pub struct RaftEngineConfig {
    /// The directory of the engine.
    pub dir: String,
}

/// A raft log engine to be opened.
pub struct RaftLogEngine<K, R> {
    pub config: RaftEngineConfig,
    pub key_manager: Option<Arc<K>>,
    pub rate_limiter: Option<Arc<R>>,
}

impl<K, R> RaftEngineConstructorExt<K, R> for RaftLogEngine<K, R> {
    open spec fn is_raft_engine(
        self,
        path: Seq<char>,
        db_opt: Option<crate::ctor::DBOptionsView<K, R>>,
    ) -> bool {
        &&& self.config.dir@ == path
        &&& match db_opt {
            Some(opts) => self.key_manager == opts.key_manager && self.rate_limiter
                == opts.rate_limiter,
            None => self.key_manager is None && self.rate_limiter is None,
        }
    }

    fn new_raft_engine(path: &str, db_opts: Option<RaftDBOptions<K, R>>) -> (engine: Self) {
        let config = RaftEngineConfig { dir: path.to_owned() };
        match db_opts {
            Some(opts) => {
                let (key_manager, rate_limiter, _) = opts.into_parts();
                RaftLogEngine { config, key_manager, rate_limiter }
            },
            None => RaftLogEngine { config, key_manager: None, rate_limiter: None },
        }
    }
}

} // verus!
