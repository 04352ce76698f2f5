//! Engines in a temporary directory.

use tempfile::TempDir;
use vstd::prelude::*;

use crate::ctor::{column_families, KvEngineConstructorExt, RaftEngineConstructorExt};
use crate::path::{join, joined};
use crate::{kv, raft};

verus! {

/// `tempfile::TempDir`: a directory that goes away with its value.
#[verifier::external_type_specification]
#[verifier::external_body]
pub struct ExTempDir(tempfile::TempDir);

/// The path of a temporary directory as text, if it is valid UTF-8. The path is
/// fixed when the directory is made, and stays with the value.
pub uninterp spec fn temp_dir_text(dir: TempDir) -> Option<Seq<char>>;

/// `TempDir::path`, as text. Believed of it: it gives the path that the
/// directory was made with, whenever it is asked.
#[verifier::external_body]
fn temp_dir_path(dir: &TempDir) -> (path: Option<String>)
    ensures
        match path {
            Some(path) => temp_dir_text(*dir) == Some(path@),
            None => temp_dir_text(*dir) is None,
        },
{
    dir.path().to_str().map(|path| path.to_string())
}

/// A kv engine and a raft engine that belong together.
pub struct Engines<T, U> {
    pub kv: T,
    pub raft: U,
}

/// Whether two engines are those for a directory: the kv engine in it, with
/// plain column families, the raft engine in a directory `raft` below, both
/// without options.
pub open spec fn are_engines_at<
    K,
    R,
    T: KvEngineConstructorExt<K, R>,
    U: RaftEngineConstructorExt<K, R>,
>(engines: Engines<T, U>, dir: Seq<char>, cfs: Seq<Seq<char>>) -> bool {
    &&& engines.kv.is_kv_engine(dir, None, column_families(cfs, None))
    &&& engines.raft.is_raft_engine(joined(dir, "raft"@), None)
}

/// Creates a set of engines in a directory, with the column families `all_cfs`.
pub fn new_engines_at<
    K,
    R,
    T: KvEngineConstructorExt<K, R>,
    U: RaftEngineConstructorExt<K, R>,
>(path: &str, all_cfs: &[&str]) -> (engines: Engines<T, U>)
    ensures
        are_engines_at::<K, R, T, U>(engines, path@, all_cfs.deep_view()),
{
    let raft_path = join(path, "raft");
    Engines {
        kv: kv::new_engine::<K, R, T>(path, None, all_cfs, None),
        raft: raft::new_engine::<K, R, U>(raft_path.as_str(), None),
    }
}

/// Creates a set of engines in a temporary directory, with the column families
/// `all_cfs`. `None` where the path of the directory is not valid UTF-8.
pub fn new_temp_engine<
    K,
    R,
    T: KvEngineConstructorExt<K, R>,
    U: RaftEngineConstructorExt<K, R>,
>(path: &TempDir, all_cfs: &[&str]) -> (engines: Option<Engines<T, U>>)
    ensures
        match temp_dir_text(*path) {
            Some(dir) => engines matches Some(engines) && are_engines_at::<K, R, T, U>(
                engines,
                dir,
                all_cfs.deep_view(),
            ),
            None => engines is None,
        },
{
    match temp_dir_path(path) {
        Some(dir) => Some(new_engines_at::<K, R, T, U>(dir.as_str(), all_cfs)),
        None => None,
    }
}

} // verus!
