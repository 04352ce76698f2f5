//! Construction of storage engines of any kind.
//!
//! An engine is constructed in two steps. The constructors here work out
//! everything that opening the engine takes, as a value that describes the
//! engine. Opening the engine that is described is left to the storage library
//! that it belongs to.

pub mod panic_engine;
pub mod raft_engine;
pub mod rocks;

use std::sync::Arc;
use vstd::prelude::*;

use crate::shared::share_option;

verus! {

/// The column family that every store has.
pub const CF_DEFAULT: &'static str = "default";

/// Options of a whole store, with a key manager of type `K` and a rate limiter
/// of type `R`.
pub struct DBOptions<K, R> {
    key_manager: Option<Arc<K>>,
    rate_limiter: Option<Arc<R>>,
    enable_multi_batch_write: bool,
}

/// What `DBOptions` hold.
pub struct DBOptionsView<K, R> {
    pub key_manager: Option<Arc<K>>,
    pub rate_limiter: Option<Arc<R>>,
    pub enable_multi_batch_write: bool,
}

impl<K, R> View for DBOptions<K, R> {
    type V = DBOptionsView<K, R>;

    closed spec fn view(&self) -> DBOptionsView<K, R> {
        DBOptionsView {
            key_manager: self.key_manager,
            rate_limiter: self.rate_limiter,
            enable_multi_batch_write: self.enable_multi_batch_write,
        }
    }
}

impl<K, R> DeepView for DBOptions<K, R> {
    type V = DBOptionsView<K, R>;

    open spec fn deep_view(&self) -> DBOptionsView<K, R> {
        self@
    }
}

impl<K, R> Default for DBOptions<K, R> {
    /// No key manager, no rate limiter, and multi batch write left off.
    fn default() -> (options: Self)
        ensures
            options@ == (DBOptionsView::<K, R> {
                key_manager: None,
                rate_limiter: None,
                enable_multi_batch_write: false,
            }),
    {
        DBOptions { key_manager: None, rate_limiter: None, enable_multi_batch_write: false }
    }
}

impl<K, R> Clone for DBOptions<K, R> {
    /// Options that share the key manager and the rate limiter.
    fn clone(&self) -> (options: Self)
        ensures
            options == *self,
    {
        DBOptions {
            key_manager: share_option(&self.key_manager),
            rate_limiter: share_option(&self.rate_limiter),
            enable_multi_batch_write: self.enable_multi_batch_write,
        }
    }
}

impl<K, R> DBOptions<K, R> {
    pub fn set_key_manager(&mut self, key_manager: Option<Arc<K>>)
        ensures
            final(self)@ == (DBOptionsView { key_manager, ..old(self)@ }),
    {
        self.key_manager = key_manager;
    }

    pub fn set_rate_limiter(&mut self, rate_limiter: Option<Arc<R>>)
        ensures
            final(self)@ == (DBOptionsView { rate_limiter, ..old(self)@ }),
    {
        self.rate_limiter = rate_limiter;
    }

    pub fn set_enable_multi_batch_write(&mut self, enable: bool)
        ensures
            final(self)@ == (DBOptionsView { enable_multi_batch_write: enable, ..old(self)@ }),
    {
        self.enable_multi_batch_write = enable;
    }

    /// The key manager, the rate limiter, and whether multi batch write is on.
    pub(crate) fn into_parts(self) -> (parts: (Option<Arc<K>>, Option<Arc<R>>, bool))
        ensures
            parts.0 == self@.key_manager,
            parts.1 == self@.rate_limiter,
            parts.2 == self@.enable_multi_batch_write,
    {
        (self.key_manager, self.rate_limiter, self.enable_multi_batch_write)
    }
}

/// Options of a raft store.
pub type RaftDBOptions<K, R> = DBOptions<K, R>;

/// Properties for a single column family.
///
/// All engines must emulate column families, but it is not clear how every
/// engine should deal with the wide variety of options for them. These mirror
/// the options that RocksDB has, except that nothing can be said here of table
/// property collectors beyond leaving the standard ones out.
pub struct ColumnFamilyOptions {
    disable_auto_compactions: bool,
    level_zero_file_num_compaction_trigger: Option<i32>,
    level_zero_slowdown_writes_trigger: Option<i32>,
    /// On RocksDB, turns off the range properties collector.
    no_range_properties: bool,
    /// On RocksDB, turns off the table properties collector.
    no_table_properties: bool,
}

/// What `ColumnFamilyOptions` hold.
pub struct ColumnFamilyView {
    pub disable_auto_compactions: bool,
    pub level_zero_file_num_compaction_trigger: Option<i32>,
    pub level_zero_slowdown_writes_trigger: Option<i32>,
    pub no_range_properties: bool,
    pub no_table_properties: bool,
}

impl ColumnFamilyView {
    /// Options in which nothing has been set.
    pub open spec fn unset() -> ColumnFamilyView {
        ColumnFamilyView {
            disable_auto_compactions: false,
            level_zero_file_num_compaction_trigger: None,
            level_zero_slowdown_writes_trigger: None,
            no_range_properties: false,
            no_table_properties: false,
        }
    }
}

impl View for ColumnFamilyOptions {
    type V = ColumnFamilyView;

    closed spec fn view(&self) -> ColumnFamilyView {
        ColumnFamilyView {
            disable_auto_compactions: self.disable_auto_compactions,
            level_zero_file_num_compaction_trigger: self.level_zero_file_num_compaction_trigger,
            level_zero_slowdown_writes_trigger: self.level_zero_slowdown_writes_trigger,
            no_range_properties: self.no_range_properties,
            no_table_properties: self.no_table_properties,
        }
    }
}

impl Default for ColumnFamilyOptions {
    fn default() -> (options: Self)
        ensures
            options@ == ColumnFamilyView::unset(),
    {
        ColumnFamilyOptions::new()
    }
}

impl Clone for ColumnFamilyOptions {
    fn clone(&self) -> (options: Self)
        ensures
            options == *self,
    {
        ColumnFamilyOptions {
            disable_auto_compactions: self.disable_auto_compactions,
            level_zero_file_num_compaction_trigger: self.level_zero_file_num_compaction_trigger,
            level_zero_slowdown_writes_trigger: self.level_zero_slowdown_writes_trigger,
            no_range_properties: self.no_range_properties,
            no_table_properties: self.no_table_properties,
        }
    }
}

impl ColumnFamilyOptions {
    pub fn new() -> (options: ColumnFamilyOptions)
        ensures
            options@ == ColumnFamilyView::unset(),
    {
        ColumnFamilyOptions {
            disable_auto_compactions: false,
            level_zero_file_num_compaction_trigger: None,
            level_zero_slowdown_writes_trigger: None,
            no_range_properties: false,
            no_table_properties: false,
        }
    }

    pub fn set_disable_auto_compactions(&mut self, v: bool)
        ensures
            final(self)@ == (ColumnFamilyView { disable_auto_compactions: v, ..old(self)@ }),
    {
        self.disable_auto_compactions = v;
    }

    pub fn get_disable_auto_compactions(&self) -> (v: bool)
        ensures
            v == self@.disable_auto_compactions,
    {
        self.disable_auto_compactions
    }

    pub fn set_level_zero_file_num_compaction_trigger(&mut self, n: i32)
        ensures
            final(self)@ == (ColumnFamilyView {
                level_zero_file_num_compaction_trigger: Some(n),
                ..old(self)@
            }),
    {
        self.level_zero_file_num_compaction_trigger = Some(n);
    }

    pub fn get_level_zero_file_num_compaction_trigger(&self) -> (n: Option<i32>)
        ensures
            n == self@.level_zero_file_num_compaction_trigger,
    {
        self.level_zero_file_num_compaction_trigger
    }

    pub fn set_level_zero_slowdown_writes_trigger(&mut self, n: i32)
        ensures
            final(self)@ == (ColumnFamilyView {
                level_zero_slowdown_writes_trigger: Some(n),
                ..old(self)@
            }),
    {
        self.level_zero_slowdown_writes_trigger = Some(n);
    }

    pub fn get_level_zero_slowdown_writes_trigger(&self) -> (n: Option<i32>)
        ensures
            n == self@.level_zero_slowdown_writes_trigger,
    {
        self.level_zero_slowdown_writes_trigger
    }

    pub fn set_no_range_properties(&mut self, v: bool)
        ensures
            final(self)@ == (ColumnFamilyView { no_range_properties: v, ..old(self)@ }),
    {
        self.no_range_properties = v;
    }

    pub fn get_no_range_properties(&self) -> (v: bool)
        ensures
            v == self@.no_range_properties,
    {
        self.no_range_properties
    }

    pub fn set_no_table_properties(&mut self, v: bool)
        ensures
            final(self)@ == (ColumnFamilyView { no_table_properties: v, ..old(self)@ }),
    {
        self.no_table_properties = v;
    }

    pub fn get_no_table_properties(&self) -> (v: bool)
        ensures
            v == self@.no_table_properties,
    {
        self.no_table_properties
    }
}

/// A column family and its options.
pub struct CFOptions {
    pub cf: String,
    pub options: ColumnFamilyOptions,
}

/// What `CFOptions` hold.
pub struct CFOptionsView {
    pub cf: Seq<char>,
    pub options: ColumnFamilyView,
}

impl View for CFOptions {
    type V = CFOptionsView;

    open spec fn view(&self) -> CFOptionsView {
        CFOptionsView { cf: self.cf@, options: self.options@ }
    }
}

impl DeepView for CFOptions {
    type V = CFOptionsView;

    open spec fn deep_view(&self) -> CFOptionsView {
        self@
    }
}

impl Clone for CFOptions {
    fn clone(&self) -> (options: Self)
        ensures
            options == *self,
    {
        CFOptions { cf: self.cf.clone(), options: self.options.clone() }
    }
}

impl CFOptions {
    pub fn new(cf: &str, options: ColumnFamilyOptions) -> (cf_options: CFOptions)
        ensures
            cf_options@ == (CFOptionsView { cf: cf@, options: options@ }),
    {
        CFOptions { cf: cf.to_owned(), options }
    }
}

/// A column family with options in which nothing has been set.
pub open spec fn plain_cf(cf: Seq<char>) -> CFOptionsView {
    CFOptionsView { cf, options: ColumnFamilyView::unset() }
}

/// The column families that an engine gets: those of `opts`, or, where there
/// are none given so, those that `cfs` names, with plain options.
pub open spec fn column_families(
    cfs: Seq<Seq<char>>,
    opts: Option<Seq<CFOptionsView>>,
) -> Seq<CFOptionsView> {
    match opts {
        Some(opts) => opts,
        None => cfs.map_values(|cf: Seq<char>| plain_cf(cf)),
    }
}

/// Where options are given, the names of column families count for nothing.
pub proof fn law_opts_override_cfs(
    cfs: Seq<Seq<char>>,
    other_cfs: Seq<Seq<char>>,
    opts: Seq<CFOptionsView>,
)
    ensures
        column_families(cfs, Some(opts)) == column_families(other_cfs, Some(opts)),
        column_families(cfs, Some(opts)) == opts,
{
}

/// Kv engine construction.
///
/// All engine constructors are expected to configure every engine such that it
/// works correctly for the constructed column families. Specifically, this
/// means that RocksDB constructors set up all properties collectors that are
/// not turned off.
pub trait KvEngineConstructorExt<K, R>: Sized {
    /// Whether this is the engine that stores its data in the directory `path`,
    /// with the options `db_opt` and exactly the column families `cfs`, in that
    /// order.
    spec fn is_kv_engine(
        self,
        path: Seq<char>,
        db_opt: Option<DBOptionsView<K, R>>,
        cfs: Seq<CFOptionsView>,
    ) -> bool;

    /// Creates a new kv engine with either:
    ///
    /// - The column families specified as `cfs`, with default options, or
    /// - The column families specified as `opts`, with options.
    ///
    /// Note that if `opts` is not `None` then the `cfs` argument is completely
    /// ignored.
    ///
    /// The engine stores its data in the `path` directory. If that directory
    /// does not exist, then it is created, by the storage library that opens
    /// the engine.
    fn new_kv_engine(
        path: &str,
        db_opt: Option<DBOptions<K, R>>,
        cfs: &[&str],
        opts: Option<Vec<CFOptions>>,
    ) -> (engine: Self)
        ensures
            engine.is_kv_engine(
                path@,
                db_opt.deep_view(),
                column_families(cfs.deep_view(), opts.deep_view()),
            ),
    ;

    /// Creates a new engine with specified column families and options.
    ///
    /// The engine stores its data in the `path` directory. If that directory
    /// does not exist, then it is created, by the storage library that opens
    /// the engine.
    fn new_kv_engine_opt(
        path: &str,
        db_opt: DBOptions<K, R>,
        cfs_opts: Vec<CFOptions>,
    ) -> (engine: Self)
        ensures
            engine.is_kv_engine(path@, Some(db_opt@), cfs_opts.deep_view()),
    ;
}

/// Raft engine construction.
pub trait RaftEngineConstructorExt<K, R>: Sized {
    /// Whether this is the engine that stores its data in the directory `path`,
    /// with the options `db_opt`.
    spec fn is_raft_engine(self, path: Seq<char>, db_opt: Option<DBOptionsView<K, R>>) -> bool;

    /// Creates a new raft engine.
    fn new_raft_engine(path: &str, db_opt: Option<RaftDBOptions<K, R>>) -> (engine: Self)
        ensures
            engine.is_raft_engine(path@, db_opt.deep_view()),
    ;
}

} // verus!
