//! Construction of RocksDB engines.
//!
//! The options of RocksDB are written down as the calls of its setters: a field
//! that is `None` stands for a setter that is not called, so that the value that
//! RocksDB has by default stays.

use std::sync::Arc;
use vstd::prelude::*;

use crate::ctor::{
    CFOptions, CFOptionsView, ColumnFamilyOptions, ColumnFamilyView, DBOptions, DBOptionsView,
    KvEngineConstructorExt, RaftDBOptions, RaftEngineConstructorExt, CF_DEFAULT,
};

verus! {

/// A collector of table properties that can be added to a column family.
#[derive(Clone, Copy, Debug, PartialEq, Eq)]
pub enum PropertiesCollector {
    /// The collector of range properties.
    Range,
    /// The collector of the properties of multi-version data.
    Mvcc,
}

impl PropertiesCollector {
    /// The name that a collector is added under.
    pub open spec fn spec_name(self) -> Seq<char> {
        match self {
            PropertiesCollector::Range => "tikv.range-properties-collector"@,
            PropertiesCollector::Mvcc => "tikv.mvcc-properties-collector"@,
        }
    }

    /// The name that a collector is added under.
    pub fn name(&self) -> (name: &'static str)
        ensures
            name@ == self.spec_name(),
    {
        match self {
            PropertiesCollector::Range => "tikv.range-properties-collector",
            PropertiesCollector::Mvcc => "tikv.mvcc-properties-collector",
        }
    }
}

/// Options of a RocksDB column family.
pub struct RocksColumnFamilyOptions {
    /// The table properties collectors that are added, in that order.
    pub collectors: Vec<PropertiesCollector>,
    pub level_zero_file_num_compaction_trigger: Option<i32>,
    pub level_zero_slowdown_writes_trigger: Option<i32>,
    pub disable_auto_compactions: Option<bool>,
}

/// What `RocksColumnFamilyOptions` hold.
pub struct RocksColumnFamilyView {
    pub collectors: Seq<PropertiesCollector>,
    pub level_zero_file_num_compaction_trigger: Option<i32>,
    pub level_zero_slowdown_writes_trigger: Option<i32>,
    pub disable_auto_compactions: Option<bool>,
}

impl View for RocksColumnFamilyOptions {
    type V = RocksColumnFamilyView;

    open spec fn view(&self) -> RocksColumnFamilyView {
        RocksColumnFamilyView {
            collectors: self.collectors@,
            level_zero_file_num_compaction_trigger: self.level_zero_file_num_compaction_trigger,
            level_zero_slowdown_writes_trigger: self.level_zero_slowdown_writes_trigger,
            disable_auto_compactions: self.disable_auto_compactions,
        }
    }
}

impl RocksColumnFamilyOptions {
    /// Options in which nothing has been set.
    pub fn new() -> (options: Self)
        ensures
            options@ == (RocksColumnFamilyView {
                collectors: Seq::empty(),
                level_zero_file_num_compaction_trigger: None,
                level_zero_slowdown_writes_trigger: None,
                disable_auto_compactions: None,
            }),
    {
        RocksColumnFamilyOptions {
            collectors: Vec::new(),
            level_zero_file_num_compaction_trigger: None,
            level_zero_slowdown_writes_trigger: None,
            disable_auto_compactions: None,
        }
    }
}

/// A RocksDB column family and its options.
pub struct RocksCFOptions {
    pub cf: String,
    pub options: RocksColumnFamilyOptions,
}

/// What `RocksCFOptions` hold.
pub struct RocksCFView {
    pub cf: Seq<char>,
    pub options: RocksColumnFamilyView,
}

impl View for RocksCFOptions {
    type V = RocksCFView;

    open spec fn view(&self) -> RocksCFView {
        RocksCFView { cf: self.cf@, options: self.options@ }
    }
}

impl DeepView for RocksCFOptions {
    type V = RocksCFView;

    open spec fn deep_view(&self) -> RocksCFView {
        self@
    }
}

/// What the environment that a RocksDB store runs in is made from.
pub struct RocksEnvRequest<K, R> {
    pub key_manager: Option<Arc<K>>,
    pub rate_limiter: Option<Arc<R>>,
}

/// Options of a RocksDB store, with the environment that it runs in, or with
/// what that is made from.
pub struct RocksDBOptions<V> {
    pub env: V,
    pub unordered_write: Option<bool>,
    pub pipelined_write: Option<bool>,
    pub multi_batch_write: Option<bool>,
}

impl<V> RocksDBOptions<V> {
    /// The options with the environment that has been made, and otherwise
    /// unchanged; or the error that there was in making it.
    pub fn with_env<W, X>(self, env: Result<W, X>) -> (options: Result<RocksDBOptions<W>, X>)
        ensures
            options == match env {
                Ok(env) => Ok::<RocksDBOptions<W>, X>(
                    RocksDBOptions {
                        env,
                        unordered_write: self.unordered_write,
                        pipelined_write: self.pipelined_write,
                        multi_batch_write: self.multi_batch_write,
                    },
                ),
                Err(error) => Err(error),
            },
    {
        match env {
            Ok(env) => Ok(
                RocksDBOptions {
                    env,
                    unordered_write: self.unordered_write,
                    pipelined_write: self.pipelined_write,
                    multi_batch_write: self.multi_batch_write,
                },
            ),
            Err(error) => Err(error),
        }
    }
}

/// A RocksDB engine to be opened: a store in the directory `path`, in the
/// environment and with the options of `db_opts`, or with those that RocksDB
/// has by default, and with the column families `cfs_opts`.
pub struct RocksEngine<K, R> {
    pub path: String,
    pub db_opts: Option<RocksDBOptions<RocksEnvRequest<K, R>>>,
    pub cfs_opts: Vec<RocksCFOptions>,
}

/// The collectors that a column family gets: all that are not turned off.
pub open spec fn standard_collectors(options: ColumnFamilyView) -> Seq<PropertiesCollector> {
    let range = if options.no_range_properties {
        Seq::empty()
    } else {
        seq![PropertiesCollector::Range]
    };
    let mvcc = if options.no_table_properties {
        Seq::empty()
    } else {
        seq![PropertiesCollector::Mvcc]
    };
    range + mvcc
}

/// RocksDB's options for given ones. Automatic compactions are only ever turned
/// off, never on.
pub open spec fn rocks_options(options: ColumnFamilyView) -> RocksColumnFamilyView {
    RocksColumnFamilyView {
        collectors: standard_collectors(options),
        level_zero_file_num_compaction_trigger: options.level_zero_file_num_compaction_trigger,
        level_zero_slowdown_writes_trigger: options.level_zero_slowdown_writes_trigger,
        disable_auto_compactions: if options.disable_auto_compactions {
            Some(true)
        } else {
            None
        },
    }
}

/// A RocksDB column family for a given one.
pub open spec fn rocks_cf(cf: CFOptionsView) -> RocksCFView {
    RocksCFView { cf: cf.cf, options: rocks_options(cf.options) }
}

/// RocksDB's store options for given ones. Multi batch write goes with unordered
/// and pipelined write turned off.
pub open spec fn rocks_db_options<K, R>(options: DBOptionsView<K, R>) -> RocksDBOptions<
    RocksEnvRequest<K, R>,
> {
    let multi = options.enable_multi_batch_write;
    RocksDBOptions {
        env: RocksEnvRequest {
            key_manager: options.key_manager,
            rate_limiter: options.rate_limiter,
        },
        unordered_write: if multi { Some(false) } else { None },
        pipelined_write: if multi { Some(false) } else { None },
        multi_batch_write: if multi { Some(true) } else { None },
    }
}

/// The same for options that may be missing.
pub open spec fn rocks_db_options_if_any<K, R>(options: Option<DBOptionsView<K, R>>) -> Option<
    RocksDBOptions<RocksEnvRequest<K, R>>,
> {
    match options {
        Some(options) => Some(rocks_db_options(options)),
        None => None,
    }
}

/// Adds the standard table properties collectors that are not turned off.
pub fn set_standard_cf_opts(
    rocks_cf_opts: &mut RocksColumnFamilyOptions,
    cf_opts: &ColumnFamilyOptions,
)
    ensures
        final(rocks_cf_opts)@ == (RocksColumnFamilyView {
            collectors: old(rocks_cf_opts)@.collectors + standard_collectors(cf_opts@),
            ..old(rocks_cf_opts)@
        }),
{
    if !cf_opts.get_no_range_properties() {
        rocks_cf_opts.collectors.push(PropertiesCollector::Range);
    }
    if !cf_opts.get_no_table_properties() {
        rocks_cf_opts.collectors.push(PropertiesCollector::Mvcc);
    }
    assert(rocks_cf_opts.collectors@ =~= old(rocks_cf_opts)@.collectors + standard_collectors(
        cf_opts@,
    ));
}

/// Sets what is set in the given options, and nothing else.
pub fn set_cf_opts(rocks_cf_opts: &mut RocksColumnFamilyOptions, cf_opts: &ColumnFamilyOptions)
    ensures
        final(rocks_cf_opts)@ == (RocksColumnFamilyView {
            collectors: old(rocks_cf_opts)@.collectors,
            level_zero_file_num_compaction_trigger: if cf_opts@.level_zero_file_num_compaction_trigger is Some {
                cf_opts@.level_zero_file_num_compaction_trigger
            } else {
                old(rocks_cf_opts)@.level_zero_file_num_compaction_trigger
            },
            level_zero_slowdown_writes_trigger: if cf_opts@.level_zero_slowdown_writes_trigger is Some {
                cf_opts@.level_zero_slowdown_writes_trigger
            } else {
                old(rocks_cf_opts)@.level_zero_slowdown_writes_trigger
            },
            disable_auto_compactions: if cf_opts@.disable_auto_compactions {
                Some(true)
            } else {
                old(rocks_cf_opts)@.disable_auto_compactions
            },
        }),
{
    if let Some(trigger) = cf_opts.get_level_zero_file_num_compaction_trigger() {
        rocks_cf_opts.level_zero_file_num_compaction_trigger = Some(trigger);
    }
    if let Some(trigger) = cf_opts.get_level_zero_slowdown_writes_trigger() {
        rocks_cf_opts.level_zero_slowdown_writes_trigger = Some(trigger);
    }
    if cf_opts.get_disable_auto_compactions() {
        rocks_cf_opts.disable_auto_compactions = Some(true);
    }
}

/// RocksDB's store options for given ones.
pub fn get_rocks_db_opts<K, R>(db_opts: DBOptions<K, R>) -> (rocks_db_opts: RocksDBOptions<
    RocksEnvRequest<K, R>,
>)
    ensures
        rocks_db_opts == rocks_db_options(db_opts@),
{
    let (key_manager, rate_limiter, enable_multi_batch_write) = db_opts.into_parts();
    let mut rocks_db_opts = RocksDBOptions {
        env: RocksEnvRequest { key_manager, rate_limiter },
        unordered_write: None,
        pipelined_write: None,
        multi_batch_write: None,
    };
    if enable_multi_batch_write {
        rocks_db_opts.unordered_write = Some(false);
        rocks_db_opts.pipelined_write = Some(false);
        rocks_db_opts.multi_batch_write = Some(true);
    }
    rocks_db_opts
}

/// A RocksDB column family for a given one.
fn get_rocks_cf_opts(cf_opts: &CFOptions) -> (rocks: RocksCFOptions)
    ensures
        rocks@ == rocks_cf(cf_opts@),
{
    let mut rocks_cf_opts = RocksColumnFamilyOptions::new();
    set_standard_cf_opts(&mut rocks_cf_opts, &cf_opts.options);
    set_cf_opts(&mut rocks_cf_opts, &cf_opts.options);
    assert(rocks_cf_opts@.collectors =~= standard_collectors(cf_opts@.options));
    RocksCFOptions { cf: cf_opts.cf.clone(), options: rocks_cf_opts }
}

/// The RocksDB column families for given ones, in the same order.
fn get_rocks_cfs_opts(cfs_opts: &Vec<CFOptions>) -> (rocks: Vec<RocksCFOptions>)
    ensures
        rocks.deep_view() == cfs_opts.deep_view().map_values(|cf: CFOptionsView| rocks_cf(cf)),
{
    let mut rocks: Vec<RocksCFOptions> = Vec::with_capacity(cfs_opts.len());
    let mut i: usize = 0;
    while i < cfs_opts.len()
        invariant
            i <= cfs_opts@.len(),
            rocks@.len() == i,
            forall|j: int| 0 <= j < i ==> (#[trigger] rocks@[j])@ == rocks_cf(cfs_opts@[j]@),
        decreases cfs_opts.len() - i,
    {
        rocks.push(get_rocks_cf_opts(&cfs_opts[i]));
        i = i + 1;
    }
    assert(rocks.deep_view() =~= cfs_opts.deep_view().map_values(
        |cf: CFOptionsView| rocks_cf(cf),
    ));
    rocks
}

impl<K, R> KvEngineConstructorExt<K, R> for RocksEngine<K, R> {
    open spec fn is_kv_engine(
        self,
        path: Seq<char>,
        db_opt: Option<DBOptionsView<K, R>>,
        cfs: Seq<CFOptionsView>,
    ) -> bool {
        &&& self.path@ == path
        &&& self.db_opts == rocks_db_options_if_any(db_opt)
        &&& self.cfs_opts.deep_view() == cfs.map_values(|cf: CFOptionsView| rocks_cf(cf))
    }

    fn new_kv_engine(
        path: &str,
        db_opt: Option<DBOptions<K, R>>,
        cfs: &[&str],
        opts: Option<Vec<CFOptions>>,
    ) -> (engine: Self) {
        let ghost families = crate::ctor::column_families(cfs.deep_view(), opts.deep_view());
        let rocks_db_opts = match db_opt {
            Some(db_opt) => Some(get_rocks_db_opts(db_opt)),
            None => None,
        };
        let cfs_opts = match opts {
            Some(opts) => opts,
            None => {
                let mut default_cfs_opts: Vec<CFOptions> = Vec::with_capacity(cfs.len());
                let mut i: usize = 0;
                while i < cfs.len()
                    invariant
                        i <= cfs@.len(),
                        default_cfs_opts@.len() == i,
                        forall|j: int|
                            0 <= j < i ==> (#[trigger] default_cfs_opts@[j])@
                                == crate::ctor::plain_cf(cfs@[j]@),
                    decreases cfs.len() - i,
                {
                    default_cfs_opts.push(CFOptions::new(cfs[i], ColumnFamilyOptions::new()));
                    i = i + 1;
                }
                default_cfs_opts
            },
        };
        assert(cfs_opts.deep_view() =~= families);
        let rocks_cfs_opts = get_rocks_cfs_opts(&cfs_opts);
        RocksEngine { path: path.to_owned(), db_opts: rocks_db_opts, cfs_opts: rocks_cfs_opts }
    }

    fn new_kv_engine_opt(
        path: &str,
        db_opt: DBOptions<K, R>,
        cfs_opts: Vec<CFOptions>,
    ) -> (engine: Self) {
        let rocks_db_opts = get_rocks_db_opts(db_opt);
        let rocks_cfs_opts = get_rocks_cfs_opts(&cfs_opts);
        RocksEngine {
            path: path.to_owned(),
            db_opts: Some(rocks_db_opts),
            cfs_opts: rocks_cfs_opts,
        }
    }
}

impl<K, R> RaftEngineConstructorExt<K, R> for RocksEngine<K, R> {
    /// A RocksDB raft engine keeps everything in the default column family.
    open spec fn is_raft_engine(
        self,
        path: Seq<char>,
        db_opt: Option<DBOptionsView<K, R>>,
    ) -> bool {
        &&& self.path@ == path
        &&& self.db_opts == rocks_db_options_if_any(db_opt)
        &&& self.cfs_opts.deep_view() == seq![rocks_cf(crate::ctor::plain_cf(CF_DEFAULT@))]
    }

    fn new_raft_engine(path: &str, db_opt: Option<RaftDBOptions<K, R>>) -> (engine: Self) {
        let rocks_db_opts = match db_opt {
            Some(db_opt) => Some(get_rocks_db_opts(db_opt)),
            None => None,
        };
        let cf_opts = CFOptions::new(CF_DEFAULT, ColumnFamilyOptions::new());
        let mut default_cfs_opts: Vec<RocksCFOptions> = Vec::new();
        default_cfs_opts.push(get_rocks_cf_opts(&cf_opts));
        assert(default_cfs_opts.deep_view() =~= seq![
            rocks_cf(crate::ctor::plain_cf(CF_DEFAULT@)),
        ]);
        RocksEngine { path: path.to_owned(), db_opts: rocks_db_opts, cfs_opts: default_cfs_opts }
    }
}

} // verus!
