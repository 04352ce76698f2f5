//! What holds of calls that set options and construct engines.

use std::sync::Arc;
use tempfile::TempDir;
use vstd::prelude::*;

use crate::ctor::raft_engine::RaftLogEngine;
use crate::ctor::rocks::{
    get_rocks_db_opts, rocks_cf, rocks_db_options, set_cf_opts, set_standard_cf_opts,
    PropertiesCollector, RocksCFOptions, RocksColumnFamilyOptions, RocksDBOptions, RocksEngine,
    RocksEnvRequest,
};
use crate::ctor::{
    column_families, CFOptions, CFOptionsView, ColumnFamilyOptions, ColumnFamilyView, DBOptions,
    DBOptionsView, KvEngineConstructorExt, RaftEngineConstructorExt,
};
use crate::laws::paths::separator;
use crate::path::joined;
use crate::temp::{new_engines_at, new_temp_engine, temp_dir_text, Engines};
use crate::{kv, raft};

verus! {

/// Whether in the options of a column family nothing is set.
pub open spec fn is_unset(options: ColumnFamilyView) -> bool {
    &&& !options.disable_auto_compactions
    &&& options.level_zero_file_num_compaction_trigger is None
    &&& options.level_zero_slowdown_writes_trigger is None
    &&& !options.no_range_properties
    &&& !options.no_table_properties
}

/// Whether column families are those with the given names, in that order, with
/// nothing set.
pub open spec fn are_plain(families: Seq<CFOptionsView>, names: Seq<&str>) -> bool {
    &&& families.len() == names.len()
    &&& forall|i: int|
        0 <= i < names.len() ==> (#[trigger] families[i]).cf == names[i]@ && is_unset(
            families[i].options,
        )
}

/// Whether the collectors are those that are left on, each once, the one for
/// ranges first.
pub open spec fn heeds_collectors(
    collectors: Seq<PropertiesCollector>,
    no_range: bool,
    no_table: bool,
) -> bool {
    &&& collectors.contains(PropertiesCollector::Range) <==> !no_range
    &&& collectors.contains(PropertiesCollector::Mvcc) <==> !no_table
    &&& collectors.no_duplicates()
    &&& !no_range ==> collectors[0] == PropertiesCollector::Range
}

/// Whether a RocksDB column family has a name, and heeds every one of the
/// options.
pub open spec fn heeds_cf(rocks: RocksCFOptions, name: Seq<char>, options: ColumnFamilyView) -> bool {
    &&& rocks.cf@ == name
    &&& heeds_collectors(
        rocks.options.collectors@,
        options.no_range_properties,
        options.no_table_properties,
    )
    &&& rocks.options.level_zero_file_num_compaction_trigger
        == options.level_zero_file_num_compaction_trigger
    &&& rocks.options.level_zero_slowdown_writes_trigger
        == options.level_zero_slowdown_writes_trigger
    &&& options.disable_auto_compactions ==> rocks.options.disable_auto_compactions == Some(true)
    &&& !options.disable_auto_compactions ==> rocks.options.disable_auto_compactions is None
}

/// Whether the options of a RocksDB store heed every one of the options.
pub open spec fn heeds_db<K, R>(
    rocks: RocksDBOptions<RocksEnvRequest<K, R>>,
    options: DBOptionsView<K, R>,
) -> bool {
    &&& rocks.env.key_manager == options.key_manager
    &&& rocks.env.rate_limiter == options.rate_limiter
    &&& options.enable_multi_batch_write ==> rocks.multi_batch_write == Some(true)
        && rocks.unordered_write == Some(false) && rocks.pipelined_write == Some(false)
    &&& !options.enable_multi_batch_write ==> rocks.multi_batch_write is None
        && rocks.unordered_write is None && rocks.pipelined_write is None
}

/// The same for options that may be missing.
pub open spec fn heeds_db_if_any<K, R>(
    rocks: Option<RocksDBOptions<RocksEnvRequest<K, R>>>,
    options: Option<DBOptions<K, R>>,
) -> bool {
    match options {
        Some(options) => rocks is Some && heeds_db(rocks->0, options@),
        None => rocks is None,
    }
}

/// Whether a RocksDB column family has a name, all collectors and nothing set.
pub open spec fn is_plain_rocks_cf(rocks: RocksCFOptions, name: Seq<char>) -> bool {
    &&& rocks.cf@ == name
    &&& rocks.options.collectors@ == seq![PropertiesCollector::Range, PropertiesCollector::Mvcc]
    &&& rocks.options.level_zero_file_num_compaction_trigger is None
    &&& rocks.options.level_zero_slowdown_writes_trigger is None
    &&& rocks.options.disable_auto_compactions is None
}

/// Whether RocksDB column families are those with the given names, in that
/// order, with all collectors and nothing set.
pub open spec fn heeds_names(rocks: Seq<RocksCFOptions>, names: Seq<&str>) -> bool {
    &&& rocks.len() == names.len()
    &&& forall|i: int|
        0 <= i < names.len() ==> is_plain_rocks_cf(#[trigger] rocks[i], names[i]@)
}

/// Whether RocksDB column families are the given ones, in that order, and heed
/// the options of each.
pub open spec fn heeds_cfs(rocks: Seq<RocksCFOptions>, cfs: Seq<CFOptions>) -> bool {
    &&& rocks.len() == cfs.len()
    &&& forall|i: int|
        0 <= i < cfs.len() ==> heeds_cf(#[trigger] rocks[i], cfs[i].cf@, cfs[i].options@)
}

proof fn lemma_collectors(options: ColumnFamilyView)
    ensures
        heeds_collectors(
            crate::ctor::rocks::standard_collectors(options),
            options.no_range_properties,
            options.no_table_properties,
        ),
{
    let c = crate::ctor::rocks::standard_collectors(options);
    if !options.no_range_properties {
        assert(c[0] == PropertiesCollector::Range);
        if !options.no_table_properties {
            assert(c[1] == PropertiesCollector::Mvcc);
        }
    } else if !options.no_table_properties {
        assert(c[0] == PropertiesCollector::Mvcc);
    }
}

pub(crate) proof fn lemma_cfs(rocks: Vec<RocksCFOptions>, families: Seq<CFOptionsView>)
    requires
        rocks.deep_view() == families.map_values(|cf: CFOptionsView| rocks_cf(cf)),
    ensures
        rocks@.len() == families.len(),
        forall|i: int|
            0 <= i < families.len() ==> heeds_cf(
                #[trigger] rocks@[i],
                families[i].cf,
                families[i].options,
            ),
        forall|i: int|
            0 <= i < families.len() && is_unset(families[i].options) ==> (
            #[trigger] rocks@[i]).options.collectors@ == seq![
                PropertiesCollector::Range,
                PropertiesCollector::Mvcc,
            ],
{
    let view = rocks.deep_view();
    assert(view.len() == rocks@.len());
    assert forall|i: int| 0 <= i < families.len() implies heeds_cf(
        #[trigger] rocks@[i],
        families[i].cf,
        families[i].options,
    ) && (is_unset(families[i].options) ==> rocks@[i].options.collectors@ == seq![
        PropertiesCollector::Range,
        PropertiesCollector::Mvcc,
    ]) by {
        assert(view[i] == rocks@[i]@);
        assert(view[i] == rocks_cf(families[i]));
        lemma_collectors(families[i].options);
        if is_unset(families[i].options) {
            assert(rocks@[i].options.collectors@ =~= seq![
                PropertiesCollector::Range,
                PropertiesCollector::Mvcc,
            ]);
        }
    }
}

proof fn lemma_plain_families(names: Seq<&str>, cfs: &[&str], families: Seq<CFOptionsView>)
    requires
        names == cfs@,
        families == column_families(cfs.deep_view(), None),
    ensures
        are_plain(families, names),
{
    assert(cfs.deep_view().len() == cfs@.len());
    assert forall|i: int| 0 <= i < names.len() implies (#[trigger] families[i]).cf == names[i]@
        && is_unset(families[i].options) by {
        assert(cfs.deep_view()[i] == names[i]@);
    }
}

/// A kv engine on RocksDB lies in the given directory and has the options of the
/// store. It has exactly the given column families, in their order: those with
/// options, each of which it heeds; or else those that are named, with all
/// collectors and nothing set.
pub proof fn law_rocks_kv_engine<K, R>(
    path: &str,
    db_opt: Option<DBOptions<K, R>>,
    cfs: &[&str],
    opts: Option<Vec<CFOptions>>,
    engine: RocksEngine<K, R>,
)
    requires
        call_ensures(
            <RocksEngine<K, R> as KvEngineConstructorExt<K, R>>::new_kv_engine,
            (path, db_opt, cfs, opts),
            engine,
        ) || call_ensures(
            kv::new_engine::<K, R, RocksEngine<K, R>>,
            (path, db_opt, cfs, opts),
            engine,
        ),
    ensures
        engine.path@ == path@,
        heeds_db_if_any(engine.db_opts, db_opt),
        opts matches Some(opts) ==> heeds_cfs(engine.cfs_opts@, opts@),
        opts is None ==> heeds_names(engine.cfs_opts@, cfs@),
{
    let families = column_families(cfs.deep_view(), opts.deep_view());
    lemma_cfs(engine.cfs_opts, families);
    match opts {
        Some(opts) => {
            assert(opts.deep_view().len() == opts@.len());
            assert forall|i: int| 0 <= i < opts@.len() implies heeds_cf(
                #[trigger] engine.cfs_opts@[i],
                opts@[i].cf@,
                opts@[i].options@,
            ) by {
                assert(families[i] == opts@[i]@);
            }
        },
        None => {
            lemma_plain_families(cfs@, cfs, families);
            assert forall|i: int| 0 <= i < cfs@.len() implies (
            #[trigger] engine.cfs_opts@[i]).cf@ == cfs@[i]@ by {
                assert(families[i].cf == cfs@[i]@);
            }
        },
    }
}

/// A kv engine on RocksDB that is constructed with options lies in the given
/// directory, has the options of the store, and has exactly the given column
/// families, in their order, and heeds the options of each.
pub proof fn law_rocks_kv_engine_opt<K, R>(
    path: &str,
    db_opt: DBOptions<K, R>,
    cfs_opts: Vec<CFOptions>,
    engine: RocksEngine<K, R>,
)
    requires
        call_ensures(
            <RocksEngine<K, R> as KvEngineConstructorExt<K, R>>::new_kv_engine_opt,
            (path, db_opt, cfs_opts),
            engine,
        ) || call_ensures(
            kv::new_engine_opt::<K, R, RocksEngine<K, R>>,
            (path, db_opt, cfs_opts),
            engine,
        ),
    ensures
        engine.path@ == path@,
        heeds_db_if_any(engine.db_opts, Some(db_opt)),
        heeds_cfs(engine.cfs_opts@, cfs_opts@),
{
    let families = cfs_opts.deep_view();
    lemma_cfs(engine.cfs_opts, families);
    assert(families.len() == cfs_opts@.len());
    assert forall|i: int| 0 <= i < cfs_opts@.len() implies heeds_cf(
        #[trigger] engine.cfs_opts@[i],
        cfs_opts@[i].cf@,
        cfs_opts@[i].options@,
    ) by {
        assert(families[i] == cfs_opts@[i]@);
    }
}

/// A kv engine of any kind is constructed for the given directory and the given
/// options, with the given column families.
pub proof fn law_kv_engine<K, R, T: KvEngineConstructorExt<K, R>>(
    path: &str,
    db_opt: Option<DBOptions<K, R>>,
    cfs: &[&str],
    opts: Option<Vec<CFOptions>>,
    engine: T,
) -> (families: Seq<CFOptionsView>)
    requires
        call_ensures(kv::new_engine::<K, R, T>, (path, db_opt, cfs, opts), engine),
    ensures
        engine.is_kv_engine(path@, db_opt.deep_view(), families),
        opts matches Some(opts) ==> families == opts.deep_view(),
        opts is None ==> are_plain(families, cfs@),
{
    let families = column_families(cfs.deep_view(), opts.deep_view());
    if opts is None {
        lemma_plain_families(cfs@, cfs, families);
    }
    families
}

/// A raft engine on RocksDB lies in the given directory, has the options of the
/// store, and has the default column family alone, with all collectors and
/// nothing set.
pub proof fn law_rocks_raft_engine<K, R>(
    path: &str,
    db_opt: Option<DBOptions<K, R>>,
    engine: RocksEngine<K, R>,
)
    requires
        call_ensures(
            <RocksEngine<K, R> as RaftEngineConstructorExt<K, R>>::new_raft_engine,
            (path, db_opt),
            engine,
        ) || call_ensures(raft::new_engine::<K, R, RocksEngine<K, R>>, (path, db_opt), engine),
    ensures
        engine.path@ == path@,
        heeds_db_if_any(engine.db_opts, db_opt),
        heeds_names(engine.cfs_opts@, seq!["default"]),
{
    let families = seq![crate::ctor::plain_cf("default"@)];
    assert(families.map_values(|cf: CFOptionsView| rocks_cf(cf)) =~= seq![
        rocks_cf(crate::ctor::plain_cf("default"@)),
    ]);
    lemma_cfs(engine.cfs_opts, families);
    assert(families[0].cf == "default"@);
    assert(is_unset(families[0].options));
}

/// A raft log engine lies in the given directory and has the key manager of the
/// options, whatever the rate limiter is, and the rate limiter of the options,
/// whatever the key manager is.
pub proof fn law_raft_log_engine<K, R>(
    path: &str,
    db_opt: Option<DBOptions<K, R>>,
    engine: RaftLogEngine<K, R>,
)
    requires
        call_ensures(
            <RaftLogEngine<K, R> as RaftEngineConstructorExt<K, R>>::new_raft_engine,
            (path, db_opt),
            engine,
        ) || call_ensures(raft::new_engine::<K, R, RaftLogEngine<K, R>>, (path, db_opt), engine),
    ensures
        engine.config.dir@ == path@,
        db_opt matches Some(options) ==> engine.key_manager == options@.key_manager,
        db_opt matches Some(options) ==> engine.rate_limiter == options@.rate_limiter,
        db_opt is None ==> engine.key_manager is None,
        db_opt is None ==> engine.rate_limiter is None,
{
}

/// A raft engine of any kind is constructed for the given directory and the
/// given options.
pub proof fn law_raft_engine<K, R, T: RaftEngineConstructorExt<K, R>>(
    path: &str,
    db_opt: Option<DBOptions<K, R>>,
    engine: T,
)
    requires
        call_ensures(raft::new_engine::<K, R, T>, (path, db_opt), engine),
    ensures
        engine.is_raft_engine(path@, db_opt.deep_view()),
{
}

proof fn lemma_raft_dir(dir: Seq<char>)
    ensures
        joined(dir, "raft"@) == dir + separator(dir) + "raft"@,
{
    reveal_strlit("raft");
    assert(joined(dir, "raft"@) =~= dir + separator(dir) + "raft"@);
}

/// Of two engines that are constructed together, the kv engine lies in the given
/// directory and has exactly as many column families as names are given, with
/// these names in their order, and nothing set. The raft engine lies in the
/// directory `raft` below. Neither has options.
pub proof fn law_engines_at<K, R>(
    path: &str,
    cfs: &[&str],
    engines: Engines<RocksEngine<K, R>, RaftLogEngine<K, R>>,
)
    requires
        call_ensures(
            new_engines_at::<K, R, RocksEngine<K, R>, RaftLogEngine<K, R>>,
            (path, cfs),
            engines,
        ),
    ensures
        engines.kv.path@ == path@,
        engines.kv.db_opts is None,
        heeds_names(engines.kv.cfs_opts@, cfs@),
        engines.raft.config.dir@ == path@ + separator(path@) + "raft"@,
        engines.raft.key_manager is None,
        engines.raft.rate_limiter is None,
{
    lemma_raft_dir(path@);
    let families = column_families(cfs.deep_view(), None);
    lemma_cfs(engines.kv.cfs_opts, families);
    lemma_plain_families(cfs@, cfs, families);
    assert forall|i: int| 0 <= i < cfs@.len() implies (
    #[trigger] engines.kv.cfs_opts@[i]).cf@ == cfs@[i]@ by {
        assert(families[i].cf == cfs@[i]@);
    }
}

/// The same for engines of any kind.
pub proof fn law_engines_at_of_any_kind<
    K,
    R,
    T: KvEngineConstructorExt<K, R>,
    U: RaftEngineConstructorExt<K, R>,
>(path: &str, cfs: &[&str], engines: Engines<T, U>) -> (families: Seq<CFOptionsView>)
    requires
        call_ensures(new_engines_at::<K, R, T, U>, (path, cfs), engines),
    ensures
        engines.kv.is_kv_engine(path@, None, families),
        are_plain(families, cfs@),
        engines.raft.is_raft_engine(path@ + separator(path@) + "raft"@, None),
{
    lemma_raft_dir(path@);
    let families = column_families(cfs.deep_view(), None);
    lemma_plain_families(cfs@, cfs, families);
    families
}

/// Engines in a temporary directory are constructed exactly if its path is valid
/// UTF-8, and then for that path, as any two that are constructed together.
pub proof fn law_temp_engine<K, R>(
    dir: &TempDir,
    cfs: &[&str],
    engines: Option<Engines<RocksEngine<K, R>, RaftLogEngine<K, R>>>,
)
    requires
        call_ensures(
            new_temp_engine::<K, R, RocksEngine<K, R>, RaftLogEngine<K, R>>,
            (dir, cfs),
            engines,
        ),
    ensures
        temp_dir_text(*dir) is None ==> engines is None,
        temp_dir_text(*dir) matches Some(path) ==> engines is Some && {
            let engines = engines->0;
            &&& engines.kv.path@ == path
            &&& engines.kv.db_opts is None
            &&& heeds_names(engines.kv.cfs_opts@, cfs@)
            &&& engines.raft.config.dir@ == path + separator(path) + "raft"@
            &&& engines.raft.key_manager is None
            &&& engines.raft.rate_limiter is None
        },
{
    if let Some(path) = temp_dir_text(*dir) {
        let kv = engines->0.kv;
        lemma_raft_dir(path);
        let families = column_families(cfs.deep_view(), None);
        lemma_cfs(kv.cfs_opts, families);
        lemma_plain_families(cfs@, cfs, families);
        assert forall|i: int| 0 <= i < cfs@.len() implies (
        #[trigger] kv.cfs_opts@[i]).cf@ == cfs@[i]@ by {
            assert(families[i].cf == cfs@[i]@);
        }
    }
}

/// The same for engines of any kind.
pub proof fn law_temp_engine_of_any_kind<
    K,
    R,
    T: KvEngineConstructorExt<K, R>,
    U: RaftEngineConstructorExt<K, R>,
>(dir: &TempDir, cfs: &[&str], engines: Option<Engines<T, U>>) -> (families: Seq<CFOptionsView>)
    requires
        call_ensures(new_temp_engine::<K, R, T, U>, (dir, cfs), engines),
    ensures
        are_plain(families, cfs@),
        temp_dir_text(*dir) is None ==> engines is None,
        temp_dir_text(*dir) matches Some(path) ==> engines is Some
            && engines->0.kv.is_kv_engine(path, None, families)
            && engines->0.raft.is_raft_engine(path + separator(path) + "raft"@, None),
{
    if let Some(path) = temp_dir_text(*dir) {
        lemma_raft_dir(path);
    }
    let families = column_families(cfs.deep_view(), None);
    lemma_plain_families(cfs@, cfs, families);
    families
}

/// New options of a column family have nothing set.
pub proof fn law_new_cf_options(options: ColumnFamilyOptions)
    requires
        call_ensures(ColumnFamilyOptions::new, (), options) || call_ensures(
            <ColumnFamilyOptions as Default>::default,
            (),
            options,
        ),
    ensures
        is_unset(options@),
{
}

/// Setting one option of a column family sets it to what is given, and leaves
/// the others.
pub proof fn law_set_cf_option(options: &mut ColumnFamilyOptions, v: bool, n: i32)
    ensures
        call_ensures(ColumnFamilyOptions::set_disable_auto_compactions, (options, v), ()) ==> {
            let (before, after) = (old(options)@, final(options)@);
            &&& after.disable_auto_compactions == v
            &&& after.level_zero_file_num_compaction_trigger
                == before.level_zero_file_num_compaction_trigger
            &&& after.level_zero_slowdown_writes_trigger
                == before.level_zero_slowdown_writes_trigger
            &&& after.no_range_properties == before.no_range_properties
            &&& after.no_table_properties == before.no_table_properties
        },
        call_ensures(
            ColumnFamilyOptions::set_level_zero_file_num_compaction_trigger,
            (options, n),
            (),
        ) ==> {
            let (before, after) = (old(options)@, final(options)@);
            &&& after.disable_auto_compactions == before.disable_auto_compactions
            &&& after.level_zero_file_num_compaction_trigger == Some(n)
            &&& after.level_zero_slowdown_writes_trigger
                == before.level_zero_slowdown_writes_trigger
            &&& after.no_range_properties == before.no_range_properties
            &&& after.no_table_properties == before.no_table_properties
        },
        call_ensures(
            ColumnFamilyOptions::set_level_zero_slowdown_writes_trigger,
            (options, n),
            (),
        ) ==> {
            let (before, after) = (old(options)@, final(options)@);
            &&& after.disable_auto_compactions == before.disable_auto_compactions
            &&& after.level_zero_file_num_compaction_trigger
                == before.level_zero_file_num_compaction_trigger
            &&& after.level_zero_slowdown_writes_trigger == Some(n)
            &&& after.no_range_properties == before.no_range_properties
            &&& after.no_table_properties == before.no_table_properties
        },
        call_ensures(ColumnFamilyOptions::set_no_range_properties, (options, v), ()) ==> {
            let (before, after) = (old(options)@, final(options)@);
            &&& after.disable_auto_compactions == before.disable_auto_compactions
            &&& after.level_zero_file_num_compaction_trigger
                == before.level_zero_file_num_compaction_trigger
            &&& after.level_zero_slowdown_writes_trigger
                == before.level_zero_slowdown_writes_trigger
            &&& after.no_range_properties == v
            &&& after.no_table_properties == before.no_table_properties
        },
        call_ensures(ColumnFamilyOptions::set_no_table_properties, (options, v), ()) ==> {
            let (before, after) = (old(options)@, final(options)@);
            &&& after.disable_auto_compactions == before.disable_auto_compactions
            &&& after.level_zero_file_num_compaction_trigger
                == before.level_zero_file_num_compaction_trigger
            &&& after.level_zero_slowdown_writes_trigger
                == before.level_zero_slowdown_writes_trigger
            &&& after.no_range_properties == before.no_range_properties
            &&& after.no_table_properties == v
        },
{
}

/// Getting an option of a column family gives what is set.
pub proof fn law_get_cf_option(options: &ColumnFamilyOptions, v: bool, n: Option<i32>)
    ensures
        call_ensures(ColumnFamilyOptions::get_disable_auto_compactions, (options,), v) ==> v
            == options@.disable_auto_compactions,
        call_ensures(
            ColumnFamilyOptions::get_level_zero_file_num_compaction_trigger,
            (options,),
            n,
        ) ==> n == options@.level_zero_file_num_compaction_trigger,
        call_ensures(ColumnFamilyOptions::get_level_zero_slowdown_writes_trigger, (options,), n)
            ==> n == options@.level_zero_slowdown_writes_trigger,
        call_ensures(ColumnFamilyOptions::get_no_range_properties, (options,), v) ==> v
            == options@.no_range_properties,
        call_ensures(ColumnFamilyOptions::get_no_table_properties, (options,), v) ==> v
            == options@.no_table_properties,
{
}

/// A column family is made from its name and its options.
pub proof fn law_new_cf(cf: &str, options: ColumnFamilyOptions, made: CFOptions)
    requires
        call_ensures(CFOptions::new, (cf, options), made),
    ensures
        made.cf@ == cf@,
        made.options@ == options@,
{
}

/// New options of a store have nothing set.
pub proof fn law_default_db_options<K, R>(options: DBOptions<K, R>)
    requires
        call_ensures(<DBOptions<K, R> as Default>::default, (), options),
    ensures
        options@.key_manager is None,
        options@.rate_limiter is None,
        !options@.enable_multi_batch_write,
{
}

/// Setting one option of a store sets it to what is given, and leaves the
/// others.
pub proof fn law_set_db_option<K, R>(
    options: &mut DBOptions<K, R>,
    key_manager: Option<Arc<K>>,
    rate_limiter: Option<Arc<R>>,
    enable: bool,
)
    ensures
        call_ensures(DBOptions::<K, R>::set_key_manager, (options, key_manager), ()) ==> {
            &&& final(options)@.key_manager == key_manager
            &&& final(options)@.rate_limiter == old(options)@.rate_limiter
            &&& final(options)@.enable_multi_batch_write == old(options)@.enable_multi_batch_write
        },
        call_ensures(DBOptions::<K, R>::set_rate_limiter, (options, rate_limiter), ()) ==> {
            &&& final(options)@.key_manager == old(options)@.key_manager
            &&& final(options)@.rate_limiter == rate_limiter
            &&& final(options)@.enable_multi_batch_write == old(options)@.enable_multi_batch_write
        },
        call_ensures(DBOptions::<K, R>::set_enable_multi_batch_write, (options, enable), ()) ==> {
            &&& final(options)@.key_manager == old(options)@.key_manager
            &&& final(options)@.rate_limiter == old(options)@.rate_limiter
            &&& final(options)@.enable_multi_batch_write == enable
        },
{
}

/// Clones of options hold the same.
pub proof fn law_options_are_cloned<K, R>(
    db: (&DBOptions<K, R>, DBOptions<K, R>),
    options: (&ColumnFamilyOptions, ColumnFamilyOptions),
    cf: (&CFOptions, CFOptions),
)
    ensures
        call_ensures(<DBOptions<K, R> as Clone>::clone, (db.0,), db.1) ==> db.1@ == db.0@,
        call_ensures(<ColumnFamilyOptions as Clone>::clone, (options.0,), options.1) ==> options.1@
            == options.0@,
        call_ensures(<CFOptions as Clone>::clone, (cf.0,), cf.1) ==> cf.1.cf@ == cf.0.cf@
            && cf.1.options@ == cf.0.options@,
{
}

/// New RocksDB options of a column family have nothing set and no collector.
pub proof fn law_new_rocks_cf_options(options: RocksColumnFamilyOptions)
    requires
        call_ensures(RocksColumnFamilyOptions::new, (), options),
    ensures
        options.collectors@.len() == 0,
        options.level_zero_file_num_compaction_trigger is None,
        options.level_zero_slowdown_writes_trigger is None,
        options.disable_auto_compactions is None,
{
    assert(options@.collectors.len() == 0);
}

/// The collectors that are left on are added behind those that are there, and
/// nothing else is set.
pub proof fn law_standard_cf_opts(
    rocks: &mut RocksColumnFamilyOptions,
    options: &ColumnFamilyOptions,
)
    requires
        call_ensures(set_standard_cf_opts, (rocks, options), ()),
    ensures
        final(rocks).collectors@.take(old(rocks).collectors@.len() as int)
            == old(rocks).collectors@,
        heeds_collectors(
            final(rocks).collectors@.skip(old(rocks).collectors@.len() as int),
            options@.no_range_properties,
            options@.no_table_properties,
        ),
        final(rocks).level_zero_file_num_compaction_trigger
            == old(rocks).level_zero_file_num_compaction_trigger,
        final(rocks).level_zero_slowdown_writes_trigger
            == old(rocks).level_zero_slowdown_writes_trigger,
        final(rocks).disable_auto_compactions == old(rocks).disable_auto_compactions,
{
    let before = old(rocks)@;
    let after = final(rocks)@;
    let added = crate::ctor::rocks::standard_collectors(options@);
    lemma_collectors(options@);
    assert(after.collectors == before.collectors + added);
    assert(after.collectors.take(before.collectors.len() as int) =~= before.collectors);
    assert(after.collectors.skip(before.collectors.len() as int) =~= added);
}

/// What is set in the options is set, what is not is left, and no collector is
/// added or removed.
pub proof fn law_set_cf_opts(rocks: &mut RocksColumnFamilyOptions, options: &ColumnFamilyOptions)
    requires
        call_ensures(set_cf_opts, (rocks, options), ()),
    ensures
        final(rocks).collectors@ == old(rocks).collectors@,
        options@.level_zero_file_num_compaction_trigger matches Some(n) ==> final(rocks).level_zero_file_num_compaction_trigger == Some(n),
        options@.level_zero_file_num_compaction_trigger is None ==> final(rocks).level_zero_file_num_compaction_trigger
            == old(rocks).level_zero_file_num_compaction_trigger,
        options@.level_zero_slowdown_writes_trigger matches Some(n) ==> final(rocks).level_zero_slowdown_writes_trigger == Some(n),
        options@.level_zero_slowdown_writes_trigger is None ==> final(rocks).level_zero_slowdown_writes_trigger == old(rocks).level_zero_slowdown_writes_trigger,
        options@.disable_auto_compactions ==> final(rocks).disable_auto_compactions == Some(true),
        !options@.disable_auto_compactions ==> final(rocks).disable_auto_compactions
            == old(rocks).disable_auto_compactions,
{
    let (before, after) = (old(rocks)@, final(rocks)@);
    assert(after.collectors == before.collectors);
}

/// RocksDB's store options heed every one of the options.
pub proof fn law_rocks_db_opts<K, R>(
    options: DBOptions<K, R>,
    rocks: RocksDBOptions<RocksEnvRequest<K, R>>,
)
    requires
        call_ensures(get_rocks_db_opts::<K, R>, (options,), rocks),
    ensures
        heeds_db(rocks, options@),
{
}

/// Putting the environment in keeps all other options, and an error in making it
/// is passed on.
pub proof fn law_with_env<V, W, X>(
    options: RocksDBOptions<V>,
    env: Result<W, X>,
    made: Result<RocksDBOptions<W>, X>,
)
    requires
        call_ensures(RocksDBOptions::<V>::with_env::<W, X>, (options, env), made),
    ensures
        env matches Err(error) ==> made == Err::<RocksDBOptions<W>, X>(error),
        env matches Ok(env) ==> made is Ok && {
            &&& made->Ok_0.env == env
            &&& made->Ok_0.unordered_write == options.unordered_write
            &&& made->Ok_0.pipelined_write == options.pipelined_write
            &&& made->Ok_0.multi_batch_write == options.multi_batch_write
        },
{
}

/// The names that collectors are added under.
pub proof fn law_collector_names(collector: &PropertiesCollector, name: &'static str)
    requires
        call_ensures(PropertiesCollector::name, (collector,), name),
    ensures
        *collector == PropertiesCollector::Range ==> name@ == "tikv.range-properties-collector"@,
        *collector == PropertiesCollector::Mvcc ==> name@ == "tikv.mvcc-properties-collector"@,
{
}

/// A kv engine of any kind that is constructed with options is constructed for
/// the given directory, with exactly the given options and column families.
pub proof fn law_kv_engine_opt<K, R, T: KvEngineConstructorExt<K, R>>(
    path: &str,
    db_opt: DBOptions<K, R>,
    cfs_opts: Vec<CFOptions>,
    engine: T,
) -> (families: Seq<CFOptionsView>)
    requires
        call_ensures(kv::new_engine_opt::<K, R, T>, (path, db_opt, cfs_opts), engine),
    ensures
        engine.is_kv_engine(path@, Some(db_opt@), families),
        families.len() == cfs_opts@.len(),
        forall|i: int|
            0 <= i < families.len() ==> (#[trigger] families[i]).cf == cfs_opts@[i].cf@
                && families[i].options == cfs_opts@[i].options@,
{
    let families = cfs_opts.deep_view();
    assert(families.len() == cfs_opts@.len());
    assert forall|i: int| 0 <= i < families.len() implies (#[trigger] families[i]).cf
        == cfs_opts@[i].cf@ && families[i].options == cfs_opts@[i].options@ by {
        assert(families[i] == cfs_opts@[i]@);
    }
    families
}

/// Engines of every kind can be constructed from every input.
pub proof fn law_engines_take_every_input<
    K,
    R,
    T: KvEngineConstructorExt<K, R>,
    U: RaftEngineConstructorExt<K, R>,
>(
    path: &str,
    db_opt: Option<DBOptions<K, R>>,
    options: DBOptions<K, R>,
    cfs: &[&str],
    opts: Option<Vec<CFOptions>>,
    cfs_opts: Vec<CFOptions>,
    dir: &TempDir,
)
    ensures
        call_requires(kv::new_engine::<K, R, T>, (path, db_opt, cfs, opts)),
        call_requires(kv::new_engine_opt::<K, R, T>, (path, options, cfs_opts)),
        call_requires(raft::new_engine::<K, R, U>, (path, db_opt)),
        call_requires(new_engines_at::<K, R, T, U>, (path, cfs)),
        call_requires(new_temp_engine::<K, R, T, U>, (dir, cfs)),
        call_requires(
            <RocksEngine<K, R> as KvEngineConstructorExt<K, R>>::new_kv_engine,
            (path, db_opt, cfs, opts),
        ),
        call_requires(
            <RocksEngine<K, R> as KvEngineConstructorExt<K, R>>::new_kv_engine_opt,
            (path, options, cfs_opts),
        ),
        call_requires(
            <RocksEngine<K, R> as RaftEngineConstructorExt<K, R>>::new_raft_engine,
            (path, db_opt),
        ),
        call_requires(
            <RaftLogEngine<K, R> as RaftEngineConstructorExt<K, R>>::new_raft_engine,
            (path, db_opt),
        ),
{
}

/// Options can be made, set, read and turned into those of RocksDB whatever they
/// are.
pub proof fn law_options_take_every_input<K, R, V, W, X>(
    options: &mut ColumnFamilyOptions,
    read: &ColumnFamilyOptions,
    given: ColumnFamilyOptions,
    cf: &str,
    v: bool,
    n: i32,
    db: &mut DBOptions<K, R>,
    given_db: DBOptions<K, R>,
    key_manager: Option<Arc<K>>,
    rate_limiter: Option<Arc<R>>,
    rocks: &mut RocksColumnFamilyOptions,
    rocks_db: RocksDBOptions<V>,
    env: Result<W, X>,
    collector: &PropertiesCollector,
)
    ensures
        call_requires(ColumnFamilyOptions::new, ()),
        call_requires(<ColumnFamilyOptions as Default>::default, ()),
        call_requires(ColumnFamilyOptions::set_disable_auto_compactions, (options, v)),
        call_requires(
            ColumnFamilyOptions::set_level_zero_file_num_compaction_trigger,
            (options, n),
        ),
        call_requires(ColumnFamilyOptions::set_level_zero_slowdown_writes_trigger, (options, n)),
        call_requires(ColumnFamilyOptions::set_no_range_properties, (options, v)),
        call_requires(ColumnFamilyOptions::set_no_table_properties, (options, v)),
        call_requires(ColumnFamilyOptions::get_disable_auto_compactions, (read,)),
        call_requires(ColumnFamilyOptions::get_level_zero_file_num_compaction_trigger, (read,)),
        call_requires(ColumnFamilyOptions::get_level_zero_slowdown_writes_trigger, (read,)),
        call_requires(ColumnFamilyOptions::get_no_range_properties, (read,)),
        call_requires(ColumnFamilyOptions::get_no_table_properties, (read,)),
        call_requires(CFOptions::new, (cf, given)),
        call_requires(<DBOptions<K, R> as Default>::default, ()),
        call_requires(DBOptions::<K, R>::set_key_manager, (db, key_manager)),
        call_requires(DBOptions::<K, R>::set_rate_limiter, (db, rate_limiter)),
        call_requires(DBOptions::<K, R>::set_enable_multi_batch_write, (db, v)),
        call_requires(RocksColumnFamilyOptions::new, ()),
        call_requires(set_standard_cf_opts, (rocks, read)),
        call_requires(set_cf_opts, (rocks, read)),
        call_requires(get_rocks_db_opts::<K, R>, (given_db,)),
        call_requires(RocksDBOptions::<V>::with_env::<W, X>, (rocks_db, env)),
        call_requires(PropertiesCollector::name, (collector,)),
{
}

} // verus!
