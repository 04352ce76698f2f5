use std::sync::Arc;

use engine_test::ctor::panic_engine::PanicEngine;
use engine_test::ctor::raft_engine::RaftLogEngine;
use engine_test::ctor::rocks::{
    get_rocks_db_opts, set_cf_opts, set_standard_cf_opts, PropertiesCollector, RocksColumnFamilyOptions,
    RocksEngine,
};
use engine_test::ctor::{CFOptions, ColumnFamilyOptions, DBOptions, CF_DEFAULT};
use engine_test::temp::{new_engines_at, Engines};
use engine_test::{kv, new_temp_engine, raft};

struct Keys(u8);
struct Limit(u8);

type Options = DBOptions<Keys, Limit>;
type Rocks = RocksEngine<Keys, Limit>;
type RaftLog = RaftLogEngine<Keys, Limit>;

const BOTH: [PropertiesCollector; 2] = [PropertiesCollector::Range, PropertiesCollector::Mvcc];

fn tuned() -> ColumnFamilyOptions {
    let mut options = ColumnFamilyOptions::new();
    options.set_disable_auto_compactions(true);
    options.set_level_zero_file_num_compaction_trigger(4);
    options.set_level_zero_slowdown_writes_trigger(-5);
    options.set_no_range_properties(true);
    options
}

#[test]
fn column_family_options_start_unset() {
    for options in [ColumnFamilyOptions::new(), ColumnFamilyOptions::default()] {
        assert!(!options.get_disable_auto_compactions());
        assert_eq!(options.get_level_zero_file_num_compaction_trigger(), None);
        assert_eq!(options.get_level_zero_slowdown_writes_trigger(), None);
        assert!(!options.get_no_range_properties());
        assert!(!options.get_no_table_properties());
    }
}

#[test]
fn column_family_options_keep_what_is_set() {
    let mut options = tuned();
    assert!(options.get_disable_auto_compactions());
    assert_eq!(options.get_level_zero_file_num_compaction_trigger(), Some(4));
    assert_eq!(options.get_level_zero_slowdown_writes_trigger(), Some(-5));
    assert!(options.get_no_range_properties());
    assert!(!options.get_no_table_properties());
    options.set_no_table_properties(true);
    options.set_disable_auto_compactions(false);
    let copy = options.clone();
    assert!(!copy.get_disable_auto_compactions());
    assert!(copy.get_no_range_properties());
    assert!(copy.get_no_table_properties());
    assert_eq!(copy.get_level_zero_file_num_compaction_trigger(), Some(4));
}

#[test]
fn cf_options_hold_name_and_options() {
    let options = CFOptions::new("write", tuned());
    assert_eq!(options.cf, "write");
    assert_eq!(options.options.get_level_zero_slowdown_writes_trigger(), Some(-5));
    assert_eq!(options.clone().cf, "write");
}

#[test]
fn collectors_have_names() {
    assert_eq!(PropertiesCollector::Range.name(), "tikv.range-properties-collector");
    assert_eq!(PropertiesCollector::Mvcc.name(), "tikv.mvcc-properties-collector");
}

#[test]
fn standard_collectors_follow_the_options() {
    for (no_range, no_table, expected) in [
        (false, false, vec![PropertiesCollector::Range, PropertiesCollector::Mvcc]),
        (true, false, vec![PropertiesCollector::Mvcc]),
        (false, true, vec![PropertiesCollector::Range]),
        (true, true, vec![]),
    ] {
        let mut options = ColumnFamilyOptions::new();
        options.set_no_range_properties(no_range);
        options.set_no_table_properties(no_table);
        let mut rocks = RocksColumnFamilyOptions::new();
        set_standard_cf_opts(&mut rocks, &options);
        assert_eq!(rocks.collectors, expected);
        assert_eq!(rocks.level_zero_file_num_compaction_trigger, None);
    }
}

#[test]
fn set_cf_opts_sets_only_what_is_set() {
    let mut rocks = RocksColumnFamilyOptions::new();
    rocks.level_zero_slowdown_writes_trigger = Some(1);
    rocks.disable_auto_compactions = Some(false);
    set_cf_opts(&mut rocks, &ColumnFamilyOptions::new());
    assert_eq!(rocks.level_zero_file_num_compaction_trigger, None);
    assert_eq!(rocks.level_zero_slowdown_writes_trigger, Some(1));
    assert_eq!(rocks.disable_auto_compactions, Some(false));
    set_cf_opts(&mut rocks, &tuned());
    assert_eq!(rocks.level_zero_file_num_compaction_trigger, Some(4));
    assert_eq!(rocks.level_zero_slowdown_writes_trigger, Some(-5));
    assert_eq!(rocks.disable_auto_compactions, Some(true));
    assert!(rocks.collectors.is_empty());
}

#[test]
fn multi_batch_write_turns_the_others_off() {
    let plain = get_rocks_db_opts(Options::default());
    assert_eq!(plain.unordered_write, None);
    assert_eq!(plain.pipelined_write, None);
    assert_eq!(plain.multi_batch_write, None);
    assert!(plain.env.key_manager.is_none());
    assert!(plain.env.rate_limiter.is_none());

    let mut options = Options::default();
    options.set_enable_multi_batch_write(true);
    let multi = get_rocks_db_opts(options);
    assert_eq!(multi.unordered_write, Some(false));
    assert_eq!(multi.pipelined_write, Some(false));
    assert_eq!(multi.multi_batch_write, Some(true));
}

#[test]
fn an_environment_is_put_in_or_its_error_given_back() {
    let mut options = Options::default();
    options.set_enable_multi_batch_write(true);
    let done = get_rocks_db_opts(options.clone()).with_env::<u8, &str>(Ok(3));
    let done = match done {
        Ok(done) => done,
        Err(_) => panic!("there was no error"),
    };
    assert_eq!(done.env, 3);
    assert_eq!(done.unordered_write, Some(false));
    assert_eq!(done.multi_batch_write, Some(true));
    let failed = get_rocks_db_opts(options).with_env::<u8, &str>(Err("no env"));
    assert_eq!(failed.err(), Some("no env"));
}

#[test]
fn cloned_store_options_share_their_parts() {
    let keys = Arc::new(Keys(1));
    let limit = Arc::new(Limit(2));
    let mut options = Options::default();
    options.set_key_manager(Some(keys.clone()));
    options.set_rate_limiter(Some(limit.clone()));
    let copy = options.clone();
    assert_eq!(Arc::strong_count(&keys), 3);
    let rocks = get_rocks_db_opts(copy);
    let kept = rocks.env.key_manager.unwrap();
    assert!(Arc::ptr_eq(&kept, &keys));
    assert_eq!(kept.0, 1);
    assert_eq!(rocks.env.rate_limiter.unwrap().0, 2);
    options.set_key_manager(None);
    let rocks = get_rocks_db_opts(options);
    assert!(rocks.env.key_manager.is_none());
    assert!(Arc::ptr_eq(&rocks.env.rate_limiter.unwrap(), &limit));
}

#[test]
fn rocks_kv_engine_from_names() {
    let engine: Rocks = kv::new_engine("/db", None, &["default", "lock"], None);
    assert_eq!(engine.path, "/db");
    assert!(engine.db_opts.is_none());
    assert_eq!(engine.cfs_opts.len(), 2);
    assert_eq!(engine.cfs_opts[0].cf, "default");
    assert_eq!(engine.cfs_opts[1].cf, "lock");
    for cf in &engine.cfs_opts {
        assert_eq!(cf.options.collectors, BOTH);
        assert_eq!(cf.options.level_zero_file_num_compaction_trigger, None);
        assert_eq!(cf.options.level_zero_slowdown_writes_trigger, None);
        assert_eq!(cf.options.disable_auto_compactions, None);
    }
}

#[test]
fn options_make_the_names_count_for_nothing() {
    let opts = vec![CFOptions::new("write", tuned())];
    for cfs in [&[][..], &["default"][..], &["a", "b", "c"][..]] {
        let engine: Rocks = kv::new_engine("/db", Some(Options::default()), cfs, Some(opts.clone()));
        assert!(engine.db_opts.is_some());
        assert_eq!(engine.cfs_opts.len(), 1);
        assert_eq!(engine.cfs_opts[0].cf, "write");
        assert_eq!(engine.cfs_opts[0].options.collectors, [PropertiesCollector::Mvcc]);
        assert_eq!(engine.cfs_opts[0].options.disable_auto_compactions, Some(true));
    }
    let engine: Rocks = kv::new_engine("/db", None, &["default"], Some(vec![]));
    assert!(engine.cfs_opts.is_empty());
}

#[test]
fn rocks_kv_engine_from_options() {
    let mut options = Options::default();
    options.set_enable_multi_batch_write(true);
    let opts = vec![CFOptions::new("a", tuned()), CFOptions::new("b", ColumnFamilyOptions::new())];
    let engine: Rocks = kv::new_engine_opt("/db", options, opts);
    assert_eq!(engine.path, "/db");
    assert_eq!(engine.db_opts.unwrap().multi_batch_write, Some(true));
    assert_eq!(engine.cfs_opts.len(), 2);
    assert_eq!(engine.cfs_opts[0].cf, "a");
    assert_eq!(engine.cfs_opts[0].options.level_zero_file_num_compaction_trigger, Some(4));
    assert_eq!(engine.cfs_opts[1].cf, "b");
    assert_eq!(engine.cfs_opts[1].options.collectors, BOTH);
}

#[test]
fn rocks_raft_engine_has_the_default_column_family() {
    let engine: Rocks = raft::new_engine("/raft", None);
    assert_eq!(engine.path, "/raft");
    assert!(engine.db_opts.is_none());
    assert_eq!(engine.cfs_opts.len(), 1);
    assert_eq!(engine.cfs_opts[0].cf, "default");
    assert_eq!(CF_DEFAULT, "default");
    assert_eq!(engine.cfs_opts[0].options.collectors, BOTH);
    let engine: Rocks = raft::new_engine("/raft", Some(Options::default()));
    assert_eq!(engine.db_opts.unwrap().multi_batch_write, None);
}

#[test]
fn raft_log_engine_takes_directory_keys_and_limit() {
    let engine: RaftLog = raft::new_engine("/raft", None);
    assert_eq!(engine.config.dir, "/raft");
    assert!(engine.key_manager.is_none());
    assert!(engine.rate_limiter.is_none());
    let mut options = Options::default();
    options.set_key_manager(Some(Arc::new(Keys(7))));
    options.set_rate_limiter(Some(Arc::new(Limit(8))));
    let engine: RaftLog = raft::new_engine("/raft", Some(options));
    assert_eq!(engine.key_manager.unwrap().0, 7);
    assert_eq!(engine.rate_limiter.unwrap().0, 8);
}

#[test]
fn panic_engine_can_always_be_constructed() {
    let _: PanicEngine = kv::new_engine::<Keys, Limit, PanicEngine>("/db", None, &["default"], None);
    let _: PanicEngine = kv::new_engine_opt("/db", Options::default(), vec![]);
    let _: PanicEngine = raft::new_engine::<Keys, Limit, PanicEngine>("/raft", None);
}

#[test]
fn temporary_engines_lie_in_the_temporary_directory() {
    let dir = tempfile::TempDir::new().unwrap();
    let engines: Engines<Rocks, RaftLog> =
        new_temp_engine::<Keys, Limit, Rocks, RaftLog>(&dir, &["default", "raft"]).unwrap();
    assert_eq!(engines.kv.path, dir.path().to_str().unwrap());
    assert_eq!(engines.raft.config.dir, dir.path().join("raft").to_str().unwrap());
    assert!(engines.kv.db_opts.is_none());
    assert_eq!(engines.kv.cfs_opts.len(), 2);
    assert_eq!(engines.kv.cfs_opts[1].cf, "raft");
    assert_eq!(engines.kv.cfs_opts[1].options.collectors, BOTH);
}

#[test]
fn engines_lie_in_a_directory() {
    let engines = new_engines_at::<Keys, Limit, Rocks, Rocks>("/tmp/x", &["default"]);
    assert_eq!(engines.kv.path, "/tmp/x");
    assert_eq!(engines.raft.path, "/tmp/x/raft");
    assert_eq!(engines.raft.cfs_opts[0].cf, "default");
}
