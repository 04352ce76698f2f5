use std::sync::{Arc, Mutex};

use engine_test::ctor::rocks::RocksEngine;
use engine_test::ctor::{CFOptions, ColumnFamilyOptions, DBOptions};
use engine_test::kv::{
    OpenStep, PendingTablet, Purpose, TabletError, TestTabletFactory,
};
use engine_test::path::PathText;
use engine_test::registry::{OpenTablet, Registry};
use engine_test::run::{run_create, run_load, run_open, run_open_raw, Outcome};

type Rocks = RocksEngine<u8, u8>;
type Factory = TestTabletFactory<u8, u8, &'static str>;

fn factory() -> Factory {
    TestTabletFactory::new("/data", None, &["default", "lock"], None)
}

fn tablet(path: &str, engine: &'static str) -> OpenTablet<&'static str> {
    OpenTablet { path: path.to_string(), engine: Arc::new(engine) }
}

fn exact(path: &str) -> PathText {
    PathText::Exact(path.to_string())
}

fn pending(result: Result<PendingTablet<Rocks>, TabletError>) -> PendingTablet<Rocks> {
    match result {
        Ok(pending) => pending,
        Err(error) => panic!("{}", error.message()),
    }
}

fn refused(result: Result<PendingTablet<Rocks>, TabletError>) -> String {
    match result {
        Ok(_) => panic!("not refused"),
        Err(error) => error.message(),
    }
}

/// Creates a tablet whose engine goes by the path that it was built for.
fn create(factory: &mut Factory, id: u64, suffix: u64, engine: &'static str) {
    let pending = pending(factory.create_tablet(id, suffix));
    let built = tablet(&pending.engine.path, engine);
    let result: Result<OpenTablet<&'static str>, ()> = factory.tablet_built(pending, Ok(built));
    assert_eq!(*result.unwrap().engine, engine);
}

fn cached(factory: &Factory, id: u64, suffix: u64) -> Option<&'static str> {
    factory.open_tablet_cache(id, suffix).map(|tablet| *tablet.engine)
}

fn opened_keys(factory: &Factory) -> Vec<(u64, u64)> {
    let mut keys: Vec<(u64, u64)> =
        factory.for_each_opened_tablet().iter().map(|t| (t.0, t.1)).collect();
    keys.sort();
    keys
}

#[test]
fn a_new_factory_has_no_tablets() {
    let factory = factory();
    assert!(factory.for_each_opened_tablet().is_empty());
    assert!(factory.set_shared_block_cache_capacity(1).is_none());
    assert!(factory.open_tablet_cache(0, 0).is_none());
    assert!(factory.open_tablet_cache_any(0).is_none());
    assert!(!factory.is_single_engine());
}

#[test]
fn paths_of_a_factory() {
    let factory = factory();
    assert_eq!(factory.tablets_path(), "/data/tablets");
    assert_eq!(factory.tablet_path(1, 2), "/data/tablets/1_2");
    assert_eq!(factory.tombstone_path(1, 2), "/data/tablets/1_2/TOMBSTONE_TABLET");
}

#[test]
fn a_tablet_gets_the_options_of_the_factory() {
    let keys = Arc::new(3u8);
    let mut db_opt = DBOptions::default();
    db_opt.set_key_manager(Some(keys.clone()));
    let mut options = ColumnFamilyOptions::new();
    options.set_level_zero_slowdown_writes_trigger(11);
    let opts = vec![CFOptions::new("write", options)];
    let factory: Factory =
        TestTabletFactory::new("root", Some(db_opt), &["default"], Some(opts));
    for suffix in 0..2 {
        let pending = pending(factory.create_tablet(9, suffix));
        assert_eq!((pending.id, pending.suffix), (9, suffix));
        assert_eq!(pending.purpose, Purpose::Create);
        assert_eq!(pending.engine.path, factory.tablet_path(9, suffix));
        let kept = pending.engine.db_opts.unwrap().env.key_manager.unwrap();
        assert!(Arc::ptr_eq(&kept, &keys));
        assert_eq!(pending.engine.cfs_opts.len(), 1);
        assert_eq!(pending.engine.cfs_opts[0].cf, "write");
        let rocks = &pending.engine.cfs_opts[0].options;
        assert_eq!(rocks.level_zero_slowdown_writes_trigger, Some(11));
    }
}

#[test]
fn a_tablet_gets_the_names_of_the_factory() {
    let pending = pending(factory().create_tablet(9, 1));
    assert!(pending.engine.db_opts.is_none());
    let names: Vec<&str> = pending.engine.cfs_opts.iter().map(|cf| cf.cf.as_str()).collect();
    assert_eq!(names, ["default", "lock"]);
}

#[test]
fn a_created_tablet_is_open() {
    let mut factory = factory();
    create(&mut factory, 1, 10, "a");
    create(&mut factory, 1, 20, "b");
    assert_eq!(cached(&factory, 1, 10), Some("a"));
    assert_eq!(cached(&factory, 1, 20), Some("b"));
    assert_eq!(cached(&factory, 10, 1), None);
    assert_eq!(opened_keys(&factory), [(1, 10), (1, 20)]);
}

#[test]
fn an_open_tablet_is_shared() {
    let mut factory = factory();
    create(&mut factory, 1, 10, "a");
    let first = factory.open_tablet_cache(1, 10).unwrap();
    let second = match factory.open_tablet(1, 10) {
        OpenStep::Opened(tablet) => tablet,
        OpenStep::Probe(_) => panic!("not open"),
    };
    assert!(Arc::ptr_eq(&first.engine, &second.engine));
    assert_eq!(first.path, "/data/tablets/1_10");
    assert_eq!(second.path, "/data/tablets/1_10");
}

#[test]
fn an_open_tablet_is_not_created_again() {
    let mut factory = factory();
    create(&mut factory, 5, 6, "a");
    let message = "region 5 /data/tablets/5_6 already exists";
    assert_eq!(refused(factory.create_tablet(5, 6)), message);
    match factory.load_tablet(exact("/else/1_1"), 5, 6) {
        Ok(_) => panic!("not refused"),
        Err(error) => {
            assert_eq!(error.message(), message);
            assert!(matches!(error, TabletError::AlreadyExists { id: 5, .. }));
        }
    }
    let probe = factory.open_tablet_raw(exact("/else/5_6"), false);
    assert_eq!(refused(factory.tablet_probed(probe, true)), message);
    assert_eq!(cached(&factory, 5, 6), Some("a"));
}

#[test]
fn a_failed_build_changes_nothing() {
    let mut factory = factory();
    create(&mut factory, 1, 1, "a");
    let pending = pending(factory.create_tablet(2, 2));
    let result = factory.tablet_built(pending, Err("broken"));
    assert_eq!(result.err(), Some("broken"));
    assert_eq!(opened_keys(&factory), [(1, 1)]);
}

#[test]
fn the_shared_db_is_tablet_zero() {
    let mut factory = factory();
    let pending = pending(factory.create_shared_db());
    assert_eq!((pending.id, pending.suffix), (0, 0));
    assert_eq!(pending.engine.path, "/data/tablets/0_0");
    let built = tablet("/data/tablets/0_0", "shared");
    let _ = factory.tablet_built::<Rocks, ()>(pending, Ok(built));
    assert_eq!(cached(&factory, 0, 0), Some("shared"));
    assert_eq!(refused(factory.create_shared_db()), "region 0 /data/tablets/0_0 already exists");
}

#[test]
fn a_tablet_is_opened_from_its_directory() {
    let mut factory = factory();
    let probe = factory.open_tablet_raw(exact(&factory.tablet_path(7, 8)), false);
    assert_eq!(probe.probe_path(), "/data/tablets/7_8");
    let pending = pending(factory.tablet_probed(probe, true));
    assert_eq!((pending.id, pending.suffix), (7, 8));
    assert_eq!(pending.engine.path, "/data/tablets/7_8");
    let built = tablet("/data/tablets/7_8", "a");
    let result = factory.tablet_built::<Rocks, ()>(pending, Ok(built)).unwrap();
    assert_eq!(*result.engine, "a");
    assert_eq!(opened_keys(&factory), [(7, 8)]);
    match factory.open_tablet(7, 8) {
        OpenStep::Opened(again) => assert!(Arc::ptr_eq(&again.engine, &result.engine)),
        OpenStep::Probe(_) => panic!("not open"),
    }
}

#[test]
fn a_path_without_a_store_is_refused() {
    let factory = factory();
    let message = "path /data/tablets/7_8 does not have db";
    match factory.open_tablet(7, 8) {
        OpenStep::Probe(pending) => {
            assert_eq!(pending.path, "/data/tablets/7_8");
            assert_eq!(pending.absent().message(), message);
        }
        OpenStep::Opened(_) => panic!("open already"),
    }
    let probe = factory.open_tablet_raw(exact("/data/tablets/7_8"), false);
    assert_eq!(refused(factory.tablet_probed(probe, false)), message);
    let lossy = PathText::Lossy("/\u{fffd}/7_8".to_string());
    let probe = factory.open_tablet_raw(lossy, true);
    assert_eq!(probe.probe_path(), "");
    let result: Result<PendingTablet<Rocks>, TabletError> = factory.tablet_probed(probe, false);
    match result {
        Err(TabletError::NoDb { path }) => assert_eq!(path, ""),
        _ => panic!("not refused"),
    }
}

#[test]
fn a_tablet_opened_by_its_path_goes_by_the_ids_in_it() {
    let mut factory = factory();
    for (path, id, suffix) in [("/x/3_4", 3, 4), ("/x/3", 3, 1), ("/x/db", 0, 1)] {
        let probe = factory.open_tablet_raw(exact(path), false);
        let pending = pending(factory.tablet_probed(probe, true));
        assert_eq!((pending.id, pending.suffix), (id, suffix));
        assert_eq!(pending.engine.path, factory.tablet_path(id, suffix));
        assert_eq!(pending.purpose, Purpose::Create);
        let built = tablet(&pending.engine.path, "a");
        assert!(factory.tablet_built::<Rocks, ()>(pending, Ok(built)).is_ok());
    }
    assert_eq!(opened_keys(&factory), [(0, 1), (3, 1), (3, 4)]);
}

fn load(factory: &mut Factory, path: &str, id: u64, suffix: u64, engine: &'static str) {
    let pending_load = match factory.load_tablet(exact(path), id, suffix) {
        Ok(pending_load) => pending_load,
        Err(error) => panic!("{}", error.message()),
    };
    assert_eq!(pending_load.path.to_str_or_default(), path);
    assert_eq!(pending_load.db_path, factory.tablet_path(id, suffix));
    let probe = match pending_load.renamed::<()>(Ok(())) {
        Ok(probe) => probe,
        Err(_) => panic!("renaming went well"),
    };
    assert_eq!(probe.probe_path(), factory.tablet_path(id, suffix));
    let pending = pending(factory.tablet_probed(probe, true));
    assert_eq!((pending.id, pending.suffix), (id, suffix));
    let built = tablet(&pending.engine.path, engine);
    let result = factory.tablet_built::<Rocks, ()>(pending, Ok(built)).unwrap();
    assert_eq!(*result.engine, engine);
}

#[test]
fn a_loaded_tablet_moves() {
    let mut factory = factory();
    create(&mut factory, 1, 10, "old");
    create(&mut factory, 2, 2, "other");
    load(&mut factory, "/data/tablets/1_10", 1, 20, "new");
    assert_eq!(cached(&factory, 1, 20), Some("new"));
    assert_eq!(opened_keys(&factory), [(1, 20), (2, 2)]);
}

#[test]
fn a_tablet_loaded_from_a_path_without_ids_closes_the_default() {
    let mut factory = factory();
    create(&mut factory, 0, 1, "default");
    load(&mut factory, "/elsewhere/snapshot", 4, 4, "new");
    assert_eq!(opened_keys(&factory), [(4, 4)]);
}

#[test]
fn a_tablet_loaded_onto_itself_is_not_kept() {
    let mut factory = factory();
    load(&mut factory, "/elsewhere/4_4", 4, 4, "new");
    assert_eq!(cached(&factory, 4, 4), None);
    assert!(factory.for_each_opened_tablet().is_empty());
}

#[test]
fn a_failed_rename_gives_its_error_back() {
    let factory = factory();
    let pending_load = match factory.load_tablet(exact("/x/1_1"), 1, 2) {
        Ok(pending_load) => pending_load,
        Err(error) => panic!("{}", error.message()),
    };
    assert_eq!(pending_load.renamed(Err("no such directory")).err(), Some("no such directory"));
}

#[test]
fn a_destroyed_tablet_can_be_created_again() {
    let mut factory = factory();
    create(&mut factory, 1, 1, "a");
    create(&mut factory, 2, 1, "b");
    assert_eq!(factory.destroy_tablet(1, 1), "/data/tablets/1_1");
    assert_eq!(opened_keys(&factory), [(2, 1)]);
    create(&mut factory, 1, 1, "c");
    assert_eq!(cached(&factory, 1, 1), Some("c"));
    assert_eq!(factory.destroy_tablet(9, 9), "/data/tablets/9_9");
    assert_eq!(opened_keys(&factory), [(1, 1), (2, 1)]);
}

#[test]
fn a_marked_tablet_is_closed() {
    let mut factory = factory();
    create(&mut factory, 1, 1, "a");
    create(&mut factory, 1, 2, "b");
    factory.mark_tombstone(1, 1);
    assert_eq!(opened_keys(&factory), [(1, 2)]);
}

#[test]
fn any_tablet_with_an_id_is_found() {
    let mut factory = factory();
    create(&mut factory, 1, 5, "a");
    create(&mut factory, 2, 1, "b");
    create(&mut factory, 2, 9, "c");
    assert_eq!(*factory.open_tablet_cache_any(1).unwrap().engine, "a");
    let found = *factory.open_tablet_cache_any(2).unwrap().engine;
    assert!(found == "b" || found == "c");
    assert!(factory.open_tablet_cache_any(5).is_none());
}

#[test]
fn the_cache_capacity_is_set_through_an_open_tablet() {
    let mut factory = factory();
    create(&mut factory, 1, 5, "a");
    create(&mut factory, 2, 5, "b");
    let change = factory.set_shared_block_cache_capacity(77).unwrap();
    assert!(*change.tablet.engine == "a" || *change.tablet.engine == "b");
    assert_eq!(change.cf, "default");
    assert_eq!(change.capacity, 77);
}

#[test]
fn every_open_tablet_is_visited_once() {
    let mut factory = factory();
    create(&mut factory, u64::MAX, 0, "a");
    create(&mut factory, 0, u64::MAX, "b");
    create(&mut factory, 1, 0, "c");
    create(&mut factory, 0, 1, "d");
    let mut visited = factory.for_each_opened_tablet();
    visited.sort_by_key(|t| (t.0, t.1));
    let seen: Vec<(u64, u64, &str)> =
        visited.iter().map(|t| (t.0, t.1, *t.2.engine)).collect();
    assert_eq!(
        seen,
        [(0, 1, "d"), (0, u64::MAX, "b"), (1, 0, "c"), (u64::MAX, 0, "a")]
    );
}

#[test]
fn a_registry_keeps_one_tablet_per_key() {
    let mut registry = Registry::new();
    registry.insert(1, 2, tablet("p", "a"));
    registry.insert(1, 2, tablet("q", "b"));
    assert_eq!(registry.get(1, 2).unwrap().path, "q");
    assert_eq!(registry.keys(), [(1, 2)]);
    registry.remove(2, 1);
    assert_eq!(registry.keys().len(), 1);
    registry.remove(1, 2);
    assert!(registry.get(1, 2).is_none());
    assert!(registry.keys().is_empty());
}

fn opened(outcome: Outcome<&'static str, &'static str>) -> &'static str {
    match outcome {
        Outcome::Opened(tablet) => *tablet.engine,
        Outcome::Refused(error) => panic!("{}", error.message()),
        Outcome::Failed(error) => panic!("{}", error),
    }
}

fn run_refused(outcome: Outcome<&'static str, &'static str>) -> String {
    match outcome {
        Outcome::Refused(error) => error.message(),
        _ => panic!("not refused"),
    }
}

fn failed(outcome: Outcome<&'static str, &'static str>) -> &'static str {
    match outcome {
        Outcome::Failed(error) => error,
        _ => panic!("went well"),
    }
}

#[test]
fn creating_from_beginning_to_end() {
    let mut factory = factory();
    let message = "region 1 p already exists";
    assert_eq!(failed(run_create::<Rocks, u8, u8, _, _>(&mut factory, 1, 2, Err("full"))), "full");
    assert!(opened_keys(&factory).is_empty());
    assert_eq!(opened(run_create::<Rocks, u8, u8, _, _>(&mut factory, 1, 2, Ok(tablet("p", "a")))), "a");
    assert_eq!(
        run_refused(run_create::<Rocks, u8, u8, _, _>(&mut factory, 1, 2, Ok(tablet("q", "b")))),
        message
    );
    assert_eq!(cached(&factory, 1, 2), Some("a"));
}

#[test]
fn opening_from_beginning_to_end() {
    let mut factory = factory();
    assert_eq!(
        run_refused(run_open(&factory, 3, 4, false)),
        "path /data/tablets/3_4 does not have db"
    );
    let home = factory.tablet_path(3, 4);
    let built = Ok(tablet(&home, "a"));
    let outcome = run_open_raw::<Rocks, u8, u8, _, _>(&mut factory, exact(&home), false, built);
    assert_eq!(run_refused(outcome), "path /data/tablets/3_4 does not have db");
    let outcome = run_open_raw::<Rocks, u8, u8, _, _>(&mut factory, exact(&home), true, Err("broken"));
    assert_eq!(failed(outcome), "broken");
    assert!(opened_keys(&factory).is_empty());
    let built = Ok(tablet(&home, "a"));
    let outcome = run_open_raw::<Rocks, u8, u8, _, _>(&mut factory, exact(&home), true, built);
    assert_eq!(opened(outcome), "a");
    assert_eq!(opened_keys(&factory), [(3, 4)]);
    assert_eq!(opened(run_open(&factory, 3, 4, true)), "a");
    assert_eq!(opened(run_open(&factory, 3, 4, false)), "a");
}

#[test]
fn loading_from_beginning_to_end() {
    let mut factory = factory();
    create(&mut factory, 1, 10, "old");
    let mut go = |renamed: Result<(), &'static str>, exists: bool, built| {
        run_load::<Rocks, u8, u8, _, _>(
            &mut factory,
            exact("/data/tablets/1_10"),
            1,
            20,
            renamed,
            exists,
            built,
        )
    };
    assert_eq!(failed(go(Err("no such directory"), true, Err("broken"))), "no such directory");
    assert_eq!(
        run_refused(go(Ok(()), false, Err("broken"))),
        "path /data/tablets/1_20 does not have db"
    );
    assert_eq!(failed(go(Ok(()), true, Err("broken"))), "broken");
    assert_eq!(opened(go(Ok(()), true, Ok(tablet("p", "new")))), "new");
    assert_eq!(
        run_refused(go(Ok(()), true, Ok(tablet("q", "newer")))),
        "region 1 p already exists"
    );
    assert_eq!(opened_keys(&factory), [(1, 20)]);
}

#[test]
fn what_is_open_is_what_was_registered_last_and_not_removed() {
    let one = Arc::new(Mutex::new(factory()));
    let other = one.clone();
    create(&mut one.lock().unwrap(), 1, 1, "a");
    create(&mut other.lock().unwrap(), 2, 2, "b");
    assert_eq!(cached(&one.lock().unwrap(), 2, 2), Some("b"));
    assert_eq!(cached(&other.lock().unwrap(), 1, 1), Some("a"));
    other.lock().unwrap().mark_tombstone(1, 1);
    assert_eq!(cached(&one.lock().unwrap(), 1, 1), None);
    create(&mut one.lock().unwrap(), 1, 1, "c");
    assert_eq!(cached(&other.lock().unwrap(), 1, 1), Some("c"));
    load(&mut other.lock().unwrap(), "/x/2_2", 3, 3, "d");
    assert_eq!(opened_keys(&one.lock().unwrap()), [(1, 1), (3, 3)]);
    assert_eq!(one.lock().unwrap().tablets_path(), "/data/tablets");
}
