//! What holds of calls to a tablet factory and to the registry of tablets.

use vstd::prelude::*;

use crate::ctor::rocks::RocksEngine;
use crate::ctor::{
    column_families, CFOptions, CFOptionsView, DBOptions, KvEngineConstructorExt,
};
use crate::decimal::decimal;
use crate::kv::{
    CacheCapacity, FactoryView, OpenStep, PendingLoad, PendingOpen, PendingProbe, PendingTablet,
    Purpose, TabletError, TestTabletFactory,
};
use crate::laws::engines::{heeds_cf, heeds_db, is_plain_rocks_cf, is_unset, lemma_cfs};
use crate::laws::paths::{is_written, lemma_decimal_is_written, lemma_written_once, separator};
use crate::path::{get_id_and_suffix_from_path, law_tablet_dir_read_back, tablet_dir, PathText};
use crate::registry::{OpenTablet, Registry};
use crate::run::{run_create, run_load, run_open, run_open_raw, Outcome};

verus! {

/// Whether a path is the directory of a tablet under a root: the whole root,
/// then `tablets`, then the id and the suffix as they are usually written.
pub open spec fn is_tablet_dir(path: Seq<char>, root: Seq<char>, id: u64, suffix: u64) -> bool {
    exists|id_text: Seq<char>, suffix_text: Seq<char>| #[trigger]
        is_written(id, id_text) && #[trigger] is_written(suffix, suffix_text) && path == root
            + separator(root) + "tablets/"@ + id_text + "_"@ + suffix_text
}

/// Whether two states of a factory have the same settings.
pub open spec fn keeps_settings<K, R, H>(
    before: FactoryView<K, R, H>,
    after: FactoryView<K, R, H>,
) -> bool {
    &&& after.root_path == before.root_path
    &&& after.db_opt == before.db_opt
    &&& after.cfs == before.cfs
    &&& after.opts == before.opts
}

/// Whether two states of a factory have the same tablet open under a key, or
/// none.
pub open spec fn keeps_tablet<K, R, H>(
    before: FactoryView<K, R, H>,
    after: FactoryView<K, R, H>,
    key: (u64, u64),
) -> bool {
    &&& after.tablets.contains_key(key) <==> before.tablets.contains_key(key)
    &&& before.tablets.contains_key(key) ==> after.tablets[key] == before.tablets[key]
}

/// Whether two states of a factory are the same: settings and open tablets.
pub open spec fn keeps_all<K, R, H>(
    before: FactoryView<K, R, H>,
    after: FactoryView<K, R, H>,
) -> bool {
    &&& keeps_settings(before, after)
    &&& forall|key: (u64, u64)| #[trigger] keeps_tablet(before, after, key)
}

/// Whether a tablet is open under a key afterwards, and nothing else has changed
/// but that another key may be closed.
pub open spec fn has_opened<K, R, H>(
    before: FactoryView<K, R, H>,
    after: FactoryView<K, R, H>,
    key: (u64, u64),
    tablet: OpenTablet<H>,
    closed: Option<(u64, u64)>,
) -> bool {
    &&& keeps_settings(before, after)
    &&& closed != Some(key) ==> after.tablets.contains_key(key) && after.tablets[key] == tablet
    &&& closed matches Some(gone) ==> !after.tablets.contains_key(gone)
    &&& forall|other: (u64, u64)|
        other != key && closed != Some(other) ==> #[trigger] keeps_tablet(before, after, other)
}

/// Whether an error says that a tablet is open already, at the path that it goes
/// by.
pub open spec fn says_already_exists<H>(error: TabletError, id: u64, tablet: OpenTablet<H>) -> bool {
    match error {
        TabletError::AlreadyExists { id: said, path } => said == id && path@ == tablet.path@,
        TabletError::NoDb { .. } => false,
    }
}

/// Whether an error says that there is no store at a path, by the exact text of
/// the path, which is empty where there is none.
pub open spec fn says_no_db(error: TabletError, path: PathText) -> bool {
    match error {
        TabletError::AlreadyExists { .. } => false,
        TabletError::NoDb { path: said } => match path {
            PathText::Exact(text) => said@ == text@,
            PathText::Lossy(_) => said@.len() == 0,
        },
    }
}

/// Whether column families are those that a factory is set to: those with
/// options, or else those that are named, with nothing set.
pub open spec fn are_set<K, R, H>(
    families: Seq<CFOptionsView>,
    factory: FactoryView<K, R, H>,
) -> bool {
    match factory.opts {
        Some(opts) => families == opts,
        None => {
            &&& families.len() == factory.cfs.len()
            &&& forall|i: int|
                0 <= i < families.len() ==> (#[trigger] families[i]).cf == factory.cfs[i]
                    && is_unset(families[i].options)
        },
    }
}

/// Whether an engine is to be built as a tablet of a factory: in the directory of
/// the tablet, with the options and the column families that the factory is set
/// to.
pub open spec fn is_for<K, R, H, T: KvEngineConstructorExt<K, R>>(
    engine: T,
    factory: FactoryView<K, R, H>,
    id: u64,
    suffix: u64,
) -> bool {
    exists|path: Seq<char>, families: Seq<CFOptionsView>| #[trigger]
        is_tablet_dir(path, factory.root_path, id, suffix) && #[trigger] are_set(families, factory)
            && engine.is_kv_engine(path, factory.db_opt, families)
}

/// The same for a RocksDB engine, by what it consists of.
pub open spec fn is_rocks_for<K, R, H>(
    engine: RocksEngine<K, R>,
    factory: FactoryView<K, R, H>,
    id: u64,
    suffix: u64,
) -> bool {
    &&& is_tablet_dir(engine.path@, factory.root_path, id, suffix)
    &&& match factory.db_opt {
        Some(options) => engine.db_opts is Some && heeds_db(engine.db_opts->0, options),
        None => engine.db_opts is None,
    }
    &&& match factory.opts {
        Some(opts) => {
            &&& engine.cfs_opts@.len() == opts.len()
            &&& forall|i: int|
                0 <= i < opts.len() ==> heeds_cf(
                    #[trigger] engine.cfs_opts@[i],
                    opts[i].cf,
                    opts[i].options,
                )
        },
        None => {
            &&& engine.cfs_opts@.len() == factory.cfs.len()
            &&& forall|i: int|
                0 <= i < factory.cfs.len() ==> is_plain_rocks_cf(
                    #[trigger] engine.cfs_opts@[i],
                    factory.cfs[i],
                )
        },
    }
}

proof fn lemma_tablet_dir(root: Seq<char>, id: u64, suffix: u64)
    ensures
        is_tablet_dir(tablet_dir(root, id, suffix), root, id, suffix),
{
    let (a, b) = (decimal(id as nat), decimal(suffix as nat));
    lemma_decimal_is_written(id);
    lemma_decimal_is_written(suffix);
    reveal_strlit("tablets/");
    reveal_strlit("_");
    assert(tablet_dir(root, id, suffix) =~= root + separator(root) + "tablets/"@ + a + "_"@ + b);
}

proof fn lemma_is_for<K, R, H, T: KvEngineConstructorExt<K, R>>(
    engine: T,
    factory: FactoryView<K, R, H>,
    id: u64,
    suffix: u64,
)
    requires
        factory.suits(engine, id, suffix),
    ensures
        is_for(engine, factory, id, suffix),
{
    lemma_tablet_dir(factory.root_path, id, suffix);
    let families = column_families(factory.cfs, factory.opts);
    assert(are_set(families, factory));
    assert(is_tablet_dir(factory.home(id, suffix), factory.root_path, id, suffix));
}

proof fn lemma_is_rocks_for<K, R, H>(
    engine: RocksEngine<K, R>,
    factory: FactoryView<K, R, H>,
    id: u64,
    suffix: u64,
)
    requires
        factory.suits(engine, id, suffix),
    ensures
        is_rocks_for(engine, factory, id, suffix),
{
    lemma_tablet_dir(factory.root_path, id, suffix);
    let families = column_families(factory.cfs, factory.opts);
    assert(are_set(families, factory));
    lemma_cfs(engine.cfs_opts, families);
    assert forall|i: int| 0 <= i < families.len() implies heeds_cf(
        #[trigger] engine.cfs_opts@[i],
        families[i].cf,
        families[i].options,
    ) && (factory.opts is None ==> is_plain_rocks_cf(engine.cfs_opts@[i], factory.cfs[i])) by {
        if factory.opts is None {
            assert(families[i].cf == factory.cfs[i]);
            assert(is_unset(families[i].options));
        }
    }
}

/// A new factory has the given settings and no tablet open.
pub proof fn law_new_factory<K, R, H>(
    root_path: &str,
    db_opt: Option<DBOptions<K, R>>,
    cfs: &[&str],
    opts: Option<Vec<CFOptions>>,
    factory: TestTabletFactory<K, R, H>,
    key: (u64, u64),
)
    requires
        call_ensures(
            TestTabletFactory::<K, R, H>::new,
            (root_path, db_opt, cfs, opts),
            factory,
        ),
    ensures
        factory@.root_path == root_path@,
        db_opt matches Some(options) ==> factory@.db_opt == Some(options@),
        db_opt is None ==> factory@.db_opt is None,
        factory@.cfs.len() == cfs@.len(),
        forall|i: int| 0 <= i < cfs@.len() ==> #[trigger] factory@.cfs[i] == cfs@[i]@,
        opts matches Some(opts) ==> {
            &&& factory@.opts is Some
            &&& factory@.opts->0.len() == opts@.len()
            &&& forall|i: int|
                0 <= i < opts@.len() ==> (#[trigger] factory@.opts->0[i]).cf == opts@[i].cf@
                    && factory@.opts->0[i].options == opts@[i].options@
        },
        opts is None ==> factory@.opts is None,
        !factory@.tablets.contains_key(key),
{
    assert(cfs.deep_view().len() == cfs@.len());
    assert forall|i: int| 0 <= i < cfs@.len() implies #[trigger] factory@.cfs[i] == cfs@[i]@ by {
        assert(cfs.deep_view()[i] == cfs@[i]@);
    }
    if let Some(opts) = opts {
        assert(opts.deep_view().len() == opts@.len());
        assert forall|i: int| 0 <= i < opts@.len() implies (#[trigger] factory@.opts->0[i]).cf
            == opts@[i].cf@ && factory@.opts->0[i].options == opts@[i].options@ by {
            assert(opts.deep_view()[i] == opts@[i]@);
        }
    }
}

/// The paths that a factory gives out lie under its root.
pub proof fn law_factory_paths<K, R, H>(
    factory: &TestTabletFactory<K, R, H>,
    id: u64,
    suffix: u64,
    tablets: String,
    tablet: String,
    tombstone: String,
)
    requires
        call_ensures(TestTabletFactory::<K, R, H>::tablets_path, (factory,), tablets),
        call_ensures(TestTabletFactory::<K, R, H>::tablet_path, (factory, id, suffix), tablet),
        call_ensures(
            TestTabletFactory::<K, R, H>::tombstone_path,
            (factory, id, suffix),
            tombstone,
        ),
    ensures
        tablets@ == factory@.root_path + separator(factory@.root_path) + "tablets"@,
        is_tablet_dir(tablet@, factory@.root_path, id, suffix),
        tombstone@ == tablet@ + "/TOMBSTONE_TABLET"@,
{
    let root = factory@.root_path;
    lemma_tablet_dir(root, id, suffix);
    reveal_strlit("tablets");
    reveal_strlit("TOMBSTONE_TABLET");
    reveal_strlit("/TOMBSTONE_TABLET");
    crate::path::law_tombstone_in_tablet_dir(root, id, suffix);
    assert(tablets@ =~= root + separator(root) + "tablets"@);
    assert(tombstone@ =~= tablet@ + "/TOMBSTONE_TABLET"@);
}

/// Creating a tablet is refused exactly if it is open, with the path that it goes
/// by. Otherwise an engine is to be built for it, as the factory is set.
pub proof fn law_create_tablet<K, R, H, T: KvEngineConstructorExt<K, R>>(
    factory: &TestTabletFactory<K, R, H>,
    id: u64,
    suffix: u64,
    pending: Result<PendingTablet<T>, TabletError>,
)
    requires
        call_ensures(
            TestTabletFactory::<K, R, H>::create_tablet::<T>,
            (factory, id, suffix),
            pending,
        ),
    ensures
        factory@.tablets.contains_key((id, suffix)) ==> pending is Err && says_already_exists(
            pending->Err_0,
            id,
            factory@.tablets[(id, suffix)],
        ),
        !factory@.tablets.contains_key((id, suffix)) ==> pending is Ok && {
            &&& pending->Ok_0.id == id
            &&& pending->Ok_0.suffix == suffix
            &&& pending->Ok_0.purpose == Purpose::Create
            &&& is_for(pending->Ok_0.engine, factory@, id, suffix)
        },
{
    if !factory@.tablets.contains_key((id, suffix)) {
        lemma_is_for(pending->Ok_0.engine, factory@, id, suffix);
    }
}

/// The engine of a tablet that is to be created on RocksDB is built as the
/// factory is set, in every detail.
pub proof fn law_create_tablet_on_rocks<K, R, H>(
    factory: &TestTabletFactory<K, R, H>,
    id: u64,
    suffix: u64,
    pending: Result<PendingTablet<RocksEngine<K, R>>, TabletError>,
)
    requires
        call_ensures(
            TestTabletFactory::<K, R, H>::create_tablet::<RocksEngine<K, R>>,
            (factory, id, suffix),
            pending,
        ),
    ensures
        pending matches Ok(pending) ==> is_rocks_for(pending.engine, factory@, id, suffix),
{
    if pending is Ok {
        lemma_is_rocks_for(pending->Ok_0.engine, factory@, id, suffix);
    }
}

/// The tablet that is shared by all regions is the one with the id 0 and the
/// suffix 0.
pub proof fn law_create_shared_db<K, R, H, T: KvEngineConstructorExt<K, R>>(
    factory: &TestTabletFactory<K, R, H>,
    pending: Result<PendingTablet<T>, TabletError>,
)
    requires
        call_ensures(TestTabletFactory::<K, R, H>::create_shared_db::<T>, (factory,), pending),
    ensures
        factory@.tablets.contains_key((0, 0)) ==> pending is Err && says_already_exists(
            pending->Err_0,
            0,
            factory@.tablets[(0, 0)],
        ),
        !factory@.tablets.contains_key((0, 0)) ==> pending is Ok && {
            &&& pending->Ok_0.id == 0
            &&& pending->Ok_0.suffix == 0
            &&& pending->Ok_0.purpose == Purpose::Create
            &&& is_for(pending->Ok_0.engine, factory@, 0, 0)
        },
{
    if !factory@.tablets.contains_key((0, 0)) {
        lemma_is_for(pending->Ok_0.engine, factory@, 0, 0);
    }
}

/// A tablet that has been built is handed out and open from then on, and one that
/// it was loaded from is closed; nothing else changes. If building fails, the
/// error is passed on and nothing changes.
pub proof fn law_tablet_built<K, R, H, T, X>(
    factory: &mut TestTabletFactory<K, R, H>,
    pending: PendingTablet<T>,
    built: Result<OpenTablet<H>, X>,
    result: Result<OpenTablet<H>, X>,
)
    requires
        call_ensures(
            TestTabletFactory::<K, R, H>::tablet_built::<T, X>,
            (factory, pending, built),
            result,
        ),
    ensures
        result == built,
        built is Err ==> keeps_all(old(factory)@, final(factory)@),
        built matches Ok(tablet) ==> has_opened(
            old(factory)@,
            final(factory)@,
            (pending.id, pending.suffix),
            tablet,
            match pending.purpose {
                Purpose::Create => None,
                Purpose::Load { old_id, old_suffix } => Some((old_id, old_suffix)),
            },
        ),
{
}

/// Opening a tablet that is open gives that tablet; otherwise it is looked for in
/// its directory.
pub proof fn law_open_tablet<K, R, H>(
    factory: &TestTabletFactory<K, R, H>,
    id: u64,
    suffix: u64,
    step: OpenStep<H>,
)
    requires
        call_ensures(TestTabletFactory::<K, R, H>::open_tablet, (factory, id, suffix), step),
    ensures
        factory@.tablets.contains_key((id, suffix)) ==> step == OpenStep::Opened(
            factory@.tablets[(id, suffix)],
        ),
        !factory@.tablets.contains_key((id, suffix)) ==> step is Probe && is_tablet_dir(
            step->Probe_0.path@,
            factory@.root_path,
            id,
            suffix,
        ),
{
    lemma_tablet_dir(factory@.root_path, id, suffix);
}

/// A tablet that is not there is refused by the path where it was looked for.
pub proof fn law_absent(pending: PendingOpen, error: TabletError)
    requires
        call_ensures(PendingOpen::absent, (pending,), error),
    ensures
        error matches TabletError::NoDb { path } && path@ == pending.path@,
{
    assert(error is NoDb);
}

/// A tablet is in the cache exactly if it is open.
pub proof fn law_open_tablet_cache<K, R, H>(
    factory: &TestTabletFactory<K, R, H>,
    id: u64,
    suffix: u64,
    tablet: Option<OpenTablet<H>>,
)
    requires
        call_ensures(
            TestTabletFactory::<K, R, H>::open_tablet_cache,
            (factory, id, suffix),
            tablet,
        ),
    ensures
        tablet is Some <==> factory@.tablets.contains_key((id, suffix)),
        tablet is Some ==> tablet->0 == factory@.tablets[(id, suffix)],
{
}

/// A tablet with an id is found exactly if one is open, and it is one of those
/// with that id.
pub proof fn law_open_tablet_cache_any<K, R, H>(
    factory: &TestTabletFactory<K, R, H>,
    id: u64,
    suffix: u64,
    tablet: Option<OpenTablet<H>>,
)
    requires
        call_ensures(TestTabletFactory::<K, R, H>::open_tablet_cache_any, (factory, id), tablet),
    ensures
        factory@.tablets.contains_key((id, suffix)) ==> tablet is Some,
        tablet matches Some(tablet) ==> exists|s: u64|
            factory@.tablets.contains_key((id, s)) && #[trigger] factory@.tablets[(id, s)]
                == tablet,
{
    if tablet is None {
        assert(factory@.has_none_with(id));
    }
}

/// Opening a tablet by its path looks at that path first.
pub proof fn law_open_tablet_raw<K, R, H>(
    factory: &TestTabletFactory<K, R, H>,
    path: PathText,
    readonly: bool,
    probe: PendingProbe,
    asked: String,
)
    requires
        call_ensures(TestTabletFactory::<K, R, H>::open_tablet_raw, (factory, path, readonly), probe),
        call_ensures(PendingProbe::probe_path, (&probe,), asked),
    ensures
        probe.path == path,
        probe.purpose == Purpose::Create,
        path is Exact ==> asked@ == path->Exact_0@,
        path is Lossy ==> asked@.len() == 0,
{
}

/// A path without a store is refused by its exact text, and no engine is ever to
/// be built for it. One with a store is refused exactly if the tablet that the
/// path stands for is open; otherwise an engine is to be built for that tablet.
pub proof fn law_tablet_probed<K, R, H, T: KvEngineConstructorExt<K, R>>(
    factory: &TestTabletFactory<K, R, H>,
    probe: PendingProbe,
    exists: bool,
    pending: Result<PendingTablet<T>, TabletError>,
    ids: (u64, u64),
)
    requires
        call_ensures(
            TestTabletFactory::<K, R, H>::tablet_probed::<T>,
            (factory, probe, exists),
            pending,
        ),
        call_ensures(get_id_and_suffix_from_path, (&probe.path,), ids),
    ensures
        !exists ==> pending is Err && says_no_db(pending->Err_0, probe.path),
        exists && factory@.tablets.contains_key(ids) ==> pending is Err && says_already_exists(
            pending->Err_0,
            ids.0,
            factory@.tablets[ids],
        ),
        exists && !factory@.tablets.contains_key(ids) ==> pending is Ok && {
            &&& pending->Ok_0.id == ids.0
            &&& pending->Ok_0.suffix == ids.1
            &&& pending->Ok_0.purpose == probe.purpose
            &&& is_for(pending->Ok_0.engine, factory@, ids.0, ids.1)
        },
{
    if exists && !factory@.tablets.contains_key(ids) {
        lemma_is_for(pending->Ok_0.engine, factory@, ids.0, ids.1);
    }
}

/// The engine of a tablet that is to be opened on RocksDB is built as the factory
/// is set, in every detail.
pub proof fn law_tablet_probed_on_rocks<K, R, H>(
    factory: &TestTabletFactory<K, R, H>,
    probe: PendingProbe,
    exists: bool,
    pending: Result<PendingTablet<RocksEngine<K, R>>, TabletError>,
    ids: (u64, u64),
)
    requires
        call_ensures(
            TestTabletFactory::<K, R, H>::tablet_probed::<RocksEngine<K, R>>,
            (factory, probe, exists),
            pending,
        ),
        call_ensures(get_id_and_suffix_from_path, (&probe.path,), ids),
    ensures
        pending matches Ok(pending) ==> exists && is_rocks_for(
            pending.engine,
            factory@,
            ids.0,
            ids.1,
        ),
{
    if pending is Ok {
        lemma_is_rocks_for(pending->Ok_0.engine, factory@, ids.0, ids.1);
    }
}

/// Marking or destroying a tablet closes it and nothing else. What is to be
/// removed from disk is the directory of the tablet.
pub proof fn law_tablet_is_closed<K, R, H>(
    factory: &mut TestTabletFactory<K, R, H>,
    id: u64,
    suffix: u64,
    path: String,
)
    requires
        call_ensures(
            TestTabletFactory::<K, R, H>::mark_tombstone,
            (factory, id, suffix),
            (),
        ) || call_ensures(
            TestTabletFactory::<K, R, H>::destroy_tablet,
            (factory, id, suffix),
            path,
        ),
    ensures
        keeps_settings(old(factory)@, final(factory)@),
        !final(factory)@.tablets.contains_key((id, suffix)),
        forall|key: (u64, u64)|
            key != (id, suffix) ==> #[trigger] keeps_tablet(old(factory)@, final(factory)@, key),
        call_ensures(
            TestTabletFactory::<K, R, H>::destroy_tablet,
            (factory, id, suffix),
            path,
        ) ==> is_tablet_dir(path@, old(factory)@.root_path, id, suffix),
{
    lemma_tablet_dir(old(factory)@.root_path, id, suffix);
}

/// Loading a tablet is refused exactly if it is open, with the path that it goes
/// by. Otherwise the given directory is to be renamed to that of the tablet.
pub proof fn law_load_tablet<K, R, H>(
    factory: &TestTabletFactory<K, R, H>,
    path: PathText,
    id: u64,
    suffix: u64,
    pending: Result<PendingLoad, TabletError>,
)
    requires
        call_ensures(
            TestTabletFactory::<K, R, H>::load_tablet,
            (factory, path, id, suffix),
            pending,
        ),
    ensures
        factory@.tablets.contains_key((id, suffix)) ==> pending is Err && says_already_exists(
            pending->Err_0,
            id,
            factory@.tablets[(id, suffix)],
        ),
        !factory@.tablets.contains_key((id, suffix)) ==> pending is Ok && {
            &&& pending->Ok_0.path == path
            &&& is_tablet_dir(pending->Ok_0.db_path@, factory@.root_path, id, suffix)
        },
{
    lemma_tablet_dir(factory@.root_path, id, suffix);
}

/// Once a directory has been renamed, it is looked at where it is now, and the
/// tablet that its old path stands for is to be closed. An error in renaming is
/// passed on.
pub proof fn law_renamed<X>(
    pending: PendingLoad,
    renamed: Result<(), X>,
    probe: Result<PendingProbe, X>,
    ids: (u64, u64),
)
    requires
        call_ensures(PendingLoad::renamed::<X>, (pending, renamed), probe),
        call_ensures(get_id_and_suffix_from_path, (&pending.path,), ids),
    ensures
        renamed matches Err(error) ==> probe == Err::<PendingProbe, X>(error),
        renamed is Ok ==> probe is Ok && {
            &&& probe->Ok_0.path == PathText::Exact(pending.db_path)
            &&& probe->Ok_0.purpose == (Purpose::Load { old_id: ids.0, old_suffix: ids.1 })
        },
{
}

/// The capacity of the cache is set as given, through the default column family
/// of a tablet that is open, unless there is none.
pub proof fn law_cache_capacity<K, R, H>(
    factory: &TestTabletFactory<K, R, H>,
    capacity: u64,
    change: Option<CacheCapacity<H>>,
    key: (u64, u64),
)
    requires
        call_ensures(
            TestTabletFactory::<K, R, H>::set_shared_block_cache_capacity,
            (factory, capacity),
            change,
        ),
    ensures
        factory@.tablets.contains_key(key) ==> change is Some,
        change matches Some(change) ==> {
            &&& change.capacity == capacity
            &&& change.cf@ == "default"@
            &&& exists|k: (u64, u64)|
                factory@.tablets.contains_key(k) && #[trigger] factory@.tablets[k] == change.tablet
        },
{
    if change is None {
        assert(!factory@.tablets.dom().contains(key));
    }
}

/// Every open tablet is visited, under its own key, and nothing is visited
/// twice.
pub proof fn law_for_each_opened_tablet<K, R, H>(
    factory: &TestTabletFactory<K, R, H>,
    tablets: Vec<(u64, u64, OpenTablet<H>)>,
    key: (u64, u64),
)
    requires
        call_ensures(
            TestTabletFactory::<K, R, H>::for_each_opened_tablet,
            (factory,),
            tablets,
        ),
    ensures
        factory@.tablets.contains_key(key) ==> exists|i: int|
            0 <= i < tablets@.len() && (#[trigger] tablets@[i]).0 == key.0 && tablets@[i].1
                == key.1,
        forall|i: int|
            0 <= i < tablets@.len() ==> factory@.tablets.contains_key(
                ((#[trigger] tablets@[i]).0, tablets@[i].1),
            ) && tablets@[i].2 == factory@.tablets[(tablets@[i].0, tablets@[i].1)],
        forall|i: int, j: int|
            0 <= i < j < tablets@.len() ==> ((#[trigger] tablets@[i]).0, tablets@[i].1) != (
                (#[trigger] tablets@[j]).0,
                tablets@[j].1,
            ),
{
    let keys = tablets@.map_values(|t: (u64, u64, OpenTablet<H>)| (t.0, t.1));
    if factory@.tablets.contains_key(key) {
        assert(keys.to_set().contains(key));
        let i = choose|i: int| 0 <= i < keys.len() && keys[i] == key;
        assert(tablets@[i].0 == key.0 && tablets@[i].1 == key.1);
    }
    assert forall|i: int| 0 <= i < tablets@.len() implies factory@.tablets.contains_key(
        ((#[trigger] tablets@[i]).0, tablets@[i].1),
    ) by {
        assert(keys[i] == (tablets@[i].0, tablets@[i].1));
        assert(keys.to_set().contains(keys[i]));
    }
    assert forall|i: int, j: int| 0 <= i < j < tablets@.len() implies (
        (#[trigger] tablets@[i]).0,
        tablets@[i].1,
    ) != ((#[trigger] tablets@[j]).0, tablets@[j].1) by {
        assert(keys[i] != keys[j]);
    }
}

/// A factory keeps a store for each tablet.
pub proof fn law_is_single_engine<K, R, H>(factory: &TestTabletFactory<K, R, H>, single: bool)
    requires
        call_ensures(TestTabletFactory::<K, R, H>::is_single_engine, (factory,), single),
    ensures
        !single,
{
}

/// What errors say, with the id as it is usually written.
pub proof fn law_messages(error: &TabletError, text: String, id_text: Seq<char>)
    requires
        call_ensures(TabletError::message, (error,), text),
        error matches TabletError::AlreadyExists { id, .. } ==> is_written(*id, id_text),
    ensures
        error matches TabletError::AlreadyExists { path, .. } ==> text@ == "region "@ + id_text
            + " "@ + path@ + " already exists"@,
        error matches TabletError::NoDb { path } ==> text@ == "path "@ + path@
            + " does not have db"@,
{
    if let TabletError::AlreadyExists { id, .. } = error {
        lemma_written_once(*id, id_text);
    }
}

/// Creating a tablet from beginning to end.
pub proof fn law_run_create<K, R, H, T: KvEngineConstructorExt<K, R>, X>(
    factory: &mut TestTabletFactory<K, R, H>,
    id: u64,
    suffix: u64,
    built: Result<OpenTablet<H>, X>,
    outcome: Outcome<H, X>,
)
    requires
        call_ensures(run_create::<T, K, R, H, X>, (factory, id, suffix, built), outcome),
    ensures
        ({
            let (before, after) = (old(factory)@, final(factory)@);
            if before.tablets.contains_key((id, suffix)) {
                &&& outcome is Refused
                &&& says_already_exists(outcome->Refused_0, id, before.tablets[(id, suffix)])
                &&& keeps_all(before, after)
            } else {
                match built {
                    Ok(tablet) => {
                        &&& outcome == Outcome::<H, X>::Opened(tablet)
                        &&& has_opened(before, after, (id, suffix), tablet, None)
                    },
                    Err(error) => {
                        &&& outcome == Outcome::<H, X>::Failed(error)
                        &&& keeps_all(before, after)
                    },
                }
            }
        }),
{
}

/// Opening a tablet by its path from beginning to end. A path without a store is
/// refused by its exact text and leaves the factory as it was, whatever else is
/// the case.
pub proof fn law_run_open_raw<K, R, H, T: KvEngineConstructorExt<K, R>, X>(
    factory: &mut TestTabletFactory<K, R, H>,
    path: PathText,
    exists: bool,
    built: Result<OpenTablet<H>, X>,
    outcome: Outcome<H, X>,
    ids: (u64, u64),
)
    requires
        call_ensures(run_open_raw::<T, K, R, H, X>, (factory, path, exists, built), outcome),
        call_ensures(get_id_and_suffix_from_path, (&path,), ids),
    ensures
        ({
            let (before, after) = (old(factory)@, final(factory)@);
            if !exists {
                &&& outcome is Refused
                &&& says_no_db(outcome->Refused_0, path)
                &&& keeps_all(before, after)
            } else if before.tablets.contains_key(ids) {
                &&& outcome is Refused
                &&& says_already_exists(outcome->Refused_0, ids.0, before.tablets[ids])
                &&& keeps_all(before, after)
            } else {
                match built {
                    Ok(tablet) => {
                        &&& outcome == Outcome::<H, X>::Opened(tablet)
                        &&& has_opened(before, after, ids, tablet, None)
                    },
                    Err(error) => {
                        &&& outcome == Outcome::<H, X>::Failed(error)
                        &&& keeps_all(before, after)
                    },
                }
            }
        }),
{
}

/// Opening a tablet from beginning to end.
pub proof fn law_run_open<K, R, H, X>(
    factory: &TestTabletFactory<K, R, H>,
    id: u64,
    suffix: u64,
    exists: bool,
    outcome: Outcome<H, X>,
)
    requires
        exists ==> factory@.tablets.contains_key((id, suffix)),
        call_ensures(run_open::<K, R, H, X>, (factory, id, suffix, exists), outcome),
    ensures
        if factory@.tablets.contains_key((id, suffix)) {
            outcome == Outcome::<H, X>::Opened(factory@.tablets[(id, suffix)])
        } else {
            &&& outcome is Refused
            &&& outcome->Refused_0 matches TabletError::NoDb { path }
            &&& is_tablet_dir(path@, factory@.root_path, id, suffix)
        },
{
    lemma_tablet_dir(factory@.root_path, id, suffix);
    assert(outcome is Refused ==> outcome->Refused_0 is NoDb);
}

/// Loading a tablet from beginning to end. If there is no store once the
/// directory has been renamed, the tablet is refused by its own directory, and
/// the factory is as it was.
pub proof fn law_run_load<K, R, H, T: KvEngineConstructorExt<K, R>, X>(
    factory: &mut TestTabletFactory<K, R, H>,
    path: PathText,
    id: u64,
    suffix: u64,
    renamed: Result<(), X>,
    exists: bool,
    built: Result<OpenTablet<H>, X>,
    outcome: Outcome<H, X>,
    ids: (u64, u64),
)
    requires
        call_ensures(
            run_load::<T, K, R, H, X>,
            (factory, path, id, suffix, renamed, exists, built),
            outcome,
        ),
        call_ensures(get_id_and_suffix_from_path, (&path,), ids),
    ensures
        ({
            let (before, after) = (old(factory)@, final(factory)@);
            if before.tablets.contains_key((id, suffix)) {
                &&& outcome is Refused
                &&& says_already_exists(outcome->Refused_0, id, before.tablets[(id, suffix)])
                &&& keeps_all(before, after)
            } else if renamed is Err {
                &&& outcome == Outcome::<H, X>::Failed(renamed->Err_0)
                &&& keeps_all(before, after)
            } else if !exists {
                &&& outcome is Refused
                &&& outcome->Refused_0 matches TabletError::NoDb { path: said }
                &&& is_tablet_dir(said@, before.root_path, id, suffix)
                &&& keeps_all(before, after)
            } else {
                match built {
                    Ok(tablet) => {
                        &&& outcome == Outcome::<H, X>::Opened(tablet)
                        &&& has_opened(before, after, (id, suffix), tablet, Some(ids))
                    },
                    Err(error) => {
                        &&& outcome == Outcome::<H, X>::Failed(error)
                        &&& keeps_all(before, after)
                    },
                }
            }
        }),
{
    let before = old(factory)@;
    lemma_tablet_dir(before.root_path, id, suffix);
    law_tablet_dir_read_back(before.root_path, id, suffix);
    assert(outcome is Refused && !before.tablets.contains_key((id, suffix))
        ==> outcome->Refused_0 is NoDb);
}

/// A new registry is empty.
pub proof fn law_new_registry<H>(registry: Registry<H>, key: (u64, u64))
    requires
        call_ensures(Registry::<H>::new, (), registry),
    ensures
        !registry@.contains_key(key),
{
}

/// A registry gives back what it holds under a key.
pub proof fn law_registry_get<H>(
    registry: &Registry<H>,
    id: u64,
    suffix: u64,
    tablet: Option<&OpenTablet<H>>,
)
    requires
        call_ensures(Registry::<H>::get, (registry, id, suffix), tablet),
    ensures
        tablet is Some <==> registry@.contains_key((id, suffix)),
        tablet is Some ==> *tablet->0 == registry@[(id, suffix)],
{
}

/// A registry holds a tablet under a key once it is put in, and no longer once
/// it is taken out. Other keys are untouched.
pub proof fn law_registry_changes<H>(
    registry: &mut Registry<H>,
    id: u64,
    suffix: u64,
    tablet: OpenTablet<H>,
    other: (u64, u64),
)
    requires
        other != (id, suffix),
    ensures
        call_ensures(Registry::<H>::insert, (registry, id, suffix, tablet), ()) ==> {
            &&& final(registry)@.contains_key((id, suffix))
            &&& final(registry)@[(id, suffix)] == tablet
            &&& final(registry)@.contains_key(other) <==> old(registry)@.contains_key(other)
            &&& old(registry)@.contains_key(other) ==> final(registry)@[other]
                == old(registry)@[other]
        },
        call_ensures(Registry::<H>::remove, (registry, id, suffix), ()) ==> {
            &&& !final(registry)@.contains_key((id, suffix))
            &&& final(registry)@.contains_key(other) <==> old(registry)@.contains_key(other)
            &&& old(registry)@.contains_key(other) ==> final(registry)@[other]
                == old(registry)@[other]
        },
{
}

/// The keys of a registry are those under which it holds something, each once.
pub proof fn law_registry_keys<H>(registry: &Registry<H>, keys: Vec<(u64, u64)>, key: (u64, u64))
    requires
        call_ensures(Registry::<H>::keys, (registry,), keys),
    ensures
        keys@.contains(key) <==> registry@.contains_key(key),
        forall|i: int, j: int| 0 <= i < j < keys@.len() ==> keys@[i] != keys@[j],
{
    assert(keys@.to_set().contains(key) <==> registry@.dom().contains(key));
}

/// A clone of an open tablet has the same path and shares the engine.
pub proof fn law_tablet_is_cloned<H>(tablet: &OpenTablet<H>, other: OpenTablet<H>)
    requires
        call_ensures(<OpenTablet<H> as Clone>::clone, (tablet,), other),
    ensures
        other.path@ == tablet.path@,
        other.engine == tablet.engine,
{
}

/// A factory takes every call, whatever is open, and so does the registry.
pub proof fn law_factory_takes_every_input<K, R, H, T: KvEngineConstructorExt<K, R>, X>(
    factory: &TestTabletFactory<K, R, H>,
    changed: &mut TestTabletFactory<K, R, H>,
    root_path: &str,
    db_opt: Option<DBOptions<K, R>>,
    cfs: &[&str],
    opts: Option<Vec<CFOptions>>,
    id: u64,
    suffix: u64,
    path: PathText,
    readonly: bool,
    exists: bool,
    pending: PendingTablet<T>,
    built: Result<OpenTablet<H>, X>,
    probe: PendingProbe,
    load: PendingLoad,
    open: PendingOpen,
    renamed: Result<(), X>,
    error: &TabletError,
    registry: &Registry<H>,
    changed_registry: &mut Registry<H>,
    tablet: OpenTablet<H>,
)
    ensures
        call_requires(TestTabletFactory::<K, R, H>::new, (root_path, db_opt, cfs, opts)),
        call_requires(TestTabletFactory::<K, R, H>::create_tablet::<T>, (factory, id, suffix)),
        call_requires(TestTabletFactory::<K, R, H>::create_shared_db::<T>, (factory,)),
        call_requires(
            TestTabletFactory::<K, R, H>::tablet_built::<T, X>,
            (changed, pending, built),
        ),
        call_requires(TestTabletFactory::<K, R, H>::open_tablet, (factory, id, suffix)),
        call_requires(TestTabletFactory::<K, R, H>::open_tablet_cache, (factory, id, suffix)),
        call_requires(TestTabletFactory::<K, R, H>::open_tablet_cache_any, (factory, id)),
        call_requires(TestTabletFactory::<K, R, H>::open_tablet_raw, (factory, path, readonly)),
        call_requires(
            TestTabletFactory::<K, R, H>::tablet_probed::<T>,
            (factory, probe, exists),
        ),
        call_requires(TestTabletFactory::<K, R, H>::tablets_path, (factory,)),
        call_requires(TestTabletFactory::<K, R, H>::tablet_path, (factory, id, suffix)),
        call_requires(TestTabletFactory::<K, R, H>::tombstone_path, (factory, id, suffix)),
        call_requires(TestTabletFactory::<K, R, H>::mark_tombstone, (changed, id, suffix)),
        call_requires(TestTabletFactory::<K, R, H>::destroy_tablet, (changed, id, suffix)),
        call_requires(TestTabletFactory::<K, R, H>::load_tablet, (factory, path, id, suffix)),
        call_requires(
            TestTabletFactory::<K, R, H>::set_shared_block_cache_capacity,
            (factory, id),
        ),
        call_requires(TestTabletFactory::<K, R, H>::for_each_opened_tablet, (factory,)),
        call_requires(TestTabletFactory::<K, R, H>::is_single_engine, (factory,)),
        call_requires(PendingProbe::probe_path, (&probe,)),
        call_requires(PendingLoad::renamed::<X>, (load, renamed)),
        call_requires(PendingOpen::absent, (open,)),
        call_requires(TabletError::message, (error,)),
        call_requires(run_create::<T, K, R, H, X>, (changed, id, suffix, built)),
        call_requires(run_open_raw::<T, K, R, H, X>, (changed, path, exists, built)),
        (exists ==> factory@.tablets.contains_key((id, suffix))) ==> call_requires(
            run_open::<K, R, H, X>,
            (factory, id, suffix, exists),
        ),
        call_requires(
            run_load::<T, K, R, H, X>,
            (changed, path, id, suffix, renamed, exists, built),
        ),
        call_requires(Registry::<H>::new, ()),
        call_requires(Registry::<H>::get, (registry, id, suffix)),
        call_requires(Registry::<H>::insert, (changed_registry, id, suffix, tablet)),
        call_requires(Registry::<H>::remove, (changed_registry, id, suffix)),
        call_requires(Registry::<H>::keys, (registry,)),
{
}

} // verus!
