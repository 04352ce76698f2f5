//! What holds of a tablet factory over whole operations and from one operation
//! to the next, and of the engines that are constructed.
//!
//! The submodules state what holds of single calls: what a function gives back
//! for every input, and how two calls relate. A call is spoken of by its
//! arguments and its result.

pub mod engines;
pub mod factory;
pub mod paths;

use vstd::prelude::*;

use crate::ctor::rocks::{standard_collectors, PropertiesCollector, RocksEngine};
use crate::ctor::{
    column_families, plain_cf, CFOptionsView, ColumnFamilyView, DBOptionsView,
    KvEngineConstructorExt,
};
use crate::kv::{FactoryView, Purpose, TabletErrorView};
use crate::path::{id_and_suffix, law_tablet_dir_read_back};
use crate::registry::OpenTablet;
use crate::run::{create_run, load_run, open_raw_run, open_run, OutcomeView};

verus! {

/// Whether two states of a factory differ in their open tablets alone.
pub open spec fn same_settings<K, R, H>(
    before: FactoryView<K, R, H>,
    after: FactoryView<K, R, H>,
) -> bool {
    after == (FactoryView { tablets: after.tablets, ..before })
}

/// Whether every open tablet goes by the path of its own directory.
pub open spec fn at_home<K, R, H>(factory: FactoryView<K, R, H>) -> bool {
    forall|id: u64, suffix: u64|
        #![trigger factory.tablets[(id, suffix)]]
        factory.tablets.contains_key((id, suffix)) ==> factory.tablets[(id, suffix)].path@
            == factory.home(id, suffix)
}

/// An operation that does not end with a tablet leaves the factory as it was.
pub proof fn law_failure_changes_nothing<K, R, H, X>(
    before: FactoryView<K, R, H>,
    id: u64,
    suffix: u64,
    strict: Seq<char>,
    lossy: Seq<char>,
    renamed: Result<(), X>,
    exists: bool,
    built: Result<OpenTablet<H>, X>,
)
    ensures
        ({
            let (after, outcome) = create_run(before, id, suffix, built);
            outcome is Opened || after == before
        }),
        ({
            let (after, outcome) = open_raw_run(before, strict, lossy, exists, built);
            outcome is Opened || after == before
        }),
        ({
            let (after, outcome) = load_run(before, lossy, id, suffix, renamed, exists, built);
            outcome is Opened || after == before
        }),
{
}

/// No operation changes the settings of the factory.
pub proof fn law_settings_are_kept<K, R, H, X>(
    before: FactoryView<K, R, H>,
    id: u64,
    suffix: u64,
    strict: Seq<char>,
    lossy: Seq<char>,
    renamed: Result<(), X>,
    exists: bool,
    built: Result<OpenTablet<H>, X>,
)
    ensures
        same_settings(before, create_run(before, id, suffix, built).0),
        same_settings(before, open_raw_run(before, strict, lossy, exists, built).0),
        same_settings(before, load_run(before, lossy, id, suffix, renamed, exists, built).0),
        same_settings(before, before.without(id, suffix)),
{
}

/// A tablet that has been created is open from then on, and no other tablet is
/// touched.
pub proof fn law_created_tablet_is_open<K, R, H, X>(
    before: FactoryView<K, R, H>,
    id: u64,
    suffix: u64,
    tablet: OpenTablet<H>,
)
    requires
        !before.tablets.contains_key((id, suffix)),
    ensures
        ({
            let (after, outcome) = create_run::<K, R, H, X>(before, id, suffix, Ok(tablet));
            &&& outcome == OutcomeView::<H, X>::Opened(tablet)
            &&& after.tablets == before.tablets.insert((id, suffix), tablet)
        }),
{
}

/// A tablet is created once: while it is open, creating it or loading another
/// one in its place is refused with the path that it goes by, whatever is on
/// disk.
pub proof fn law_open_tablet_is_not_created_again<K, R, H, X>(
    before: FactoryView<K, R, H>,
    id: u64,
    suffix: u64,
    lossy: Seq<char>,
    renamed: Result<(), X>,
    exists: bool,
    built: Result<OpenTablet<H>, X>,
)
    requires
        before.tablets.contains_key((id, suffix)),
    ensures
        ({
            let refused = (
                before,
                OutcomeView::<H, X>::Refused(
                    TabletErrorView::AlreadyExists {
                        id,
                        path: before.tablets[(id, suffix)].path@,
                    },
                ),
            );
            &&& create_run(before, id, suffix, built) == refused
            &&& load_run(before, lossy, id, suffix, renamed, exists, built) == refused
        }),
{
}

/// Opening an open tablet gives the tablet that is open. One that is not open
/// and has no store is refused with the path of its directory.
pub proof fn law_open_gives_what_is_open<K, R, H, X>(
    factory: FactoryView<K, R, H>,
    id: u64,
    suffix: u64,
)
    ensures
        factory.tablets.contains_key((id, suffix)) ==> open_run::<K, R, H, X>(factory, id, suffix)
            == OutcomeView::<H, X>::Opened(factory.tablets[(id, suffix)]),
        !factory.tablets.contains_key((id, suffix)) ==> open_run::<K, R, H, X>(factory, id, suffix)
            == OutcomeView::<H, X>::Refused(
            TabletErrorView::NoDb { path: factory.home(id, suffix) },
        ),
{
}

/// A tablet that is not open and is opened by the path of its own directory is
/// then open under its own id and suffix and no other, and opening it by these
/// gives the same tablet.
pub proof fn law_tablet_opened_at_home_is_itself<K, R, H, X>(
    before: FactoryView<K, R, H>,
    id: u64,
    suffix: u64,
    tablet: OpenTablet<H>,
)
    requires
        !before.tablets.contains_key((id, suffix)),
    ensures
        ({
            let home = before.home(id, suffix);
            let (after, outcome) = open_raw_run::<K, R, H, X>(before, home, home, true, Ok(tablet));
            &&& outcome == OutcomeView::<H, X>::Opened(tablet)
            &&& after.tablets == before.tablets.insert((id, suffix), tablet)
            &&& open_run::<K, R, H, X>(after, id, suffix) == outcome
        }),
{
    law_tablet_dir_read_back(before.root_path, id, suffix);
}

/// A tablet that has been loaded is open under its new id and suffix, and the
/// one that its old path stands for is not open any more. No other tablet is
/// touched.
pub proof fn law_loaded_tablet_moves<K, R, H, X>(
    before: FactoryView<K, R, H>,
    lossy: Seq<char>,
    id: u64,
    suffix: u64,
    tablet: OpenTablet<H>,
)
    requires
        !before.tablets.contains_key((id, suffix)),
        id_and_suffix(lossy) != (id, suffix),
    ensures
        ({
            let (after, outcome) = load_run::<K, R, H, X>(
                before,
                lossy,
                id,
                suffix,
                Ok(()),
                true,
                Ok(tablet),
            );
            &&& outcome == OutcomeView::<H, X>::Opened(tablet)
            &&& after.tablets.contains_key((id, suffix))
            &&& after.tablets[(id, suffix)] == tablet
            &&& !after.tablets.contains_key(id_and_suffix(lossy))
            &&& after.tablets == before.tablets.insert((id, suffix), tablet).remove(
                id_and_suffix(lossy),
            )
        }),
{
    law_tablet_dir_read_back(before.root_path, id, suffix);
}

/// A tablet that is loaded from a path which stands for its new id and suffix is
/// handed out and not kept open.
pub proof fn law_tablet_loaded_onto_itself_is_not_kept<K, R, H, X>(
    before: FactoryView<K, R, H>,
    lossy: Seq<char>,
    id: u64,
    suffix: u64,
    tablet: OpenTablet<H>,
)
    requires
        !before.tablets.contains_key((id, suffix)),
        id_and_suffix(lossy) == (id, suffix),
    ensures
        load_run::<K, R, H, X>(before, lossy, id, suffix, Ok(()), true, Ok(tablet)) == (
            before,
            OutcomeView::<H, X>::Opened(tablet),
        ),
{
    law_tablet_dir_read_back(before.root_path, id, suffix);
    assert(before.tablets.insert((id, suffix), tablet).remove((id, suffix)) =~= before.tablets);
}

/// A tablet that is opened by its path is open under the id and the suffix that
/// the path stands for.
pub proof fn law_raw_tablet_is_registered_by_its_path<K, R, H, X>(
    before: FactoryView<K, R, H>,
    strict: Seq<char>,
    lossy: Seq<char>,
    tablet: OpenTablet<H>,
)
    requires
        !before.tablets.contains_key(id_and_suffix(lossy)),
    ensures
        open_raw_run::<K, R, H, X>(before, strict, lossy, true, Ok(tablet)) == (
            FactoryView {
                tablets: before.tablets.insert(id_and_suffix(lossy), tablet),
                ..before
            },
            OutcomeView::<H, X>::Opened(tablet),
        ),
{
}

/// A tablet that has been destroyed or marked is not open, can be created again,
/// and nothing else has changed. Done right after creating it, this undoes the
/// creation.
pub proof fn law_forgotten_tablet_is_closed<K, R, H>(
    before: FactoryView<K, R, H>,
    id: u64,
    suffix: u64,
    tablet: OpenTablet<H>,
)
    ensures
        !before.without(id, suffix).tablets.contains_key((id, suffix)),
        before.without(id, suffix).refusal(id, suffix) is None,
        forall|key: (u64, u64)|
            key != (id, suffix) ==> {
                &&& #[trigger] before.without(id, suffix).tablets.contains_key(key)
                    == before.tablets.contains_key(key)
                &&& before.without(id, suffix).tablets[key] == before.tablets[key]
            },
        !before.tablets.contains_key((id, suffix)) ==> before.settled(
            id,
            suffix,
            Purpose::Create,
            tablet,
        ).without(id, suffix) == before,
{
    if !before.tablets.contains_key((id, suffix)) {
        assert(before.tablets.insert((id, suffix), tablet).remove((id, suffix)) =~= before.tablets);
    }
}

/// If engines go by the path that they were built for, every open tablet goes by
/// the path of its own directory: a factory without tablets is so, and every
/// operation keeps it so.
pub proof fn law_tablets_stay_at_home<K, R, H, X>(
    before: FactoryView<K, R, H>,
    id: u64,
    suffix: u64,
    strict: Seq<char>,
    lossy: Seq<char>,
    renamed: Result<(), X>,
    exists: bool,
    built: Result<OpenTablet<H>, X>,
)
    ensures
        before.tablets == Map::<(u64, u64), OpenTablet<H>>::empty() ==> at_home(before),
        at_home(before) && (built matches Ok(tablet) ==> tablet.path@ == before.home(id, suffix))
            ==> {
            &&& at_home(create_run(before, id, suffix, built).0)
            &&& at_home(load_run(before, lossy, id, suffix, renamed, exists, built).0)
        },
        at_home(before) && (built matches Ok(tablet) ==> tablet.path@ == before.home(
            id_and_suffix(lossy).0,
            id_and_suffix(lossy).1,
        )) ==> at_home(open_raw_run(before, strict, lossy, exists, built).0),
        at_home(before) ==> at_home(before.without(id, suffix)),
{
    law_tablet_dir_read_back(before.root_path, id, suffix);
}

/// Where every open tablet goes by the path of its own directory, refusing a
/// tablet that is open names that directory.
pub proof fn law_refusal_names_home<K, R, H>(factory: FactoryView<K, R, H>, id: u64, suffix: u64)
    requires
        at_home(factory),
    ensures
        factory.refusal(id, suffix) matches Some(error) ==> error
            == (TabletErrorView::AlreadyExists { id, path: factory.home(id, suffix) }),
{
}

/// A change to what is open: a tablet is registered, or one is forgotten.
pub enum Change<H> {
    Settle { id: u64, suffix: u64, purpose: Purpose, tablet: OpenTablet<H> },
    Forget { id: u64, suffix: u64 },
}

impl<H> Change<H> {
    /// The factory after the change.
    pub open spec fn applied<K, R>(self, before: FactoryView<K, R, H>) -> FactoryView<K, R, H> {
        match self {
            Change::Settle { id, suffix, purpose, tablet } => before.settled(
                id,
                suffix,
                purpose,
                tablet,
            ),
            Change::Forget { id, suffix } => before.without(id, suffix),
        }
    }

    /// Whether the change removes what is registered under a key: by forgetting
    /// it, or by loading a tablet from a path that stands for the key.
    pub open spec fn removes(self, key: (u64, u64)) -> bool {
        match self {
            Change::Settle { purpose: Purpose::Load { old_id, old_suffix }, .. } => key == (
                old_id,
                old_suffix,
            ),
            Change::Settle { .. } => false,
            Change::Forget { id, suffix } => key == (id, suffix),
        }
    }

    /// The tablet that the change registers under a key and does not remove
    /// again, if any.
    pub open spec fn registers(self, key: (u64, u64)) -> Option<OpenTablet<H>> {
        match self {
            Change::Settle { id, suffix, tablet, .. } => if key == (id, suffix) && !self.removes(
                key,
            ) {
                Some(tablet)
            } else {
                None
            },
            Change::Forget { .. } => None,
        }
    }
}

/// Whether a factory went through `states`, from one without open tablets, by
/// one of `changes` after the other.
pub open spec fn is_history<K, R, H>(
    states: Seq<FactoryView<K, R, H>>,
    changes: Seq<Change<H>>,
) -> bool {
    &&& states.len() == changes.len() + 1
    &&& states[0].tablets == Map::<(u64, u64), OpenTablet<H>>::empty()
    &&& forall|i: int|
        0 <= i < changes.len() ==> states[i + 1] == (#[trigger] changes[i]).applied(states[i])
}

/// Whether the change at `i` registers a tablet under a key, and no later one
/// registers another under it or removes it.
pub open spec fn registered_last<H>(changes: Seq<Change<H>>, i: int, key: (u64, u64)) -> bool {
    &&& 0 <= i < changes.len()
    &&& changes[i].registers(key) is Some
    &&& forall|j: int|
        i < j < changes.len() ==> (#[trigger] changes[j]).registers(key) is None
            && !changes[j].removes(key)
}

/// At any time a tablet is open under a key exactly if one was registered under
/// it and not removed since, and then it is the one that was registered last. So
/// all that share one factory see what any of them has registered. The settings
/// are those at the beginning.
pub proof fn law_open_iff_registered_and_not_removed_since<K, R, H>(
    states: Seq<FactoryView<K, R, H>>,
    changes: Seq<Change<H>>,
    key: (u64, u64),
)
    requires
        is_history(states, changes),
    ensures
        states.last().tablets.contains_key(key) <==> exists|i: int|
            registered_last(changes, i, key),
        forall|i: int| #[trigger]
            registered_last(changes, i, key) ==> changes[i].registers(key) == Some(
                states.last().tablets[key],
            ),
        same_settings(states[0], states.last()),
    decreases changes.len(),
{
    if changes.len() > 0 {
        let earlier_states = states.drop_last();
        let earlier = changes.drop_last();
        let last = changes.len() - 1;
        let change = changes[last];
        let before = earlier_states.last();
        let after = states.last();
        assert forall|i: int| 0 <= i < earlier.len() implies earlier_states[i + 1]
            == (#[trigger] earlier[i]).applied(earlier_states[i]) by {
            assert(earlier[i] == changes[i]);
        }
        law_open_iff_registered_and_not_removed_since(earlier_states, earlier, key);
        assert(after == change.applied(before));
        assert forall|i: int| i < last implies #[trigger] registered_last(changes, i, key) == (
        registered_last(earlier, i, key) && change.registers(key) is None && !change.removes(
            key,
        )) by {
            if registered_last(changes, i, key) {
                assert(changes[last] == change);
                assert forall|j: int| i < j < earlier.len() implies (
                #[trigger] earlier[j]).registers(key) is None && !earlier[j].removes(key) by {
                    assert(earlier[j] == changes[j]);
                }
                assert(earlier[i] == changes[i]);
            }
            if registered_last(earlier, i, key) && change.registers(key) is None
                && !change.removes(key) {
                assert forall|j: int| i < j < changes.len() implies (
                #[trigger] changes[j]).registers(key) is None && !changes[j].removes(key) by {
                    if j < last {
                        assert(earlier[j] == changes[j]);
                    }
                }
                assert(earlier[i] == changes[i]);
            }
        }
        if change.registers(key) is Some {
            assert(registered_last(changes, last, key));
        } else if !change.removes(key) {
            assert(after.tablets.contains_key(key) == before.tablets.contains_key(key));
            if before.tablets.contains_key(key) {
                let i = choose|i: int| registered_last(earlier, i, key);
                assert(registered_last(changes, i, key));
            }
        }
        assert forall|i: int| #[trigger] registered_last(changes, i, key) implies changes[i].registers(
            key,
        ) == Some(after.tablets[key]) by {
            if i < last {
                assert(registered_last(earlier, i, key));
                assert(earlier[i] == changes[i]);
            }
        }
    }
}

/// Where none is turned off, a RocksDB column family gets all standard
/// collectors.
pub proof fn law_all_collectors_unless_turned_off(options: ColumnFamilyView)
    requires
        !options.no_range_properties,
        !options.no_table_properties,
    ensures
        standard_collectors(options) == seq![
            PropertiesCollector::Range,
            PropertiesCollector::Mvcc,
        ],
{
    assert(standard_collectors(options) =~= seq![
        PropertiesCollector::Range,
        PropertiesCollector::Mvcc,
    ]);
}

/// A RocksDB engine that is constructed from names of column families has
/// exactly these, in that order, each with all standard collectors and nothing
/// else set.
pub proof fn law_named_cfs_are_plain<K, R>(
    engine: RocksEngine<K, R>,
    path: Seq<char>,
    db_opt: Option<DBOptionsView<K, R>>,
    cfs: Seq<Seq<char>>,
)
    requires
        engine.is_kv_engine(path, db_opt, column_families(cfs, None)),
    ensures
        engine.cfs_opts@.len() == cfs.len(),
        forall|i: int|
            #![trigger engine.cfs_opts@[i]]
            0 <= i < cfs.len() ==> {
                &&& engine.cfs_opts@[i].cf@ == cfs[i]
                &&& engine.cfs_opts@[i].options.collectors@ == seq![
                    PropertiesCollector::Range,
                    PropertiesCollector::Mvcc,
                ]
                &&& engine.cfs_opts@[i].options.level_zero_file_num_compaction_trigger is None
                &&& engine.cfs_opts@[i].options.level_zero_slowdown_writes_trigger is None
                &&& engine.cfs_opts@[i].options.disable_auto_compactions is None
            },
{
    let view = engine.cfs_opts.deep_view();
    assert(view.len() == cfs.len());
    law_all_collectors_unless_turned_off(ColumnFamilyView::unset());
    assert forall|i: int|
        #![trigger engine.cfs_opts@[i]]
        0 <= i < cfs.len() implies engine.cfs_opts@[i]@ == crate::ctor::rocks::rocks_cf(
        plain_cf(cfs[i]),
    ) by {
        assert(view[i] == engine.cfs_opts@[i]@);
    }
}

/// For every kind of engine, where column families are given with options, the
/// engine is the one for these, whatever names are given beside them.
pub proof fn law_engine_ignores_cfs_beside_opts<K, R, T: KvEngineConstructorExt<K, R>>(
    engine: T,
    path: Seq<char>,
    db_opt: Option<DBOptionsView<K, R>>,
    cfs: Seq<Seq<char>>,
    other_cfs: Seq<Seq<char>>,
    opts: Seq<CFOptionsView>,
)
    requires
        engine.is_kv_engine(path, db_opt, column_families(cfs, Some(opts))),
    ensures
        engine.is_kv_engine(path, db_opt, opts),
        engine.is_kv_engine(path, db_opt, column_families(other_cfs, Some(opts))),
{
}

} // verus!
