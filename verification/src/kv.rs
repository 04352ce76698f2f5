//! Constructors for the "kv" engine, and the factory that keeps tablets.
//!
//! A tablet is a store of its own for one region of the data, known by the id
//! of the region and by a suffix. The factory decides what is done about a
//! tablet; what touches the disk is done by whoever runs the factory. So an
//! operation that has to touch the disk comes in steps. A step says what is to
//! be done next, as a pending value, and the next step takes that value
//! together with how it went:
//!
//! - `create_tablet`, then building the engine, then `tablet_built`.
//! - `open_tablet_raw`, then looking whether there is a store, then
//!   `tablet_probed`, and on as with `create_tablet`.
//! - `open_tablet`, and if the tablet is not open, looking whether there is a
//!   store, and `PendingOpen::absent` if there is none.
//! - `load_tablet`, then renaming a directory, then `PendingLoad::renamed`, and
//!   on as with `open_tablet_raw`.

use vstd::prelude::*;

use crate::ctor::{
    column_families, CFOptions, CFOptionsView, DBOptions, DBOptionsView, KvEngineConstructorExt,
    CF_DEFAULT,
};
use crate::decimal::{decimal, u64_to_string};
use crate::path::{
    get_id_and_suffix_from_path, id_and_suffix, tablet_dir, tablet_path, tablets_dir, tablets_path,
    tombstone_file, tombstone_path, PathText,
};
use crate::registry::{OpenTablet, Registry};

verus! {

/// Constructs a kv engine of the kind `T` in the directory `path`.
pub fn new_engine<K, R, T: KvEngineConstructorExt<K, R>>(
    path: &str,
    db_opt: Option<DBOptions<K, R>>,
    cfs: &[&str],
    opts: Option<Vec<CFOptions>>,
) -> (engine: T)
    ensures
        engine.is_kv_engine(
            path@,
            db_opt.deep_view(),
            column_families(cfs.deep_view(), opts.deep_view()),
        ),
{
    T::new_kv_engine(path, db_opt, cfs, opts)
}

/// Constructs a kv engine of the kind `T` in the directory `path`, with the
/// given column families.
pub fn new_engine_opt<K, R, T: KvEngineConstructorExt<K, R>>(
    path: &str,
    db_opt: DBOptions<K, R>,
    cfs_opts: Vec<CFOptions>,
) -> (engine: T)
    ensures
        engine.is_kv_engine(path@, Some(db_opt@), cfs_opts.deep_view()),
{
    T::new_kv_engine_opt(path, db_opt, cfs_opts)
}

/// Why the factory refuses an operation.
pub enum TabletError {
    /// A tablet with the id and the suffix is open already, at `path`.
    AlreadyExists { id: u64, path: String },
    /// There is no store at `path`.
    NoDb { path: String },
}

/// What a `TabletError` says.
pub enum TabletErrorView {
    AlreadyExists { id: u64, path: Seq<char> },
    NoDb { path: Seq<char> },
}

impl TabletErrorView {
    /// The error in words.
    pub open spec fn message(self) -> Seq<char> {
        match self {
            TabletErrorView::AlreadyExists { id, path } => "region "@ + decimal(id as nat) + " "@
                + path + " already exists"@,
            TabletErrorView::NoDb { path } => "path "@ + path + " does not have db"@,
        }
    }
}

impl View for TabletError {
    type V = TabletErrorView;

    open spec fn view(&self) -> TabletErrorView {
        match *self {
            TabletError::AlreadyExists { id, path } => TabletErrorView::AlreadyExists {
                id,
                path: path@,
            },
            TabletError::NoDb { path } => TabletErrorView::NoDb { path: path@ },
        }
    }
}

impl TabletError {
    /// The error in words.
    pub fn message(&self) -> (text: String)
        ensures
            text@ == self@.message(),
    {
        match self {
            TabletError::AlreadyExists { id, path } => {
                let mut text = "region ".to_owned();
                text.append(u64_to_string(*id).as_str());
                text.append(" ");
                text.append(path.as_str());
                text.append(" already exists");
                text
            },
            TabletError::NoDb { path } => {
                let mut text = "path ".to_owned();
                text.append(path.as_str());
                text.append(" does not have db");
                text
            },
        }
    }
}

/// What a tablet is built for.
#[derive(Clone, Copy, Debug, PartialEq, Eq)]
pub enum Purpose {
    /// To be created, or to be opened by its path.
    Create,
    /// To be moved here from where it had another id and suffix.
    Load { old_id: u64, old_suffix: u64 },
}

/// A tablet whose engine, of the kind `T`, is to be built.
pub struct PendingTablet<T> {
    pub engine: T,
    pub id: u64,
    pub suffix: u64,
    pub purpose: Purpose,
}

/// A path to be looked at: is there a store?
pub struct PendingProbe {
    pub path: PathText,
    pub purpose: Purpose,
}

impl PendingProbe {
    /// The path to ask the storage library about. A path that is not valid
    /// UTF-8 is asked about as the empty path.
    pub fn probe_path(&self) -> (path: String)
        ensures
            path@ == self.path.strict(),
    {
        self.path.to_str_or_default()
    }
}

/// A directory to be renamed from `path` to `db_path`, and to be opened there.
pub struct PendingLoad {
    pub path: PathText,
    pub db_path: String,
}

impl PendingLoad {
    /// Goes on once the directory has been renamed, or has not: what is there
    /// now is to be opened, and the tablet that `path` stands for is to be
    /// forgotten then.
    pub fn renamed<X>(self, renamed: Result<(), X>) -> (probe: Result<PendingProbe, X>)
        ensures
            match renamed {
                Ok(_) => {
                    &&& probe matches Ok(probe)
                    &&& probe.path == PathText::Exact(self.db_path)
                    &&& probe.purpose == (Purpose::Load {
                        old_id: id_and_suffix(self.path.lossy()).0,
                        old_suffix: id_and_suffix(self.path.lossy()).1,
                    })
                },
                Err(error) => probe == Err::<PendingProbe, X>(error),
            },
    {
        match renamed {
            Ok(()) => {
                let (old_id, old_suffix) = get_id_and_suffix_from_path(&self.path);
                Ok(
                    PendingProbe {
                        path: PathText::Exact(self.db_path),
                        purpose: Purpose::Load { old_id, old_suffix },
                    },
                )
            },
            Err(error) => Err(error),
        }
    }
}

/// A tablet that is not open, to be looked for on disk at `path`.
///
/// Opening a tablet holds the registry from beginning to end, and so does
/// creating one. So opening goes on from here only where there is no store. One
/// that is there is opened by its path, with `open_tablet_raw`.
pub struct PendingOpen {
    pub path: String,
}

impl PendingOpen {
    /// Ends opening where there is no store.
    pub fn absent(self) -> (error: TabletError)
        ensures
            error@ == (TabletErrorView::NoDb { path: self.path@ }),
    {
        TabletError::NoDb { path: self.path }
    }
}

/// What opening a tablet comes to.
pub enum OpenStep<H> {
    /// The tablet is open already.
    Opened(OpenTablet<H>),
    /// The tablet is to be looked for on disk.
    Probe(PendingOpen),
}

/// A cache capacity to be set through the options of a column family of a
/// tablet.
pub struct CacheCapacity<H> {
    pub tablet: OpenTablet<H>,
    pub cf: &'static str,
    pub capacity: u64,
}

/// A factory that keeps the tablets under one directory, with engine handles of
/// type `H`.
pub struct TestTabletFactory<K, R, H> {
    root_path: String,
    db_opt: Option<DBOptions<K, R>>,
    cfs: Vec<String>,
    opts: Option<Vec<CFOptions>>,
    registry: Registry<H>,
}

/// What a `TestTabletFactory` holds.
#[verifier::ext_equal]
pub struct FactoryView<K, R, H> {
    pub root_path: Seq<char>,
    pub db_opt: Option<DBOptionsView<K, R>>,
    pub cfs: Seq<Seq<char>>,
    pub opts: Option<Seq<CFOptionsView>>,
    /// The tablets that are open, by id and suffix.
    pub tablets: Map<(u64, u64), OpenTablet<H>>,
}

impl<K, R, H> FactoryView<K, R, H> {
    /// The directory of a tablet.
    pub open spec fn home(self, id: u64, suffix: u64) -> Seq<char> {
        tablet_dir(self.root_path, id, suffix)
    }

    /// Whether an engine is the one that a tablet of this factory gets: in the
    /// directory of the tablet, with the options of the factory.
    pub open spec fn suits<T: KvEngineConstructorExt<K, R>>(
        self,
        engine: T,
        id: u64,
        suffix: u64,
    ) -> bool {
        engine.is_kv_engine(
            self.home(id, suffix),
            self.db_opt,
            column_families(self.cfs, self.opts),
        )
    }

    /// Why a tablet cannot be created, if it cannot: it is open already.
    pub open spec fn refusal(self, id: u64, suffix: u64) -> Option<TabletErrorView> {
        if self.tablets.contains_key((id, suffix)) {
            Some(TabletErrorView::AlreadyExists { id, path: self.tablets[(id, suffix)].path@ })
        } else {
            None
        }
    }

    /// Whether no tablet with an id is open, whatever its suffix.
    pub open spec fn has_none_with(self, id: u64) -> bool {
        forall|suffix: u64| !self.tablets.contains_key((id, suffix))
    }

    /// The id and the suffix that the store at a path is opened under, or why it
    /// cannot be opened: there is none, or its tablet is open already. The path
    /// is given by its exact text, empty where it has none, and by its text with
    /// replacements.
    pub open spec fn probed(self, strict: Seq<char>, lossy: Seq<char>, exists: bool) -> Result<
        (u64, u64),
        TabletErrorView,
    > {
        let key = id_and_suffix(lossy);
        if !exists {
            Err(TabletErrorView::NoDb { path: strict })
        } else {
            match self.refusal(key.0, key.1) {
                Some(error) => Err(error),
                None => Ok(key),
            }
        }
    }

    /// The factory with a tablet registered whose engine has been built. One
    /// that was loaded takes the place of the one that it was before.
    pub open spec fn settled(
        self,
        id: u64,
        suffix: u64,
        purpose: Purpose,
        tablet: OpenTablet<H>,
    ) -> Self {
        let tablets = self.tablets.insert((id, suffix), tablet);
        FactoryView {
            tablets: match purpose {
                Purpose::Create => tablets,
                Purpose::Load { old_id, old_suffix } => tablets.remove((old_id, old_suffix)),
            },
            ..self
        }
    }

    /// The factory with a tablet forgotten.
    pub open spec fn without(self, id: u64, suffix: u64) -> Self {
        FactoryView { tablets: self.tablets.remove((id, suffix)), ..self }
    }
}

impl<K, R, H> View for TestTabletFactory<K, R, H> {
    type V = FactoryView<K, R, H>;

    closed spec fn view(&self) -> FactoryView<K, R, H> {
        FactoryView {
            root_path: self.root_path@,
            db_opt: self.db_opt.deep_view(),
            cfs: self.cfs.deep_view(),
            opts: self.opts.deep_view(),
            tablets: self.registry@,
        }
    }
}

/// Copies of the names of column families.
fn own_names(cfs: &[&str]) -> (names: Vec<String>)
    ensures
        names.deep_view() == cfs.deep_view(),
{
    let mut names: Vec<String> = Vec::new();
    let mut i: usize = 0;
    while i < cfs.len()
        invariant
            i <= cfs@.len(),
            names@.len() == i,
            forall|j: int| 0 <= j < i ==> (#[trigger] names@[j])@ == cfs@[j]@,
        decreases cfs.len() - i,
    {
        names.push(cfs[i].to_owned());
        i = i + 1;
    }
    assert(names.deep_view() =~= cfs.deep_view());
    names
}

/// Names of column families, borrowed.
fn borrow_names(cfs: &Vec<String>) -> (names: Vec<&str>)
    ensures
        names.deep_view() == cfs.deep_view(),
{
    let mut names: Vec<&str> = Vec::new();
    let mut i: usize = 0;
    while i < cfs.len()
        invariant
            i <= cfs@.len(),
            names@.len() == i,
            forall|j: int| 0 <= j < i ==> (#[trigger] names@[j])@ == cfs@[j]@,
        decreases cfs.len() - i,
    {
        names.push(cfs[i].as_str());
        i = i + 1;
    }
    assert(names.deep_view() =~= cfs.deep_view());
    names
}

/// A copy of options of column families.
fn copy_opts(opts: &Option<Vec<CFOptions>>) -> (copy: Option<Vec<CFOptions>>)
    ensures
        copy.deep_view() == opts.deep_view(),
{
    match opts {
        None => None,
        Some(opts) => {
            let mut copy: Vec<CFOptions> = Vec::new();
            let mut i: usize = 0;
            while i < opts.len()
                invariant
                    i <= opts@.len(),
                    copy@.len() == i,
                    forall|j: int| 0 <= j < i ==> #[trigger] copy@[j] == opts@[j],
                decreases opts.len() - i,
            {
                copy.push(opts[i].clone());
                i = i + 1;
            }
            assert(copy.deep_view() =~= opts.deep_view());
            Some(copy)
        },
    }
}

/// A copy of options of a store.
fn copy_db_opt<K, R>(db_opt: &Option<DBOptions<K, R>>) -> (copy: Option<DBOptions<K, R>>)
    ensures
        copy == *db_opt,
{
    match db_opt {
        Some(db_opt) => Some(db_opt.clone()),
        None => None,
    }
}

impl<K, R, H> TestTabletFactory<K, R, H> {
    /// A factory without open tablets.
    pub fn new(
        root_path: &str,
        db_opt: Option<DBOptions<K, R>>,
        cfs: &[&str],
        opts: Option<Vec<CFOptions>>,
    ) -> (factory: Self)
        ensures
            factory@ == (FactoryView::<K, R, H> {
                root_path: root_path@,
                db_opt: db_opt.deep_view(),
                cfs: cfs.deep_view(),
                opts: opts.deep_view(),
                tablets: Map::empty(),
            }),
    {
        TestTabletFactory {
            root_path: root_path.to_owned(),
            db_opt,
            cfs: own_names(cfs),
            opts,
            registry: Registry::new(),
        }
    }

    /// Begins to create a tablet: its engine is to be built, unless the tablet
    /// is open already.
    pub fn create_tablet<T: KvEngineConstructorExt<K, R>>(&self, id: u64, suffix: u64) -> (pending:
        Result<PendingTablet<T>, TabletError>)
        ensures
            match self@.refusal(id, suffix) {
                Some(error) => pending matches Err(e) && e@ == error,
                None => {
                    &&& pending matches Ok(pending)
                    &&& pending.id == id
                    &&& pending.suffix == suffix
                    &&& pending.purpose == Purpose::Create
                    &&& self@.suits(pending.engine, id, suffix)
                },
            },
    {
        if let Some(tablet) = self.registry.get(id, suffix) {
            return Err(TabletError::AlreadyExists { id, path: tablet.path.clone() });
        }
        let path = self.tablet_path(id, suffix);
        let cfs = borrow_names(&self.cfs);
        let engine = T::new_kv_engine(
            path.as_str(),
            copy_db_opt(&self.db_opt),
            cfs.as_slice(),
            copy_opts(&self.opts),
        );
        Ok(PendingTablet { engine, id, suffix, purpose: Purpose::Create })
    }

    /// Ends what a pending tablet was for, with the tablet that has been built,
    /// or with the error that there was in building it.
    pub fn tablet_built<T, X>(
        &mut self,
        pending: PendingTablet<T>,
        built: Result<OpenTablet<H>, X>,
    ) -> (tablet: Result<OpenTablet<H>, X>)
        ensures
            tablet == built,
            final(self)@ == match built {
                Ok(tablet) => old(self)@.settled(
                    pending.id,
                    pending.suffix,
                    pending.purpose,
                    tablet,
                ),
                Err(_) => old(self)@,
            },
    {
        match built {
            Ok(tablet) => {
                self.registry.insert(pending.id, pending.suffix, tablet.clone());
                match pending.purpose {
                    Purpose::Create => {},
                    Purpose::Load { old_id, old_suffix } => {
                        self.registry.remove(old_id, old_suffix);
                    },
                }
                Ok(tablet)
            },
            Err(error) => Err(error),
        }
    }

    /// Gives a tablet that is open already, or begins to look for it on disk.
    pub fn open_tablet(&self, id: u64, suffix: u64) -> (step: OpenStep<H>)
        ensures
            if self@.tablets.contains_key((id, suffix)) {
                step == OpenStep::Opened(self@.tablets[(id, suffix)])
            } else {
                &&& step matches OpenStep::Probe(probe)
                &&& probe.path@ == self@.home(id, suffix)
            },
    {
        if let Some(tablet) = self.registry.get(id, suffix) {
            return OpenStep::Opened(tablet.clone());
        }
        let db_path = self.tablet_path(id, suffix);
        OpenStep::Probe(PendingOpen { path: db_path })
    }

    /// The tablet with an id and a suffix, if it is open.
    pub fn open_tablet_cache(&self, id: u64, suffix: u64) -> (tablet: Option<OpenTablet<H>>)
        ensures
            tablet == if self@.tablets.contains_key((id, suffix)) {
                Some(self@.tablets[(id, suffix)])
            } else {
                None
            },
    {
        if let Some(tablet) = self.registry.get(id, suffix) {
            return Some(tablet.clone());
        }
        None
    }

    /// Any one of the open tablets with an id.
    pub fn open_tablet_cache_any(&self, id: u64) -> (tablet: Option<OpenTablet<H>>)
        ensures
            match tablet {
                Some(tablet) => exists|suffix: u64|
                    #![trigger self@.tablets[(id, suffix)]]
                    self@.tablets.contains_key((id, suffix)) && tablet == self@.tablets[(
                        id,
                        suffix,
                    )],
                None => self@.has_none_with(id),
            },
    {
        let keys = self.registry.keys();
        let mut i: usize = 0;
        while i < keys.len()
            invariant
                i <= keys@.len(),
                keys@.to_set() == self@.tablets.dom(),
                forall|j: int| 0 <= j < i ==> (#[trigger] keys@[j]).0 != id,
            decreases keys.len() - i,
        {
            let (tablet_id, suffix) = keys[i];
            if tablet_id == id {
                assert(keys@.to_set().contains(keys@[i as int]));
                return self.open_tablet_cache(tablet_id, suffix);
            }
            i = i + 1;
        }
        assert forall|suffix: u64| !self@.tablets.contains_key((id, suffix)) by {
            if self@.tablets.contains_key((id, suffix)) {
                assert(keys@.to_set().contains((id, suffix)));
                assert(keys@.contains((id, suffix)));
            }
        }
        None
    }

    /// Begins to open the tablet at a path, under the id and the suffix that the
    /// path stands for.
    pub fn open_tablet_raw(&self, path: PathText, _readonly: bool) -> (probe: PendingProbe)
        ensures
            probe.path == path,
            probe.purpose == Purpose::Create,
    {
        PendingProbe { path, purpose: Purpose::Create }
    }

    /// Goes on once it is known whether there is a store at a path: its engine
    /// is to be built, unless there is none or the tablet is open already.
    pub fn tablet_probed<T: KvEngineConstructorExt<K, R>>(
        &self,
        probe: PendingProbe,
        exists: bool,
    ) -> (pending: Result<PendingTablet<T>, TabletError>)
        ensures
            match self@.probed(probe.path.strict(), probe.path.lossy(), exists) {
                Err(error) => pending matches Err(e) && e@ == error,
                Ok((id, suffix)) => {
                    &&& pending matches Ok(pending)
                    &&& pending.id == id
                    &&& pending.suffix == suffix
                    &&& pending.purpose == probe.purpose
                    &&& self@.suits(pending.engine, id, suffix)
                },
            },
    {
        if !exists {
            return Err(TabletError::NoDb { path: probe.probe_path() });
        }
        let (tablet_id, tablet_suffix) = get_id_and_suffix_from_path(&probe.path);
        match self.create_tablet(tablet_id, tablet_suffix) {
            Ok(pending) => {
                let PendingTablet { engine, id, suffix, purpose: _ } = pending;
                Ok(PendingTablet { engine, id, suffix, purpose: probe.purpose })
            },
            Err(error) => Err(error),
        }
    }

    /// Begins to create the tablet that is shared by all regions.
    pub fn create_shared_db<T: KvEngineConstructorExt<K, R>>(&self) -> (pending: Result<
        PendingTablet<T>,
        TabletError,
    >)
        ensures
            match self@.refusal(0, 0) {
                Some(error) => pending matches Err(e) && e@ == error,
                None => {
                    &&& pending matches Ok(pending)
                    &&& pending.id == 0
                    &&& pending.suffix == 0
                    &&& pending.purpose == Purpose::Create
                    &&& self@.suits(pending.engine, 0, 0)
                },
            },
    {
        self.create_tablet(0, 0)
    }

    /// The directory of all tablets.
    pub fn tablets_path(&self) -> (path: String)
        ensures
            path@ == tablets_dir(self@.root_path),
    {
        tablets_path(self.root_path.as_str())
    }

    /// The directory of a tablet.
    pub fn tablet_path(&self, id: u64, suffix: u64) -> (path: String)
        ensures
            path@ == self@.home(id, suffix),
    {
        tablet_path(self.root_path.as_str(), id, suffix)
    }

    /// The file that marks a tablet as one not to be used any more. A tablet is
    /// marked if this file exists.
    pub fn tombstone_path(&self, region_id: u64, suffix: u64) -> (path: String)
        ensures
            path@ == tombstone_file(self@.root_path, region_id, suffix),
    {
        tombstone_path(self.root_path.as_str(), region_id, suffix)
    }

    /// Forgets a tablet whose marker file has been created.
    pub fn mark_tombstone(&mut self, region_id: u64, suffix: u64)
        ensures
            final(self)@ == old(self)@.without(region_id, suffix),
    {
        self.registry.remove(region_id, suffix);
    }

    /// Forgets a tablet. Its directory is to be removed, with all that is in it.
    pub fn destroy_tablet(&mut self, id: u64, suffix: u64) -> (path: String)
        ensures
            path@ == old(self)@.home(id, suffix),
            final(self)@ == old(self)@.without(id, suffix),
    {
        let path = self.tablet_path(id, suffix);
        self.registry.remove(id, suffix);
        path
    }

    /// Begins to load a tablet from another directory: the directory is to be
    /// renamed, unless the tablet is open already.
    pub fn load_tablet(&self, path: PathText, id: u64, suffix: u64) -> (pending: Result<
        PendingLoad,
        TabletError,
    >)
        ensures
            match self@.refusal(id, suffix) {
                Some(error) => pending matches Err(e) && e@ == error,
                None => {
                    &&& pending matches Ok(pending)
                    &&& pending.path == path
                    &&& pending.db_path@ == self@.home(id, suffix)
                },
            },
    {
        if let Some(tablet) = self.registry.get(id, suffix) {
            return Err(TabletError::AlreadyExists { id, path: tablet.path.clone() });
        }
        let db_path = self.tablet_path(id, suffix);
        Ok(PendingLoad { path, db_path })
    }

    /// Picks any open tablet to set the capacity of the block cache through,
    /// which all tablets share. Where no tablet is open there is nothing to set.
    pub fn set_shared_block_cache_capacity(&self, capacity: u64) -> (change: Option<
        CacheCapacity<H>,
    >)
        ensures
            match change {
                Some(change) => {
                    &&& self@.tablets.values().contains(change.tablet)
                    &&& change.cf@ == CF_DEFAULT@
                    &&& change.capacity == capacity
                },
                None => self@.tablets.dom() == Set::<(u64, u64)>::empty(),
            },
    {
        let keys = self.registry.keys();
        if keys.len() == 0 {
            assert(keys@.to_set() =~= Set::<(u64, u64)>::empty());
            return None;
        }
        let (id, suffix) = keys[0];
        assert(keys@.to_set().contains(keys@[0]));
        match self.open_tablet_cache(id, suffix) {
            Some(tablet) => Some(CacheCapacity { tablet, cf: CF_DEFAULT, capacity }),
            None => None,
        }
    }

    /// All open tablets with their ids and suffixes, each once, in no particular
    /// order.
    pub fn for_each_opened_tablet(&self) -> (tablets: Vec<(u64, u64, OpenTablet<H>)>)
        ensures
            ({
                let keys = tablets@.map_values(|t: (u64, u64, OpenTablet<H>)| (t.0, t.1));
                &&& keys.no_duplicates()
                &&& keys.to_set() == self@.tablets.dom()
            }),
            forall|i: int|
                0 <= i < tablets@.len() ==> (#[trigger] tablets@[i]).2 == self@.tablets[(
                    tablets@[i].0,
                    tablets@[i].1,
                )],
    {
        let keys = self.registry.keys();
        let mut tablets: Vec<(u64, u64, OpenTablet<H>)> = Vec::new();
        let mut i: usize = 0;
        while i < keys.len()
            invariant
                i <= keys@.len(),
                tablets@.len() == i,
                keys@.to_set() == self@.tablets.dom(),
                forall|j: int|
                    0 <= j < i ==> {
                        &&& (#[trigger] tablets@[j]).0 == keys@[j].0
                        &&& tablets@[j].1 == keys@[j].1
                        &&& tablets@[j].2 == self@.tablets[keys@[j]]
                    },
            decreases keys.len() - i,
        {
            let (id, suffix) = keys[i];
            assert(keys@.to_set().contains(keys@[i as int]));
            if let Some(tablet) = self.open_tablet_cache(id, suffix) {
                tablets.push((id, suffix, tablet));
            }
            i = i + 1;
        }
        assert(tablets@.map_values(|t: (u64, u64, OpenTablet<H>)| (t.0, t.1)) =~= keys@);
        tablets
    }

    /// Each tablet has an engine of its own.
    pub fn is_single_engine(&self) -> (single: bool)
        ensures
            !single,
    {
        false
    }
}

} // verus!
