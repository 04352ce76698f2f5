//! Whole operations of a tablet factory.
//!
//! The spec functions say how an operation goes from beginning to end, for every
//! way in which the work on disk between its steps can go. The executable
//! functions take the steps of the factory in order, with given results in the
//! place of that work.

use vstd::prelude::*;

use crate::ctor::KvEngineConstructorExt;
use crate::kv::{
    FactoryView, OpenStep, PendingProbe, PendingTablet, Purpose, TabletError, TabletErrorView,
    TestTabletFactory,
};
use crate::path::{id_and_suffix, PathText};
use crate::registry::OpenTablet;

verus! {

/// How an operation ends.
pub enum Outcome<H, X> {
    /// With a tablet.
    Opened(OpenTablet<H>),
    /// The factory refuses it.
    Refused(TabletError),
    /// The work on disk fails.
    Failed(X),
}

/// What an `Outcome` says.
pub enum OutcomeView<H, X> {
    Opened(OpenTablet<H>),
    Refused(TabletErrorView),
    Failed(X),
}

impl<H, X> View for Outcome<H, X> {
    type V = OutcomeView<H, X>;

    open spec fn view(&self) -> OutcomeView<H, X> {
        match *self {
            Outcome::Opened(tablet) => OutcomeView::Opened(tablet),
            Outcome::Refused(error) => OutcomeView::Refused(error@),
            Outcome::Failed(error) => OutcomeView::Failed(error),
        }
    }
}

/// From the step at which an engine is built to the end.
pub open spec fn build_run<K, R, H, X>(
    before: FactoryView<K, R, H>,
    id: u64,
    suffix: u64,
    purpose: Purpose,
    built: Result<OpenTablet<H>, X>,
) -> (FactoryView<K, R, H>, OutcomeView<H, X>) {
    match built {
        Ok(tablet) => (before.settled(id, suffix, purpose, tablet), OutcomeView::Opened(tablet)),
        Err(error) => (before, OutcomeView::Failed(error)),
    }
}

/// Creating a tablet.
pub open spec fn create_run<K, R, H, X>(
    before: FactoryView<K, R, H>,
    id: u64,
    suffix: u64,
    built: Result<OpenTablet<H>, X>,
) -> (FactoryView<K, R, H>, OutcomeView<H, X>) {
    match before.refusal(id, suffix) {
        Some(error) => (before, OutcomeView::Refused(error)),
        None => build_run(before, id, suffix, Purpose::Create, built),
    }
}

/// From the step at which a path is looked at to the end.
pub open spec fn probe_run<K, R, H, X>(
    before: FactoryView<K, R, H>,
    strict: Seq<char>,
    lossy: Seq<char>,
    purpose: Purpose,
    exists: bool,
    built: Result<OpenTablet<H>, X>,
) -> (FactoryView<K, R, H>, OutcomeView<H, X>) {
    match before.probed(strict, lossy, exists) {
        Err(error) => (before, OutcomeView::Refused(error)),
        Ok((id, suffix)) => build_run(before, id, suffix, purpose, built),
    }
}

/// Opening a tablet by its path.
pub open spec fn open_raw_run<K, R, H, X>(
    before: FactoryView<K, R, H>,
    strict: Seq<char>,
    lossy: Seq<char>,
    exists: bool,
    built: Result<OpenTablet<H>, X>,
) -> (FactoryView<K, R, H>, OutcomeView<H, X>) {
    probe_run(before, strict, lossy, Purpose::Create, exists, built)
}

/// Opening a tablet that is open, or that has no store.
pub open spec fn open_run<K, R, H, X>(
    before: FactoryView<K, R, H>,
    id: u64,
    suffix: u64,
) -> OutcomeView<H, X> {
    if before.tablets.contains_key((id, suffix)) {
        OutcomeView::Opened(before.tablets[(id, suffix)])
    } else {
        OutcomeView::Refused(TabletErrorView::NoDb { path: before.home(id, suffix) })
    }
}

/// Loading a tablet from the path `lossy`.
pub open spec fn load_run<K, R, H, X>(
    before: FactoryView<K, R, H>,
    lossy: Seq<char>,
    id: u64,
    suffix: u64,
    renamed: Result<(), X>,
    exists: bool,
    built: Result<OpenTablet<H>, X>,
) -> (FactoryView<K, R, H>, OutcomeView<H, X>) {
    match before.refusal(id, suffix) {
        Some(error) => (before, OutcomeView::Refused(error)),
        None => match renamed {
            Err(error) => (before, OutcomeView::Failed(error)),
            Ok(_) => {
                let home = before.home(id, suffix);
                let (old_id, old_suffix) = id_and_suffix(lossy);
                probe_run(before, home, home, Purpose::Load { old_id, old_suffix }, exists, built)
            },
        },
    }
}

/// Builds the engine of a pending tablet, with the given result.
fn build<T, K, R, H, X>(
    factory: &mut TestTabletFactory<K, R, H>,
    pending: PendingTablet<T>,
    built: Result<OpenTablet<H>, X>,
) -> (outcome: Outcome<H, X>)
    ensures
        (final(factory)@, outcome@) == build_run(
            old(factory)@,
            pending.id,
            pending.suffix,
            pending.purpose,
            built,
        ),
{
    match factory.tablet_built(pending, built) {
        Ok(tablet) => Outcome::Opened(tablet),
        Err(error) => Outcome::Failed(error),
    }
}

/// Looks whether there is a store, with the given result, and goes on from
/// there.
fn probe<T: KvEngineConstructorExt<K, R>, K, R, H, X>(
    factory: &mut TestTabletFactory<K, R, H>,
    pending: PendingProbe,
    exists: bool,
    built: Result<OpenTablet<H>, X>,
) -> (outcome: Outcome<H, X>)
    ensures
        (final(factory)@, outcome@) == probe_run(
            old(factory)@,
            pending.path.strict(),
            pending.path.lossy(),
            pending.purpose,
            exists,
            built,
        ),
{
    let probed: Result<PendingTablet<T>, TabletError> = factory.tablet_probed(pending, exists);
    match probed {
        Ok(pending) => build(factory, pending, built),
        Err(error) => Outcome::Refused(error),
    }
}

/// Creates a tablet with an engine of the kind `T`, `built` being what building
/// the engine gives.
pub fn run_create<T: KvEngineConstructorExt<K, R>, K, R, H, X>(
    factory: &mut TestTabletFactory<K, R, H>,
    id: u64,
    suffix: u64,
    built: Result<OpenTablet<H>, X>,
) -> (outcome: Outcome<H, X>)
    ensures
        (final(factory)@, outcome@) == create_run(old(factory)@, id, suffix, built),
{
    let pending: Result<PendingTablet<T>, TabletError> = factory.create_tablet(id, suffix);
    match pending {
        Ok(pending) => build(factory, pending, built),
        Err(error) => Outcome::Refused(error),
    }
}

/// Opens a tablet by its path, `exists` being whether there is a store, and
/// `built` what building the engine gives.
pub fn run_open_raw<T: KvEngineConstructorExt<K, R>, K, R, H, X>(
    factory: &mut TestTabletFactory<K, R, H>,
    path: PathText,
    exists: bool,
    built: Result<OpenTablet<H>, X>,
) -> (outcome: Outcome<H, X>)
    ensures
        (final(factory)@, outcome@) == open_raw_run(
            old(factory)@,
            path.strict(),
            path.lossy(),
            exists,
            built,
        ),
{
    let pending = factory.open_tablet_raw(path, false);
    probe::<T, K, R, H, X>(factory, pending, exists, built)
}

/// Opens a tablet, `exists` being whether there is a store. One that is there is
/// not opened so, unless the tablet is open already.
pub fn run_open<K, R, H, X>(
    factory: &TestTabletFactory<K, R, H>,
    id: u64,
    suffix: u64,
    exists: bool,
) -> (outcome: Outcome<H, X>)
    requires
        exists ==> factory@.tablets.contains_key((id, suffix)),
    ensures
        outcome@ == open_run::<K, R, H, X>(factory@, id, suffix),
{
    match factory.open_tablet(id, suffix) {
        OpenStep::Opened(tablet) => Outcome::Opened(tablet),
        OpenStep::Probe(pending) => Outcome::Refused(pending.absent()),
    }
}

/// Loads a tablet from a path, `renamed` being what renaming the directory
/// gives, `exists` whether there is a store then, and `built` what building the
/// engine gives.
pub fn run_load<T: KvEngineConstructorExt<K, R>, K, R, H, X>(
    factory: &mut TestTabletFactory<K, R, H>,
    path: PathText,
    id: u64,
    suffix: u64,
    renamed: Result<(), X>,
    exists: bool,
    built: Result<OpenTablet<H>, X>,
) -> (outcome: Outcome<H, X>)
    ensures
        (final(factory)@, outcome@) == load_run(
            old(factory)@,
            path.lossy(),
            id,
            suffix,
            renamed,
            exists,
            built,
        ),
{
    match factory.load_tablet(path, id, suffix) {
        Ok(pending) => match pending.renamed(renamed) {
            Ok(pending) => probe::<T, K, R, H, X>(factory, pending, exists, built),
            Err(error) => Outcome::Failed(error),
        },
        Err(error) => Outcome::Refused(error),
    }
}

} // verus!
