//! The startup sequence as a state machine. The host performs each action it
//! is handed (listing the bundle, asking the store, initializing plugins,
//! notifying) and reports the outcome back as the next event. Steps run in a
//! fixed order, and the runtime handle is published only after every known
//! plugin was handed to initialization.
use vstd::prelude::*;
use crate::reconcile::{reconciled, stored, StoreModel};
use crate::record::{bundled_record, is_bundled_record, PluginRecord};
use crate::toast::{failure_toasts, is_failure_toast, Toast};

verus! {

/// Where the startup sequence stands.
#[derive(Clone, Copy, Debug, PartialEq, Eq, Structural)]
pub enum Phase {
    /// Waiting for the runtime to be built from the resolved paths.
    Starting,
    /// Waiting for the bundled plugin directories.
    Listing,
    /// Walking the bundled directories, seeding missing records.
    Reconciling,
    /// Waiting for the full list of stored records.
    Loading,
    /// Waiting for the outcome of initializing every record.
    Initializing,
    /// Waiting for notifications and publication to be done.
    Publishing,
    /// The subsystem is up and published.
    Done,
    /// A fatal step failed; startup cannot go on.
    Aborted,
}

/// Why startup cannot go on.
pub enum BootstrapError {
    /// The bundled plugins could not be listed.
    ListBundled(String),
    /// A bundled plugin's record could not be written.
    Upsert(String),
    /// The stored records could not be loaded.
    LoadPlugins(String),
}

/// An outcome the host reports.
pub enum Event {
    /// The runtime handle was built.
    ManagerReady,
    /// The bundled plugin directories, or why they could not be listed.
    BundledListed(Result<Vec<String>, String>),
    /// Whether the store holds a record for the directory last looked up.
    Looked(bool),
    /// The outcome of the last record write.
    Upserted(Result<(), String>),
    /// Every stored record, or why they could not be loaded.
    Loaded(Result<Vec<PluginRecord>, String>),
    /// The plugins that failed to start, as `(directory, error)`.
    Initialized(Vec<(String, String)>),
    /// The notifications were sent and the handle published.
    Published,
}

/// What the host does next.
pub enum Action {
    /// List the bundled plugin directories.
    ListBundled,
    /// Ask the store whether it holds a record for this directory.
    Lookup(String),
    /// Write this record to the store, as a background update.
    Upsert(PluginRecord),
    /// Load every stored record, releasing the store before going on.
    LoadAll,
    /// Initialize every one of these records, each independently.
    InitializeAll(Vec<PluginRecord>),
    /// Send these notifications, without waiting on delivery, then publish
    /// the runtime handle.
    NotifyAndPublish(Vec<Toast>),
    /// Startup is complete.
    Finished,
    /// Stop startup: a fatal step failed.
    Abort(BootstrapError),
    /// The event does not belong to the current phase; nothing to do.
    Ignore,
}

/// The startup sequence's state.
pub struct Bootstrap {
    pub phase: Phase,
    /// The bundled directories, once listed.
    pub bundled: Vec<String>,
    /// The bundled directory being reconciled.
    pub cursor: usize,
    /// Whether a write for the directory at `cursor` is outstanding.
    pub awaiting_upsert: bool,
}

/// `post` and `r` continue reconciliation at `cursor`: the next lookup, or
/// loading the records once every bundled directory is done.
pub open spec fn lookup_or_load(post: Bootstrap, r: Action, bundled: Seq<String>, cursor: int) -> bool {
    &&& post.bundled@ == bundled
    &&& post.cursor == cursor
    &&& !post.awaiting_upsert
    &&& if cursor < bundled.len() {
        &&& post.phase == Phase::Reconciling
        &&& r matches Action::Lookup(d) && d@ == bundled[cursor]@
    } else {
        &&& post.phase == Phase::Loading
        &&& r is LoadAll
    }
}

/// `post` moved to `phase` and keeps the rest of `pre`.
pub open spec fn moved(pre: Bootstrap, post: Bootstrap, phase: Phase) -> bool {
    &&& post.phase == phase
    &&& post.bundled@ == pre.bundled@
    &&& post.cursor == pre.cursor
    &&& post.awaiting_upsert == pre.awaiting_upsert
}

/// The event was out of place: nothing changes and nothing is done.
pub open spec fn ignored(pre: Bootstrap, post: Bootstrap, r: Action) -> bool {
    moved(pre, post, pre.phase) && r is Ignore
}

/// One step of the startup sequence: from `pre`, event `e` leads to `post`
/// with action `r`.
pub open spec fn step_spec(pre: Bootstrap, e: Event, post: Bootstrap, r: Action) -> bool {
    match e {
        Event::ManagerReady => if pre.phase == Phase::Starting {
            moved(pre, post, Phase::Listing) && r is ListBundled
        } else {
            ignored(pre, post, r)
        },
        Event::BundledListed(res) => if pre.phase == Phase::Listing {
            match res {
                Ok(dirs) => lookup_or_load(post, r, dirs@, 0),
                Err(m) => moved(pre, post, Phase::Aborted) && (r matches Action::Abort(
                    BootstrapError::ListBundled(m2),
                ) && m2@ == m@),
            }
        } else {
            ignored(pre, post, r)
        },
        Event::Looked(found) => if pre.phase == Phase::Reconciling && !pre.awaiting_upsert {
            if found {
                lookup_or_load(post, r, pre.bundled@, pre.cursor + 1)
            } else {
                &&& post.phase == Phase::Reconciling
                &&& post.bundled@ == pre.bundled@
                &&& post.cursor == pre.cursor
                &&& post.awaiting_upsert
                &&& r matches Action::Upsert(rec) && is_bundled_record(
                    rec,
                    pre.bundled@[pre.cursor as int]@,
                )
            }
        } else {
            ignored(pre, post, r)
        },
        Event::Upserted(res) => if pre.phase == Phase::Reconciling && pre.awaiting_upsert {
            match res {
                Ok(_) => lookup_or_load(post, r, pre.bundled@, pre.cursor + 1),
                Err(m) => {
                    &&& post.phase == Phase::Aborted
                    &&& post.bundled@ == pre.bundled@
                    &&& post.cursor == pre.cursor
                    &&& !post.awaiting_upsert
                    &&& r matches Action::Abort(BootstrapError::Upsert(m2)) && m2@ == m@
                },
            }
        } else {
            ignored(pre, post, r)
        },
        Event::Loaded(res) => if pre.phase == Phase::Loading {
            match res {
                Ok(recs) => moved(pre, post, Phase::Initializing) && (r matches Action::InitializeAll(
                    all,
                ) && all@ == recs@),
                Err(m) => moved(pre, post, Phase::Aborted) && (r matches Action::Abort(
                    BootstrapError::LoadPlugins(m2),
                ) && m2@ == m@),
            }
        } else {
            ignored(pre, post, r)
        },
        Event::Initialized(failures) => if pre.phase == Phase::Initializing {
            &&& moved(pre, post, Phase::Publishing)
            &&& r matches Action::NotifyAndPublish(ts) && ts.len() == failures.len() && forall|
                i: int,
            |
                0 <= i < ts.len() ==> is_failure_toast(
                    #[trigger] ts[i],
                    failures[i].0@,
                    failures[i].1@,
                )
        } else {
            ignored(pre, post, r)
        },
        Event::Published => if pre.phase == Phase::Publishing {
            moved(pre, post, Phase::Done) && r is Finished
        } else {
            ignored(pre, post, r)
        },
    }
}

/// The directories of a bundle.
pub open spec fn dirs_of(bundled: Seq<String>) -> Seq<Seq<char>> {
    bundled.map_values(|d: String| d@)
}

/// The store after the host performs `r`: a write changes it, nothing else does.
pub open spec fn store_after(store: StoreModel, r: Action) -> StoreModel {
    match r {
        Action::Upsert(rec) => store.insert(rec.directory@, stored(rec)),
        _ => store,
    }
}

/// Driven by a store that answers each lookup truthfully, the sequence
/// reconciles exactly as the store model says: if the store holds the
/// reconciliation of the bundle's first `cursor` directories, then after the
/// lookup of the next one, and the write it may call for, it holds the
/// reconciliation of the first `cursor + 1`.
pub proof fn reconciling_follows_model(
    store0: StoreModel,
    store: StoreModel,
    pre: Bootstrap,
    post: Bootstrap,
    r: Action,
)
    requires
        pre.wf(),
        pre.phase == Phase::Reconciling,
        !pre.awaiting_upsert,
        store == reconciled(store0, dirs_of(pre.bundled@).take(pre.cursor as int)),
        step_spec(pre, Event::Looked(store.contains_key(pre.bundled@[pre.cursor as int]@)), post, r),
    ensures
        store_after(store, r) == reconciled(
            store0,
            dirs_of(pre.bundled@).take(pre.cursor + 1),
        ),
        post.awaiting_upsert ==> r is Upsert && post.cursor == pre.cursor,
        !post.awaiting_upsert ==> post.cursor == pre.cursor + 1,
{
    let all = dirs_of(pre.bundled@);
    let c = pre.cursor as int;
    let t = all.take(c + 1);
    assert(t.drop_last() =~= all.take(c));
    assert(t.last() == pre.bundled@[c]@);
}

/// Failures do not stop the batch: whichever `k` of the plugins failed to
/// start, the sequence goes on to publication with exactly `k` notifications,
/// the `i`-th naming the `i`-th failure.
pub proof fn failures_isolated(
    pre: Bootstrap,
    failures: Vec<(String, String)>,
    post: Bootstrap,
    r: Action,
)
    requires
        pre.phase == Phase::Initializing,
        step_spec(pre, Event::Initialized(failures), post, r),
    ensures
        post.phase == Phase::Publishing,
        r matches Action::NotifyAndPublish(ts) && ts.len() == failures.len() && forall|i: int|
            0 <= i < ts.len() ==> is_failure_toast(
                #[trigger] ts[i],
                failures[i].0@,
                failures[i].1@,
            ),
{
}

/// Every stored record is handed to initialization, enabled or not.
pub proof fn all_records_initialized(
    pre: Bootstrap,
    records: Vec<PluginRecord>,
    post: Bootstrap,
    r: Action,
)
    requires
        pre.phase == Phase::Loading,
        step_spec(pre, Event::Loaded(Ok(records)), post, r),
    ensures
        post.phase == Phase::Initializing,
        r matches Action::InitializeAll(all) && all@ == records@,
{
}

/// The handle is published only once initialization has reported back: no
/// step but the one taking the initialization outcome asks for publication.
pub proof fn publishes_after_initialization(pre: Bootstrap, e: Event, post: Bootstrap, r: Action)
    requires
        step_spec(pre, e, post, r),
        r is NotifyAndPublish,
    ensures
        pre.phase == Phase::Initializing,
        e is Initialized,
{
}

impl Bootstrap {
    /// The state's invariant: the cursor stays within the bundle, and points
    /// at a directory while reconciling.
    pub open spec fn wf(self) -> bool {
        &&& self.cursor <= self.bundled.len()
        &&& self.phase == Phase::Reconciling ==> self.cursor < self.bundled.len()
        &&& self.awaiting_upsert ==> self.phase == Phase::Reconciling
    }

    /// A sequence that has not started.
    pub fn new() -> (b: Bootstrap)
        ensures
            b.wf(),
            b.phase == Phase::Starting,
            b.bundled@.len() == 0,
    {
        Bootstrap { phase: Phase::Starting, bundled: Vec::new(), cursor: 0, awaiting_upsert: false }
    }

    /// Goes on with reconciliation at `cursor`.
    fn lookup_or_load(&mut self, cursor: usize) -> (r: Action)
        requires
            cursor <= old(self).bundled.len(),
        ensures
            lookup_or_load(*final(self), r, old(self).bundled@, cursor as int),
            final(self).wf(),
    {
        self.cursor = cursor;
        self.awaiting_upsert = false;
        if cursor < self.bundled.len() {
            self.phase = Phase::Reconciling;
            Action::Lookup(self.bundled[cursor].clone())
        } else {
            self.phase = Phase::Loading;
            Action::LoadAll
        }
    }

    /// Takes one event and says what to do next.
    pub fn step(&mut self, e: Event) -> (r: Action)
        requires
            old(self).wf(),
        ensures
            final(self).wf(),
            step_spec(*old(self), e, *final(self), r),
    {
        match e {
            Event::ManagerReady => {
                if self.phase == Phase::Starting {
                    self.phase = Phase::Listing;
                    Action::ListBundled
                } else {
                    Action::Ignore
                }
            },
            Event::BundledListed(res) => {
                if self.phase == Phase::Listing {
                    match res {
                        Ok(dirs) => {
                            self.bundled = dirs;
                            self.lookup_or_load(0)
                        },
                        Err(m) => {
                            self.phase = Phase::Aborted;
                            Action::Abort(BootstrapError::ListBundled(m))
                        },
                    }
                } else {
                    Action::Ignore
                }
            },
            Event::Looked(found) => {
                if self.phase == Phase::Reconciling && !self.awaiting_upsert {
                    if found {
                        let next = self.cursor + 1;
                        self.lookup_or_load(next)
                    } else {
                        self.awaiting_upsert = true;
                        Action::Upsert(bundled_record(&self.bundled[self.cursor]))
                    }
                } else {
                    Action::Ignore
                }
            },
            Event::Upserted(res) => {
                if self.phase == Phase::Reconciling && self.awaiting_upsert {
                    match res {
                        Ok(_) => {
                            let next = self.cursor + 1;
                            self.lookup_or_load(next)
                        },
                        Err(m) => {
                            self.phase = Phase::Aborted;
                            self.awaiting_upsert = false;
                            Action::Abort(BootstrapError::Upsert(m))
                        },
                    }
                } else {
                    Action::Ignore
                }
            },
            Event::Loaded(res) => {
                if self.phase == Phase::Loading {
                    match res {
                        Ok(recs) => {
                            self.phase = Phase::Initializing;
                            Action::InitializeAll(recs)
                        },
                        Err(m) => {
                            self.phase = Phase::Aborted;
                            Action::Abort(BootstrapError::LoadPlugins(m))
                        },
                    }
                } else {
                    Action::Ignore
                }
            },
            Event::Initialized(failures) => {
                if self.phase == Phase::Initializing {
                    self.phase = Phase::Publishing;
                    Action::NotifyAndPublish(failure_toasts(&failures))
                } else {
                    Action::Ignore
                }
            },
            Event::Published => {
                if self.phase == Phase::Publishing {
                    self.phase = Phase::Done;
                    Action::Finished
                } else {
                    Action::Ignore
                }
            },
        }
    }
}

} // verus!
