//! The store model and reconciliation of bundled plugins into it.
use vstd::prelude::*;
use crate::record::PluginRecord;

verus! {

/// What the store keeps for one directory.
pub struct StoredRecord {
    pub enabled: bool,
    pub url: Option<Seq<char>>,
}

/// The store's contents, keyed by plugin directory.
pub type StoreModel = Map<Seq<char>, StoredRecord>;

/// What the store keeps for a record once it is written.
pub open spec fn stored(r: PluginRecord) -> StoredRecord {
    StoredRecord {
        enabled: r.enabled,
        url: match r.url {
            Some(u) => Some(u@),
            None => None,
        },
    }
}

/// What reconciliation writes for a bundled plugin.
pub open spec fn seeded() -> StoredRecord {
    StoredRecord { enabled: true, url: None }
}

/// Reconciliation of one bundled directory: seed it unless a record exists.
pub open spec fn reconcile_one(store: StoreModel, dir: Seq<char>) -> StoreModel {
    if store.contains_key(dir) {
        store
    } else {
        store.insert(dir, seeded())
    }
}

/// The store after reconciling the bundled directories in order.
pub open spec fn reconciled(store: StoreModel, bundled: Seq<Seq<char>>) -> StoreModel
    decreases bundled.len(),
{
    if bundled.len() == 0 {
        store
    } else {
        reconcile_one(reconciled(store, bundled.drop_last()), bundled.last())
    }
}

/// The directories that reconciliation writes, in the order it writes them.
pub open spec fn reconcile_writes(store: StoreModel, bundled: Seq<Seq<char>>) -> Seq<Seq<char>>
    decreases bundled.len(),
{
    if bundled.len() == 0 {
        Seq::empty()
    } else {
        let earlier = reconcile_writes(store, bundled.drop_last());
        if reconciled(store, bundled.drop_last()).contains_key(bundled.last()) {
            earlier
        } else {
            earlier.push(bundled.last())
        }
    }
}

proof fn lemma_reconciled_covers(store: StoreModel, bundled: Seq<Seq<char>>)
    ensures
        forall|i: int|
            0 <= i < bundled.len() ==> #[trigger] reconciled(store, bundled).contains_key(
                bundled[i],
            ),
        forall|k: Seq<char>|
            #[trigger] store.contains_key(k) ==> reconciled(store, bundled).contains_key(k)
                && reconciled(store, bundled)[k] == store[k],
    decreases bundled.len(),
{
    if bundled.len() > 0 {
        let front = bundled.drop_last();
        lemma_reconciled_covers(store, front);
        assert forall|i: int| 0 <= i < bundled.len() implies #[trigger] reconciled(
            store,
            bundled,
        ).contains_key(bundled[i]) by {
            let prev = reconciled(store, front);
            assert(reconciled(store, bundled) == reconcile_one(prev, bundled.last()));
            if i < bundled.len() - 1 {
                assert(front[i] == bundled[i]);
                assert(prev.contains_key(front[i]));
            }
        }
    }
}

proof fn lemma_reconciled_fixed(store: StoreModel, bundled: Seq<Seq<char>>)
    requires
        forall|i: int| 0 <= i < bundled.len() ==> store.contains_key(#[trigger] bundled[i]),
    ensures
        reconciled(store, bundled) == store,
        reconcile_writes(store, bundled).len() == 0,
    decreases bundled.len(),
{
    if bundled.len() > 0 {
        let front = bundled.drop_last();
        assert forall|i: int| 0 <= i < front.len() implies store.contains_key(
            #[trigger] front[i],
        ) by {
            assert(front[i] == bundled[i]);
        }
        lemma_reconciled_fixed(store, front);
        assert(store.contains_key(bundled[bundled.len() - 1]));
    }
}

/// Reconciling a second time against the same bundled directories changes
/// nothing and writes nothing: the store after two runs equals the store
/// after one.
pub proof fn reconcile_idempotent(store: StoreModel, bundled: Seq<Seq<char>>)
    ensures
        reconciled(reconciled(store, bundled), bundled) == reconciled(store, bundled),
        reconcile_writes(reconciled(store, bundled), bundled).len() == 0,
{
    lemma_reconciled_covers(store, bundled);
    lemma_reconciled_fixed(reconciled(store, bundled), bundled);
}

/// Reconciliation never overwrites an existing record, and leaves a record
/// for every bundled directory.
pub proof fn reconcile_preserves_and_covers(store: StoreModel, bundled: Seq<Seq<char>>)
    ensures
        forall|k: Seq<char>|
            #[trigger] store.contains_key(k) ==> reconciled(store, bundled).contains_key(k)
                && reconciled(store, bundled)[k] == store[k],
        forall|i: int|
            0 <= i < bundled.len() ==> #[trigger] reconciled(store, bundled).contains_key(
                bundled[i],
            ),
{
    lemma_reconciled_covers(store, bundled);
}

} // verus!
