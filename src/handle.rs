//! The process-wide slot that publishes the one runtime handle.
use vstd::prelude::*;
use std::sync::Arc;

verus! {

/// Relies on `Arc::clone`: the copy points at the same allocation, so in the
/// model it is the same value.
#[verifier::external_body]
fn share<T>(h: &Arc<T>) -> (r: Arc<T>)
    ensures
        r == *h,
{
    Arc::clone(h)
}

/// Holds the runtime handle once it is published; empty before.
pub struct HandleSlot<T> {
    pub handle: Option<Arc<T>>,
}

impl<T> HandleSlot<T> {
    /// An empty slot.
    pub fn new() -> (s: HandleSlot<T>)
        ensures
            s.handle is None,
    {
        HandleSlot { handle: None }
    }

    /// Publishes `h`. A slot takes one handle in its lifetime: a second
    /// handle is refused and handed back, and the first stays.
    pub fn publish(&mut self, h: T) -> (r: Result<(), T>)
        ensures
            match old(self).handle {
                None => r is Ok && final(self).handle == Some(Arc::new(h)),
                Some(_) => r == Err::<(), T>(h) && final(self).handle == old(self).handle,
            },
    {
        if self.handle.is_some() {
            Err(h)
        } else {
            self.handle = Some(Arc::new(h));
            Ok(())
        }
    }

    /// The published handle, shared; `None` before publication.
    pub fn get(&self) -> (r: Option<Arc<T>>)
        ensures
            r == self.handle,
    {
        match &self.handle {
            Some(h) => Some(share(h)),
            None => None,
        }
    }
}

/// Two lookups after publication hand out the same runtime instance.
pub proof fn lookups_share_handle<T>(s: HandleSlot<T>, a: Option<Arc<T>>, b: Option<Arc<T>>)
    requires
        s.handle is Some,
        a == s.handle,
        b == s.handle,
    ensures
        a is Some && b is Some && a == b,
{
}

} // verus!
