//! Plugin lifecycle orchestration: the decisions that bring a plugin
//! subsystem up at startup, keep the plugin store in step with the bundled
//! plugins, and tear the subsystem down exactly once at exit.
//!
//! Every item here is plain, verified logic. The host application performs
//! the side effects (resolving resources, talking to the store, the plugin
//! runtime and the notification sink) and feeds the outcomes back in.
use vstd::prelude::*;

pub mod bootstrap;
pub mod exit;
pub mod handle;
pub mod paths;
pub mod reconcile;
pub mod record;
pub mod toast;

verus! {

} // verus!
