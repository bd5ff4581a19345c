//! Notifications raised for plugins that failed to start.
use vstd::prelude::*;
use vstd::string::StringExecFns;
use crate::record::{last_segment, plugin_name};

verus! {

/// How long a failure notification stays on screen, in milliseconds.
pub const FAILURE_TOAST_TIMEOUT_MS: u64 = 10000;

/// Severity marker of a notification.
#[derive(Clone, Copy, Debug, PartialEq, Eq, Structural)]
pub enum Severity {
    Danger,
}

/// Icon shown beside a notification.
#[derive(Clone, Copy, Debug, PartialEq, Eq, Structural)]
pub enum Icon {
    AlertTriangle,
}

/// A user-visible, self-dismissing notification.
pub struct Toast {
    pub message: String,
    pub severity: Severity,
    pub icon: Icon,
    pub timeout_ms: u64,
}

/// The text shown when the plugin in `dir` failed to start with `err`.
pub open spec fn failure_message(dir: Seq<char>, err: Seq<char>) -> Seq<char> {
    "Failed to start plugin '"@ + last_segment(dir) + "': "@ + err
}

/// `t` is the notification for the plugin in `dir` failing with `err`.
pub open spec fn is_failure_toast(t: Toast, dir: Seq<char>, err: Seq<char>) -> bool {
    &&& t.message@ == failure_message(dir, err)
    &&& t.severity == Severity::Danger
    &&& t.icon == Icon::AlertTriangle
    &&& t.timeout_ms == FAILURE_TOAST_TIMEOUT_MS
}

/// The notification for the plugin in `dir` failing to start with `err`.
pub fn failure_toast(dir: &String, err: &String) -> (t: Toast)
    ensures
        is_failure_toast(t, dir@, err@),
{
    let name = plugin_name(dir.as_str());
    let message = String::from_str("Failed to start plugin '")
        .concat(name.as_str())
        .concat("': ")
        .concat(err.as_str());
    Toast {
        message,
        severity: Severity::Danger,
        icon: Icon::AlertTriangle,
        timeout_ms: FAILURE_TOAST_TIMEOUT_MS,
    }
}

/// One notification per initialization failure `(directory, error)`, in order.
pub fn failure_toasts(failures: &Vec<(String, String)>) -> (r: Vec<Toast>)
    ensures
        r.len() == failures.len(),
        forall|i: int|
            0 <= i < r.len() ==> is_failure_toast(
                #[trigger] r[i],
                failures[i].0@,
                failures[i].1@,
            ),
{
    let mut r: Vec<Toast> = Vec::new();
    let mut i: usize = 0;
    while i < failures.len()
        invariant
            i <= failures.len(),
            r.len() == i,
            forall|j: int|
                0 <= j < i ==> is_failure_toast(#[trigger] r[j], failures[j].0@, failures[j].1@),
        decreases failures.len() - i,
    {
        let t = failure_toast(&failures[i].0, &failures[i].1);
        r.push(t);
        i = i + 1;
    }
    r
}

} // verus!
