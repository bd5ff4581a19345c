use plugin_lifecycle::bootstrap::{Action, Bootstrap, BootstrapError, Event, Phase};
use plugin_lifecycle::exit::{ExitAction, ExitGuard, EXIT_STATUS};
use plugin_lifecycle::handle::HandleSlot;
use plugin_lifecycle::paths::{node_bin_name, runtime_paths};
use plugin_lifecycle::record::{bundled_record, plugin_name, PluginRecord};
use plugin_lifecycle::toast::{failure_toast, failure_toasts, Icon, Severity, Toast, FAILURE_TOAST_TIMEOUT_MS};
use std::sync::Arc;

struct Run {
    upserts: Vec<String>,
    initialized: Vec<String>,
    toasts: Vec<Toast>,
    phase: Phase,
}

/// Drives a whole startup against an in-memory store; `failing` lists the
/// directories whose initialization fails, with their error.
fn drive(store: &mut Vec<PluginRecord>, bundled: &[&str], failing: &[(&str, &str)]) -> Run {
    let mut b = Bootstrap::new();
    let mut run = Run { upserts: vec![], initialized: vec![], toasts: vec![], phase: Phase::Starting };
    let mut action = b.step(Event::ManagerReady);
    let mut last_lookup = String::new();
    let mut guard = 0;
    loop {
        guard += 1;
        assert!(guard < 100);
        let event = match action {
            Action::ListBundled => {
                Event::BundledListed(Ok(bundled.iter().map(|s| s.to_string()).collect()))
            }
            Action::Lookup(dir) => {
                let found = store.iter().any(|r| r.directory == dir);
                last_lookup = dir;
                Event::Looked(found)
            }
            Action::Upsert(rec) => {
                assert_eq!(rec.directory, last_lookup);
                run.upserts.push(rec.directory.clone());
                store.push(rec);
                Event::Upserted(Ok(()))
            }
            Action::LoadAll => Event::Loaded(Ok(store
                .iter()
                .map(|r| PluginRecord {
                    directory: r.directory.clone(),
                    enabled: r.enabled,
                    url: r.url.clone(),
                })
                .collect())),
            Action::InitializeAll(recs) => {
                let mut failures = vec![];
                for r in &recs {
                    run.initialized.push(r.directory.clone());
                    if let Some((d, e)) = failing.iter().find(|(d, _)| *d == r.directory) {
                        failures.push((d.to_string(), e.to_string()));
                    }
                }
                Event::Initialized(failures)
            }
            Action::NotifyAndPublish(ts) => {
                run.toasts = ts;
                Event::Published
            }
            Action::Finished | Action::Abort(_) | Action::Ignore => break,
        };
        action = b.step(event);
    }
    run.phase = b.phase;
    run
}

#[test]
fn bootstrap_seeds_bundle_and_reports_failure() {
    let mut store = vec![];
    let run = drive(&mut store, &["core/a", "core/b"], &[("core/b", "missing dependency")]);
    assert_eq!(run.phase, Phase::Done);
    assert_eq!(store.len(), 2);
    assert_eq!(store[0].directory, "core/a");
    assert_eq!(store[1].directory, "core/b");
    assert!(store.iter().all(|r| r.enabled && r.url.is_none()));
    assert_eq!(run.initialized, vec!["core/a".to_string(), "core/b".to_string()]);
    assert_eq!(run.toasts.len(), 1);
    let m = &run.toasts[0].message;
    assert!(m.contains("b"));
    assert!(m.contains("missing dependency"));
    assert_eq!(m, "Failed to start plugin 'b': missing dependency");
}

#[test]
fn reconciliation_twice_writes_once() {
    let mut store = vec![];
    let first = drive(&mut store, &["core/a", "core/b"], &[]);
    assert_eq!(first.upserts.len(), 2);
    let second = drive(&mut store, &["core/a", "core/b"], &[]);
    assert!(second.upserts.is_empty());
    assert_eq!(store.len(), 2);
    assert_eq!(second.phase, Phase::Done);
}

#[test]
fn reconciliation_keeps_existing_record() {
    let mut store = vec![PluginRecord {
        directory: "core/a".to_string(),
        enabled: false,
        url: Some("https://example.com/a".to_string()),
    }];
    let run = drive(&mut store, &["core/a", "core/c"], &[]);
    assert_eq!(run.upserts, vec!["core/c".to_string()]);
    assert!(!store[0].enabled);
    assert_eq!(store[0].url.as_deref(), Some("https://example.com/a"));
    assert_eq!(run.initialized.len(), 2);
}

#[test]
fn installed_plugins_are_initialized_too() {
    let mut store = vec![PluginRecord {
        directory: "user/x".to_string(),
        enabled: true,
        url: Some("https://example.com/x".to_string()),
    }];
    let run = drive(&mut store, &[], &[("user/x", "boom")]);
    assert!(run.upserts.is_empty());
    assert_eq!(run.initialized, vec!["user/x".to_string()]);
    assert_eq!(run.toasts.len(), 1);
    assert_eq!(run.toasts[0].message, "Failed to start plugin 'x': boom");
}

#[test]
fn every_failure_gets_one_toast() {
    let mut store = vec![];
    let run = drive(
        &mut store,
        &["p/one", "p/two", "p/three", "p/four"],
        &[("p/two", "e2"), ("p/four", "e4")],
    );
    assert_eq!(run.initialized.len(), 4);
    assert_eq!(run.toasts.len(), 2);
    assert_eq!(run.toasts[0].message, "Failed to start plugin 'two': e2");
    assert_eq!(run.toasts[1].message, "Failed to start plugin 'four': e4");
    assert_eq!(run.phase, Phase::Done);
}

#[test]
fn no_failures_no_toasts() {
    let mut store = vec![];
    let run = drive(&mut store, &["core/a"], &[]);
    assert!(run.toasts.is_empty());
    assert_eq!(run.phase, Phase::Done);
}

#[test]
fn listing_failure_aborts() {
    let mut b = Bootstrap::new();
    assert!(matches!(b.step(Event::ManagerReady), Action::ListBundled));
    let a = b.step(Event::BundledListed(Err("unreadable".to_string())));
    assert!(matches!(a, Action::Abort(BootstrapError::ListBundled(ref m)) if m == "unreadable"));
    assert_eq!(b.phase, Phase::Aborted);
}

#[test]
fn upsert_failure_aborts() {
    let mut b = Bootstrap::new();
    b.step(Event::ManagerReady);
    let a = b.step(Event::BundledListed(Ok(vec!["core/a".to_string()])));
    assert!(matches!(a, Action::Lookup(ref d) if d == "core/a"));
    let a = b.step(Event::Looked(false));
    assert!(matches!(a, Action::Upsert(ref r) if r.directory == "core/a" && r.enabled && r.url.is_none()));
    let a = b.step(Event::Upserted(Err("disk full".to_string())));
    assert!(matches!(a, Action::Abort(BootstrapError::Upsert(ref m)) if m == "disk full"));
    assert_eq!(b.phase, Phase::Aborted);
    assert!(!b.awaiting_upsert);
}

#[test]
fn load_failure_aborts() {
    let mut b = Bootstrap::new();
    b.step(Event::ManagerReady);
    let a = b.step(Event::BundledListed(Ok(vec![])));
    assert!(matches!(a, Action::LoadAll));
    let a = b.step(Event::Loaded(Err("locked".to_string())));
    assert!(matches!(a, Action::Abort(BootstrapError::LoadPlugins(ref m)) if m == "locked"));
    assert_eq!(b.phase, Phase::Aborted);
}

#[test]
fn out_of_order_events_are_ignored() {
    let mut b = Bootstrap::new();
    assert!(matches!(b.step(Event::Published), Action::Ignore));
    assert!(matches!(b.step(Event::Initialized(vec![])), Action::Ignore));
    assert!(matches!(b.step(Event::Looked(true)), Action::Ignore));
    assert_eq!(b.phase, Phase::Starting);
    b.step(Event::ManagerReady);
    assert!(matches!(b.step(Event::ManagerReady), Action::Ignore));
    assert_eq!(b.phase, Phase::Listing);
}

#[test]
fn exit_drains_once() {
    let mut g = ExitGuard::new();
    assert_eq!(g.on_exit_requested(), ExitAction::Drain);
    assert_eq!(g.on_exit_requested(), ExitAction::Ignore);
    assert_eq!(g.on_exit_requested(), ExitAction::Ignore);
    assert!(g.exiting);
    assert_eq!(EXIT_STATUS, 0);
}

#[test]
fn handle_lookups_share_instance() {
    let mut slot: HandleSlot<String> = HandleSlot::new();
    assert!(slot.get().is_none());
    assert!(slot.publish("runtime".to_string()).is_ok());
    let a = slot.get().unwrap();
    let b = slot.get().unwrap();
    assert!(Arc::ptr_eq(&a, &b));
    assert_eq!(slot.publish("second".to_string()), Err("second".to_string()));
    let c = slot.get().unwrap();
    assert!(Arc::ptr_eq(&a, &c));
    assert_eq!(*c, "runtime");
}

#[test]
fn plugin_name_is_last_segment() {
    assert_eq!(plugin_name("core/b"), "b");
    assert_eq!(plugin_name("a/b/c"), "c");
    assert_eq!(plugin_name("plain"), "plain");
    assert_eq!(plugin_name("trailing/"), "");
    assert_eq!(plugin_name(""), "");
    assert_eq!(plugin_name("/ünï/cødé"), "cødé");
}

#[test]
fn failure_toast_fields() {
    let t = failure_toast(&"/home/u/plugins/auth-basic".to_string(), &"syntax error".to_string());
    assert_eq!(t.message, "Failed to start plugin 'auth-basic': syntax error");
    assert_eq!(t.severity, Severity::Danger);
    assert_eq!(t.icon, Icon::AlertTriangle);
    assert_eq!(t.timeout_ms, 10000);
    assert_eq!(FAILURE_TOAST_TIMEOUT_MS, 10000);
    let ts = failure_toasts(&vec![]);
    assert!(ts.is_empty());
}

#[test]
fn bundled_record_is_enabled_without_url() {
    let r = bundled_record(&"core/a".to_string());
    assert_eq!(r.directory, "core/a");
    assert!(r.enabled);
    assert!(r.url.is_none());
}

#[test]
fn runtime_paths_per_platform() {
    assert_eq!(node_bin_name(true), "yaaknode.exe");
    assert_eq!(node_bin_name(false), "yaaknode");
    let w = runtime_paths(true);
    assert_eq!(w.node_bin, "vendored/node/yaaknode.exe");
    let p = runtime_paths(false);
    assert_eq!(p.node_bin, "vendored/node/yaaknode");
    assert_eq!(p.vendored_plugins, "vendored/plugins");
    assert_eq!(p.installed_plugins, "installed-plugins");
    assert_eq!(p.runtime_dir, "vendored/plugin-runtime");
    assert_eq!(p.runtime_entry, "index.cjs");
}
