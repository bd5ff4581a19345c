//! Logical resource paths that the plugin runtime is started from.
use vstd::prelude::*;
use vstd::string::StringExecFns;

verus! {

/// The resource directory holding the plugins that ship with the application.
pub open spec fn spec_vendored_plugins() -> Seq<char> {
    "vendored/plugins"@
}

/// The directory, under the application data directory, for user-installed plugins.
pub open spec fn spec_installed_plugins() -> Seq<char> {
    "installed-plugins"@
}

/// The file name of the runtime executable: the Windows build carries the
/// `.exe` suffix, every other target uses the base name.
pub open spec fn spec_node_bin_name(target_windows: bool) -> Seq<char> {
    if target_windows {
        "yaaknode.exe"@
    } else {
        "yaaknode"@
    }
}

/// The resource path of the runtime executable.
pub open spec fn spec_node_bin_resource(target_windows: bool) -> Seq<char> {
    "vendored/node/"@ + spec_node_bin_name(target_windows)
}

/// The resource directory of the runtime's entry module.
pub open spec fn spec_runtime_dir() -> Seq<char> {
    "vendored/plugin-runtime"@
}

/// The entry module's file name inside the runtime directory.
pub open spec fn spec_runtime_entry() -> Seq<char> {
    "index.cjs"@
}

/// The four locations the host resolves before it builds the plugin runtime.
/// Resource paths are relative to the application's resource bundle;
/// `installed_plugins` is relative to the application data directory;
/// `runtime_entry` is joined onto the resolved `runtime_dir`.
pub struct RuntimePaths {
    pub vendored_plugins: String,
    pub installed_plugins: String,
    pub node_bin: String,
    pub runtime_dir: String,
    pub runtime_entry: String,
}

impl RuntimePaths {
    pub open spec fn spec_for(self, target_windows: bool) -> bool {
        &&& self.vendored_plugins@ == spec_vendored_plugins()
        &&& self.installed_plugins@ == spec_installed_plugins()
        &&& self.node_bin@ == spec_node_bin_resource(target_windows)
        &&& self.runtime_dir@ == spec_runtime_dir()
        &&& self.runtime_entry@ == spec_runtime_entry()
    }
}

/// The runtime executable's file name for the given target.
pub fn node_bin_name(target_windows: bool) -> (r: String)
    ensures
        r@ == spec_node_bin_name(target_windows),
{
    if target_windows {
        String::from_str("yaaknode.exe")
    } else {
        String::from_str("yaaknode")
    }
}

/// The locations to resolve for the given target.
pub fn runtime_paths(target_windows: bool) -> (r: RuntimePaths)
    ensures
        r.spec_for(target_windows),
{
    let name = node_bin_name(target_windows);
    let node_bin = String::from_str("vendored/node/").concat(name.as_str());
    RuntimePaths {
        vendored_plugins: String::from_str("vendored/plugins"),
        installed_plugins: String::from_str("installed-plugins"),
        node_bin,
        runtime_dir: String::from_str("vendored/plugin-runtime"),
        runtime_entry: String::from_str("index.cjs"),
    }
}

} // verus!
