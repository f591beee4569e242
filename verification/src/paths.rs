//! Where the Fibonacci host looks for its guest builds by default: under
//! the workspace's `target` directory, the workspace being the parent of
//! the host's own directory.

use vstd::prelude::*;

verus! {

/// What `Path::parent` gives for the path spelled `path`, spelled back.
pub uninterp spec fn path_parent_text(path: Seq<char>) -> Option<Seq<char>>;

/// What `Path::join` gives for `base` and `component`, spelled back.
pub uninterp spec fn path_join_text(base: Seq<char>, component: Seq<char>) -> Seq<char>;

/// Calls `std::path::Path::parent` on the path spelled `path` and spells
/// the parent back (`to_string_lossy`, exact for text that came from a
/// `&str`). The result is named `path_parent_text`.
#[verifier::external_body]
fn path_parent(path: &str) -> (parent: Option<String>)
    ensures
        match parent {
            Some(p) => path_parent_text(path@) == Some(p@),
            None => path_parent_text(path@) is None,
        },
{
    match std::path::Path::new(path).parent() {
        Some(p) => Some(p.to_string_lossy().into_owned()),
        None => None,
    }
}

/// Calls `std::path::Path::join` on the paths spelled `base` and
/// `component` and spells the result back (`to_string_lossy`, exact for
/// text that came from `&str`s). The result is named `path_join_text`.
#[verifier::external_body]
fn path_join(base: &str, component: &str) -> (joined: String)
    ensures
        joined@ == path_join_text(base@, component@),
{
    std::path::Path::new(base).join(component).to_string_lossy().into_owned()
}

/// The workspace root: the parent of the host crate's directory, if it
/// has one.
pub fn workspace_root(host_dir: &str) -> (root: Option<String>)
    ensures
        match root {
            Some(r) => path_parent_text(host_dir@) == Some(r@),
            None => path_parent_text(host_dir@) is None,
        },
{
    path_parent(host_dir)
}

/// `root/target/<target>/release/<file>`.
pub open spec fn spec_release_artifact(root: Seq<char>, target: Seq<char>, file: Seq<char>) -> Seq<char> {
    path_join_text(
        path_join_text(path_join_text(path_join_text(root, "target"@), target), "release"@),
        file,
    )
}

/// The path of a release build artifact for `target` under `root`.
fn release_artifact(root: &str, target: &str, file: &str) -> (path: String)
    ensures
        path@ == spec_release_artifact(root@, target@, file@),
{
    let dir = path_join(root, "target");
    let dir = path_join(dir.as_str(), target);
    let dir = path_join(dir.as_str(), "release");
    path_join(dir.as_str(), file)
}

/// Where the async Fibonacci guest component is built.
pub fn default_fib_guest_path(root: &str) -> (path: String)
    ensures
        path@ == spec_release_artifact(root@, "wasm32-wasip2"@, "rust_wasm_fib_guest.wasm"@),
{
    release_artifact(root, "wasm32-wasip2", "rust_wasm_fib_guest.wasm")
}

/// Where the demo's supervisor module is built.
pub fn default_fail_supervisor_path(root: &str) -> (path: String)
    ensures
        path@ == spec_release_artifact(
            root@,
            "wasm32-wasip1"@,
            "rust_wasm_fib_guest_fail_supervisor.wasm"@,
        ),
{
    release_artifact(root, "wasm32-wasip1", "rust_wasm_fib_guest_fail_supervisor.wasm")
}

/// Where the demo's failing child module is built.
pub fn default_fail_child_path(root: &str) -> (path: String)
    ensures
        path@ == spec_release_artifact(root@, "wasm32-wasip1"@, "rust_wasm_fib_guest_fail_child.wasm"@),
{
    release_artifact(root, "wasm32-wasip1", "rust_wasm_fib_guest_fail_child.wasm")
}

} // verus!
