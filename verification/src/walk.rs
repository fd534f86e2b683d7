//! Discovery of candidate files: an ignore-aware walk of the directory tree
//! under the configured root.

use vstd::prelude::*;

verus! {

/// Whether a discovered path lies under the walked root: the root's own
/// text is a prefix of it.
pub open spec fn under_root(p: Seq<char>, root: Seq<char>) -> bool {
    p.len() >= root.len() && p.subrange(0, root.len() as int) == root
}

/// Relies on `ignore::WalkBuilder`: walks the directory tree under `root`,
/// skipping hidden entries (unless an ignore file whitelists them) and
/// entries matched by `.gitignore`-style ignore files; an entry whose
/// traversal errors is skipped and the walk goes on. The walker maps a root
/// of `-` to a stdin pseudo-entry whose path is not a filesystem path, so
/// that entry is dropped too. Every remaining path is the root itself or a
/// path joined beneath it, so the root's text prefixes each of them. What
/// the walk finds depends on the filesystem, so nothing more is assumed of
/// it.
#[verifier::external_body]
pub(crate) fn walk_paths(root: &str) -> (r: Vec<String>)
    ensures
        forall|i: int| 0 <= i < r@.len() ==> under_root(#[trigger] r@[i]@, root@),
{
    let mut out = Vec::new();
    for entry in ignore::WalkBuilder::new(root).hidden(true).build() {
        if let Ok(e) = entry {
            if !e.is_stdin() {
                out.push(e.path().display().to_string());
            }
        }
    }
    out
}

} // verus!
