//! The import manifest: one synthesized `@use` line per eligible style file,
//! in traversal order. The manifest is the entry module handed to the SASS
//! compiler; an empty manifest is a collection failure, never a valid build.

use crate::alias::alias_of;
use crate::alias::module_alias;
use crate::classify::classify_of;
use crate::classify::classify_path;
use crate::types::StackerError;
use crate::types::StyleExtension;
use vstd::prelude::*;

verus! {

/// Whether a path takes part in the build: its extension classifies to a
/// style kind, and that kind passes the allow-list (an empty allow-list
/// admits all three kinds).
pub open spec fn eligible(p: Seq<char>, allowed: Seq<StyleExtension>) -> bool {
    match classify_of(p) {
        Some(e) => allowed.len() == 0 || allowed.contains(e),
        None => false,
    }
}

/// The import line generated for one discovered file: a `@use` statement
/// binding the file's path to its sanitized alias.
pub open spec fn import_line(p: Seq<char>) -> Seq<char> {
    "@use '"@ + p + "' as "@ + alias_of(p) + ";\n"@
}

/// The whole manifest generated for a list of paths: the import lines of the
/// eligible paths, concatenated in order.
pub open spec fn manifest_of(paths: Seq<Seq<char>>, allowed: Seq<StyleExtension>) -> Seq<char>
    decreases paths.len(),
{
    if paths.len() == 0 {
        Seq::<char>::empty()
    } else {
        manifest_of(paths.drop_last(), allowed) + (if eligible(paths.last(), allowed) {
            import_line(paths.last())
        } else {
            Seq::<char>::empty()
        })
    }
}

/// Law: the manifest is empty exactly when no path is eligible, so an empty
/// build is always distinguishable from a successful one.
pub proof fn lemma_manifest_empty(paths: Seq<Seq<char>>, allowed: Seq<StyleExtension>)
    ensures
        (manifest_of(paths, allowed).len() == 0) <==> (forall|i: int|
            0 <= i < paths.len() ==> !eligible(#[trigger] paths[i], allowed)),
    decreases paths.len(),
{
    reveal_strlit("@use '");
    if paths.len() > 0 {
        lemma_manifest_empty(paths.drop_last(), allowed);
        assert(paths.last() == paths[paths.len() - 1]);
        assert(forall|i: int|
            0 <= i < paths.len() - 1 ==> paths.drop_last()[i] == #[trigger] paths[i]);
        if eligible(paths.last(), allowed) {
            assert(import_line(paths.last()).len() >= 6);
        }
    }
}

/// Extending the path list by one path appends that path's import line when
/// it is eligible, and nothing otherwise.
proof fn lemma_manifest_step(paths: Seq<Seq<char>>, allowed: Seq<StyleExtension>, i: int)
    requires
        0 <= i < paths.len(),
    ensures
        manifest_of(paths.subrange(0, i + 1), allowed) == manifest_of(
            paths.subrange(0, i),
            allowed,
        ) + (if eligible(paths[i], allowed) {
            import_line(paths[i])
        } else {
            Seq::<char>::empty()
        }),
{
    let q = paths.subrange(0, i + 1);
    assert(q.drop_last() =~= paths.subrange(0, i));
    assert(q.last() == paths[i]);
}

/// Builds the import line for one discovered file.
fn build_import_line(path: &str) -> (r: String)
    ensures
        r@ == import_line(path@),
{
    let mut out = String::new();
    out.append("@use '");
    out.append(path);
    out.append("' as ");
    let alias = module_alias(path);
    out.append(alias.as_str());
    out.append(";\n");
    proof {
        assert(out@ =~= import_line(path@));
    }
    out
}

/// Whether the classified kind passes the allow-list: an empty allow-list
/// admits everything, a non-empty one only its members.
fn extension_allowed(allowed: &Vec<StyleExtension>, e: StyleExtension) -> (b: bool)
    ensures
        b == (allowed@.len() == 0 || allowed@.contains(e)),
{
    if allowed.len() == 0 {
        return true;
    }
    let mut i: usize = 0;
    while i < allowed.len()
        invariant
            i <= allowed@.len(),
            forall|j: int| 0 <= j < i ==> allowed@[j] != e,
        decreases allowed@.len() - i,
    {
        if allowed[i] == e {
            proof {
                assert(allowed@.contains(e));
            }
            return true;
        }
        i = i + 1;
    }
    proof {
        assert(!allowed@.contains(e));
    }
    false
}

/// Builds the import manifest for the given file paths: one `@use` line per
/// eligible path, in order. Collection fails exactly when no path is
/// eligible.
pub fn collect_from_paths(paths: &Vec<String>, allowed: &Vec<StyleExtension>) -> (r: Result<
    String,
    StackerError,
>)
    ensures
        (r is Ok) <==> exists|i: int|
            0 <= i < paths.deep_view().len() && eligible(#[trigger] paths.deep_view()[i], allowed@),
        r matches Ok(m) ==> m@ == manifest_of(paths.deep_view(), allowed@),
        r matches Err(e) ==> e matches StackerError::Collect(msg) && msg@ == "No styles found"@,
{
    let ghost ps = paths.deep_view();
    let mut out = String::new();
    let mut found = false;
    proof {
        assert(ps.subrange(0, 0) =~= Seq::<Seq<char>>::empty());
    }
    let mut i: usize = 0;
    while i < paths.len()
        invariant
            ps == paths.deep_view(),
            paths@.len() == ps.len(),
            i <= ps.len(),
            out@ == manifest_of(ps.subrange(0, i as int), allowed@),
            found <==> exists|j: int| 0 <= j < i && eligible(#[trigger] ps[j], allowed@),
        decreases ps.len() - i,
    {
        proof {
            assert(ps[i as int] == paths@[i as int]@);
        }
        let p = &paths[i];
        let elig = match classify_path(p.as_str()) {
            Some(ext) => extension_allowed(allowed, ext),
            None => false,
        };
        proof {
            assert(elig == eligible(ps[i as int], allowed@));
            lemma_manifest_step(ps, allowed@, i as int);
        }
        if elig {
            let line = build_import_line(p.as_str());
            out.append(line.as_str());
            found = true;
        }
        i = i + 1;
    }
    proof {
        assert(ps.subrange(0, ps.len() as int) =~= ps);
    }
    if found {
        Ok(out)
    } else {
        Err(StackerError::Collect(String::from_str("No styles found")))
    }
}

} // verus!
