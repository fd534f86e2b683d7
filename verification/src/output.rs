//! Output planning: derives the destination path of each requested
//! rendering and pairs it with the full text to persist. Writing the files
//! themselves is left to the surrounding application.

use vstd::prelude::*;

verus! {

/// One planned output file: where it goes and the full text to write there.
pub struct PlannedFile {
    pub path: String,
    pub contents: String,
}

/// The outcome of a successful run before persistence: the planned pretty
/// and/or minified output files, at least one of which is always present.
pub struct StackerPlan {
    pub pretty: Option<PlannedFile>,
    pub minified: Option<PlannedFile>,
}

/// The concrete destination paths of a run, one per requested rendering.
pub struct StackerOutput {
    pub pretty: Option<String>,
    pub minified: Option<String>,
}

/// The destination derived for one rendering: `<dir>/<name>.css` for the
/// pretty rendering, `<dir>/<name>.min.css` for the minified one.
pub open spec fn output_path(dir: Seq<char>, name: Seq<char>, minified: bool) -> Seq<char> {
    dir + "/"@ + name + (if minified {
        ".min.css"@
    } else {
        ".css"@
    })
}

/// Joins one destination path from its parts.
fn build_output_path(output_dir: &str, filename: &str, minified: bool) -> (r: String)
    ensures
        r@ == output_path(output_dir@, filename@, minified),
{
    let mut p = String::new();
    p.append(output_dir);
    p.append("/");
    p.append(filename);
    if minified {
        p.append(".min.css");
    } else {
        p.append(".css");
    }
    proof {
        assert(p@ =~= output_path(output_dir@, filename@, minified));
    }
    p
}

/// Derives the destination paths and pairs each present rendering with its
/// destination; a rendering that was never produced yields no planned file.
pub fn plan_outputs(
    output_dir: &str,
    filename: &str,
    pretty: Option<String>,
    minified: Option<String>,
) -> (r: StackerPlan)
    ensures
        (r.pretty is Some) == (pretty is Some),
        (r.minified is Some) == (minified is Some),
        r.pretty matches Some(f) ==> ({
            &&& f.path@ == output_path(output_dir@, filename@, false)
            &&& pretty matches Some(c) && f.contents@ == c@
        }),
        r.minified matches Some(f) ==> ({
            &&& f.path@ == output_path(output_dir@, filename@, true)
            &&& minified matches Some(c) && f.contents@ == c@
        }),
{
    let pretty_file = match pretty {
        Some(c) => Some(
            PlannedFile { path: build_output_path(output_dir, filename, false), contents: c },
        ),
        None => None,
    };
    let minified_file = match minified {
        Some(c) => Some(
            PlannedFile { path: build_output_path(output_dir, filename, true), contents: c },
        ),
        None => None,
    };
    StackerPlan { pretty: pretty_file, minified: minified_file }
}

impl StackerPlan {
    /// The destination paths of the planned files, one per rendering.
    pub fn output(&self) -> (r: StackerOutput)
        ensures
            (r.pretty is Some) == (self.pretty is Some),
            (r.minified is Some) == (self.minified is Some),
            r.pretty matches Some(p) ==> self.pretty matches Some(f) && p@ == f.path@,
            r.minified matches Some(p) ==> self.minified matches Some(f) && p@ == f.path@,
    {
        let pretty = match &self.pretty {
            Some(f) => Some(f.path.clone()),
            None => None,
        };
        let minified = match &self.minified {
            Some(f) => Some(f.path.clone()),
            None => None,
        };
        StackerOutput { pretty, minified }
    }
}

} // verus!
