//! The pipeline orchestrator: collect the style files under the root,
//! preprocess the synthesized manifest, transform the combined stylesheet,
//! and plan the output files. Each stage's failure is tagged with its stage
//! and short-circuits the rest.

use crate::engines::compiled_css;
use crate::engines::engine_compile;
use crate::engines::engine_result;
use crate::engines::grass_compile;
use crate::engines::resolve_targets;
use crate::manifest::collect_from_paths;
use crate::manifest::eligible;
use crate::manifest::lemma_manifest_empty;
use crate::manifest::manifest_of;
use crate::output::output_path;
use crate::output::plan_outputs;
use crate::output::StackerPlan;
use crate::types::BrowserTargets;
use crate::types::Format;
use crate::types::StackerError;
use crate::types::StyleExtension;
use crate::walk::under_root;
use crate::walk::walk_paths;
use vstd::prelude::*;

verus! {

/// Configuration of one run.
pub struct StackerOptions {
    /// Root of the directory tree containing the styles.
    pub path: String,
    /// Restricts the processed file kinds; empty admits all three.
    pub extensions: Vec<StyleExtension>,
    /// Output directory; the current directory when absent.
    pub output_dir: Option<String>,
    /// Base name of the output files; `styles` when absent.
    pub output_name: Option<String>,
    /// Requested output format; both renderings when absent.
    pub output_format: Option<Format>,
    /// Whether the surrounding application should narrate progress.
    pub verbose: bool,
}

/// The output base name chosen for a run: the configured one, or `styles`.
pub open spec fn chosen_name(options: StackerOptions) -> Seq<char> {
    match options.output_name {
        Some(n) => n@,
        None => "styles"@,
    }
}

/// The output directory chosen for a run: the configured one, or the
/// current directory.
pub open spec fn chosen_dir(options: StackerOptions) -> Seq<char> {
    match options.output_dir {
        Some(d) => d@,
        None => "."@,
    }
}

/// The pipeline's stages, as associated functions.
pub struct Stacker;

impl Stacker {
    /// Walks the tree under `path` and builds the import manifest from the
    /// discovered files: one `@use` line per eligible path, in traversal
    /// order. Fails exactly when nothing eligible was found; a successful
    /// manifest is never empty, and is the generated text of some list of
    /// paths under the root, at least one of them eligible.
    pub fn collect(path: &str, allowed_extensions: &Vec<StyleExtension>) -> (r: Result<
        String,
        StackerError,
    >)
        ensures
            r matches Ok(m) ==> m@.len() > 0,
            r matches Ok(m) ==> exists|ps: Seq<Seq<char>>|
                {
                    &&& (forall|i: int| 0 <= i < ps.len() ==> under_root(#[trigger] ps[i], path@))
                    &&& m@ == #[trigger] manifest_of(ps, allowed_extensions@)
                    &&& exists|i: int|
                        0 <= i < ps.len() && eligible(#[trigger] ps[i], allowed_extensions@)
                },
            r matches Err(e) ==> e matches StackerError::Collect(msg) && msg@
                == "No styles found"@,
    {
        let paths = walk_paths(path);
        let r = collect_from_paths(&paths, allowed_extensions);
        proof {
            if r is Ok {
                let ps = paths.deep_view();
                assert forall|i: int| 0 <= i < ps.len() implies under_root(
                    #[trigger] ps[i],
                    path@,
                ) by {
                    assert(ps[i] == paths@[i]@);
                }
                assert({
                    &&& (forall|i: int| 0 <= i < ps.len() ==> under_root(#[trigger] ps[i], path@))
                    &&& r->Ok_0@ == #[trigger] manifest_of(ps, allowed_extensions@)
                    &&& exists|i: int|
                        0 <= i < ps.len() && eligible(#[trigger] ps[i], allowed_extensions@)
                });
                lemma_manifest_empty(ps, allowed_extensions@);
            }
        }
        r
    }

    /// Hands the synthesized manifest to the SASS compiler and returns the
    /// combined stylesheet it produces; a compiler rejection is wrapped as a
    /// preprocessing error.
    pub fn process_sass(raw_styles: String) -> (r: Result<String, StackerError>)
        ensures
            r matches Err(e) ==> e matches StackerError::Sass(_),
    {
        match grass_compile(raw_styles) {
            Ok(css) => Ok(css),
            Err(m) => Err(StackerError::Sass(m)),
        }
    }

    /// Parses the combined stylesheet, applies structural minification for
    /// the given browser targets, and renders it according to the requested
    /// format: only the pretty rendering, only the minified one, or both
    /// when no format was requested. Succeeds exactly when the engine
    /// renders every requested rendering, and returns precisely those
    /// renderings; any engine failure is wrapped as a transform error that
    /// carries the engine's own message.
    pub fn sass_to_css(sass: &str, targets: Option<BrowserTargets>, format: Option<Format>) -> (r:
        Result<(Option<String>, Option<String>), StackerError>)
        ensures
            match format {
                Some(Format::Minified) => {
                    &&& (r is Ok) == (compiled_css(sass@, targets, true) is Some)
                    &&& r matches Ok(t) ==> ({
                        &&& t.0 is None
                        &&& t.1 matches Some(m) && compiled_css(sass@, targets, true) == Some(m@)
                    })
                    &&& r matches Err(e) ==> (e matches StackerError::Stylesheet(m)
                        && engine_result(sass@, targets, true) matches Err(em) && em == m@)
                },
                Some(Format::Pretty) => {
                    &&& (r is Ok) == (compiled_css(sass@, targets, false) is Some)
                    &&& r matches Ok(t) ==> ({
                        &&& t.1 is None
                        &&& t.0 matches Some(p) && compiled_css(sass@, targets, false) == Some(p@)
                    })
                    &&& r matches Err(e) ==> (e matches StackerError::Stylesheet(m)
                        && engine_result(sass@, targets, false) matches Err(em) && em == m@)
                },
                None => {
                    &&& (r is Ok) == (compiled_css(sass@, targets, true) is Some && compiled_css(
                        sass@,
                        targets,
                        false,
                    ) is Some)
                    &&& r matches Ok(t) ==> ({
                        &&& t.0 matches Some(p) && compiled_css(sass@, targets, false) == Some(p@)
                        &&& t.1 matches Some(m) && compiled_css(sass@, targets, true) == Some(m@)
                    })
                    &&& r matches Err(e) ==> (e matches StackerError::Stylesheet(m) && ({
                        if engine_result(sass@, targets, true) is Err {
                            engine_result(sass@, targets, true) matches Err(em) && em == m@
                        } else {
                            engine_result(sass@, targets, false) matches Err(em) && em == m@
                        }
                    }))
                },
            },
            r matches Err(e) ==> e matches StackerError::Stylesheet(_),
    {
        match format {
            Some(Format::Minified) => match engine_compile(sass, targets, true) {
                Ok(css_min) => Ok((None, Some(css_min))),
                Err(m) => Err(StackerError::Stylesheet(m)),
            },
            Some(Format::Pretty) => match engine_compile(sass, targets, false) {
                Ok(css) => Ok((Some(css), None)),
                Err(m) => Err(StackerError::Stylesheet(m)),
            },
            None => {
                let css_min = match engine_compile(sass, targets, true) {
                    Ok(c) => c,
                    Err(m) => return Err(StackerError::Stylesheet(m)),
                };
                let css = match engine_compile(sass, targets, false) {
                    Ok(c) => c,
                    Err(m) => return Err(StackerError::Stylesheet(m)),
                };
                Ok((Some(css), Some(css_min)))
            },
        }
    }

    /// Runs the whole pipeline for one configuration and returns the
    /// planned output files. On success the plan holds the pretty rendering
    /// exactly unless only the minified one was requested, and the minified
    /// rendering exactly unless only the pretty one was requested, each at
    /// its derived destination; a failed run reports the first failing
    /// stage's error, and planning itself never reports a persistence
    /// failure.
    pub fn create(options: StackerOptions) -> (r: Result<StackerPlan, StackerError>)
        ensures
            r matches Ok(plan) ==> ({
                &&& plan.pretty is Some || plan.minified is Some
                &&& (plan.pretty is Some) == !(options.output_format == Some(Format::Minified))
                &&& (plan.minified is Some) == !(options.output_format == Some(Format::Pretty))
                &&& plan.pretty matches Some(f) ==> f.path@ == output_path(
                    chosen_dir(options),
                    chosen_name(options),
                    false,
                )
                &&& plan.minified matches Some(f) ==> f.path@ == output_path(
                    chosen_dir(options),
                    chosen_name(options),
                    true,
                )
            }),
            r matches Err(e) ==> !(e matches StackerError::Save(_)),
            r matches Err(e) ==> (e matches StackerError::Collect(msg) ==> msg@
                == "No styles found"@),
    {
        let filename = match options.output_name {
            Some(n) => n,
            None => String::from_str("styles"),
        };
        let output_directory = match options.output_dir {
            Some(d) => d,
            None => String::from_str("."),
        };
        let styles = match Self::collect(options.path.as_str(), &options.extensions) {
            Ok(m) => m,
            Err(e) => return Err(e),
        };
        let sass = match Self::process_sass(styles) {
            Ok(s) => s,
            Err(e) => return Err(e),
        };
        // The fixed browser-support baseline the transform compiles for:
        // modern evergreen browsers plus maintained long-term-support
        // targets.
        let baseline = ">0.3%, defaults, supports es6-module, maintained node versions";
        let targets = match resolve_targets(baseline) {
            Ok(t) => t,
            Err(m) => return Err(StackerError::Stylesheet(m)),
        };
        let (pretty, minified) = match Self::sass_to_css(
            sass.as_str(),
            targets,
            options.output_format,
        ) {
            Ok(p) => p,
            Err(e) => return Err(e),
        };
        Ok(plan_outputs(output_directory.as_str(), filename.as_str(), pretty, minified))
    }
}

} // verus!
