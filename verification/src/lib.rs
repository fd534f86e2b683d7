//! Stacks a tree of stylesheet sources (CSS, SCSS, SASS) into one compiled,
//! optionally minified, CSS artifact.
//!
//! The pipeline discovers eligible style files under a root directory,
//! synthesizes a single entry module that imports all of them, compiles that
//! module through a SASS compiler, runs the result through a CSS transformer,
//! and plans one or two output files (pretty and/or minified).

mod alias;
mod classify;
mod engines;
mod manifest;
mod output;
mod stacker;
mod types;
mod walk;

pub use alias::alias_of;
pub use alias::fold_char;
pub use alias::is_alias_char;
pub use alias::lemma_alias_chars;
pub use alias::module_alias;
pub use classify::classify_chars;
pub use classify::classify_of;
pub use classify::classify_path;
pub use classify::extension_of;
pub use classify::lower_u32;
pub use classify::matches_ci;
pub use classify::path_extension;
pub use engines::compiled_css;
pub use engines::engine_result;
pub use manifest::collect_from_paths;
pub use manifest::eligible;
pub use manifest::import_line;
pub use manifest::lemma_manifest_empty;
pub use manifest::manifest_of;
pub use output::output_path;
pub use output::plan_outputs;
pub use output::PlannedFile;
pub use output::StackerOutput;
pub use output::StackerPlan;
pub use stacker::chosen_dir;
pub use stacker::chosen_name;
pub use stacker::Stacker;
pub use stacker::StackerOptions;
pub use types::BrowserTargets;
pub use types::Format;
pub use types::StackerError;
pub use types::StyleExtension;
pub use walk::under_root;
