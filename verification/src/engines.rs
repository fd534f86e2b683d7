//! The external engines behind the pipeline: the SASS compiler that resolves
//! the synthesized manifest into plain CSS, and the CSS engine that parses,
//! structurally minifies and renders the combined stylesheet.

use crate::types::BrowserTargets;
use lightningcss::printer::PrinterOptions;
use lightningcss::stylesheet::MinifyOptions;
use lightningcss::stylesheet::ParserOptions;
use lightningcss::stylesheet::StyleSheet;
use lightningcss::targets::Browsers;
use lightningcss::targets::Targets;
use vstd::prelude::*;

verus! {

/// What the CSS engine returns for a given source text, browser-target set
/// and rendering mode: the rendered stylesheet, or the message of the
/// parse, minification or rendering error. The engine computes this from
/// those three inputs alone.
pub uninterp spec fn engine_result(
    src: Seq<char>,
    targets: Option<BrowserTargets>,
    minify: bool,
) -> Result<Seq<char>, Seq<char>>;

/// The rendering the CSS engine produces for a given source text,
/// browser-target set and rendering mode, or `None` when it fails.
pub open spec fn compiled_css(
    src: Seq<char>,
    targets: Option<BrowserTargets>,
    minify: bool,
) -> Option<Seq<char>> {
    match engine_result(src, targets, minify) {
        Ok(s) => Some(s),
        Err(_) => None,
    }
}

/// Relies on `grass::from_string`: compiles SASS source text, resolving the
/// `@use` imports it names from the filesystem, into plain CSS, or reports
/// a compile error. The outcome depends on the files those imports name, so
/// nothing more is assumed of it.
#[verifier::external_body]
pub(crate) fn grass_compile(source: String) -> (r: Result<String, String>) {
    grass::from_string(source, &grass::Options::default()).map_err(|e| e.to_string())
}

/// Relies on lightningcss's `Browsers::from_browserslist`: resolves the
/// given browserslist query against the bundled browser data. The outcome
/// can shift with that data snapshot and with the current date, so nothing
/// more is assumed of it.
#[verifier::external_body]
pub(crate) fn resolve_targets(query: &str) -> (r: Result<Option<BrowserTargets>, String>) {
    match Browsers::from_browserslist([query]) {
        Ok(b) => Ok(b.map(|t| BrowserTargets {
            android: t.android, chrome: t.chrome, edge: t.edge, firefox: t.firefox,
            ie: t.ie, ios_saf: t.ios_saf, opera: t.opera, safari: t.safari, samsung: t.samsung,
        })),
        Err(e) => Err(e.to_string()),
    }
}

/// Relies on lightningcss's `StyleSheet::parse`, `StyleSheet::minify` and
/// `StyleSheet::to_css`: parses the source, applies structural minification
/// against the given browser targets, and renders the sheet, compacting
/// whitespace when `minify` asks for it. All three compute from the source
/// text and the options alone — their error messages included — which is
/// what `engine_result` names.
#[verifier::external_body]
pub(crate) fn engine_compile(source: &str, targets: Option<BrowserTargets>, minify: bool) -> (r:
    Result<String, String>)
    ensures
        r matches Ok(s) ==> engine_result(source@, targets, minify) matches Ok(es) && es == s@,
        r matches Err(m) ==> engine_result(source@, targets, minify) matches Err(em) && em == m@,
{
    let browsers = targets.map(|t| Browsers {
        android: t.android, chrome: t.chrome, edge: t.edge, firefox: t.firefox,
        ie: t.ie, ios_saf: t.ios_saf, opera: t.opera, safari: t.safari, samsung: t.samsung,
    });
    let mut sheet = StyleSheet::parse(source, ParserOptions::default()).map_err(|e| e.to_string())?;
    let minify_targets = Targets { browsers, ..Targets::default() };
    sheet.minify(MinifyOptions { targets: minify_targets, ..MinifyOptions::default() }).map_err(|e| e.to_string())?;
    sheet.to_css(PrinterOptions { minify, ..PrinterOptions::default() }).map(|o| o.code).map_err(|e| e.to_string())
}

} // verus!
