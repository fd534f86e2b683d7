//! Tests of the pure pipeline stages: alias generation, classification,
//! manifest building, the transform stage on literal stylesheets, and
//! output planning.

use css_stacker::Format;
use css_stacker::Stacker;
use css_stacker::StackerError;
use css_stacker::StackerOptions;
use css_stacker::StyleExtension;
use css_stacker::collect_from_paths;
use css_stacker::module_alias;
use css_stacker::path_extension;
use css_stacker::plan_outputs;

#[test]
fn test_alias_sanitization() {
    let alias = module_alias("./a/b_c.scss");
    assert_eq!(alias, "__a_b-c_scss");
    assert!(!alias.contains('/'));
    assert!(!alias.contains('.'));
    assert!(!alias.contains('\\'));
    assert!(alias.chars().all(|c| c.is_ascii_alphanumeric() || c == '-' || c == '_'));
}

#[test]
fn test_alias_examples() {
    assert_eq!(module_alias("a/b.scss"), "a_b_scss");
    assert_eq!(module_alias("a-b.scss"), "a-b_scss");
    assert_eq!(module_alias(""), "");
    assert_eq!(module_alias("weird !@#$ name.css"), "weirdname_css");
    assert_eq!(module_alias("dir\\file.sass"), "dir_file_sass");
}

#[test]
fn test_classifier() {
    assert_eq!(StyleExtension::from_extension(Some("css")), Some(StyleExtension::Css));
    assert_eq!(StyleExtension::from_extension(Some("CSS")), Some(StyleExtension::Css));
    assert_eq!(StyleExtension::from_extension(Some("sCsS")), Some(StyleExtension::Scss));
    assert_eq!(StyleExtension::from_extension(Some("sass")), Some(StyleExtension::Sass));
    assert_eq!(StyleExtension::from_extension(Some("SASS")), Some(StyleExtension::Sass));
    assert_eq!(StyleExtension::from_extension(Some("txt")), None);
    assert_eq!(StyleExtension::from_extension(Some("csss")), None);
    assert_eq!(StyleExtension::from_extension(Some("")), None);
    assert_eq!(StyleExtension::from_extension(None), None);
}

#[test]
fn test_path_extension() {
    assert_eq!(path_extension("a/b.css"), Some("css".to_string()));
    assert_eq!(path_extension("b.SCSS"), Some("SCSS".to_string()));
    assert_eq!(path_extension(".hidden"), None);
    assert_eq!(path_extension("dir/.hidden"), None);
    assert_eq!(path_extension("noext"), None);
    assert_eq!(path_extension("a.b.c"), Some("c".to_string()));
    assert_eq!(path_extension("dir.d/file"), None);
    assert_eq!(path_extension("foo."), Some(String::new()));
    assert_eq!(path_extension(""), None);
    assert_eq!(path_extension("dir/"), None);
}

#[test]
fn test_allow_list_filtering() {
    let paths = vec!["a.css".to_string(), "b.scss".to_string(), "c.sass".to_string()];
    let manifest = collect_from_paths(&paths, &vec![StyleExtension::Sass]).unwrap();
    assert_eq!(manifest, "@use 'c.sass' as c_sass;\n");
}

#[test]
fn test_collect_all_kinds() {
    let paths = vec!["a.css".to_string(), "b.scss".to_string(), "c.sass".to_string()];
    let manifest = collect_from_paths(&paths, &Vec::new()).unwrap();
    assert_eq!(
        manifest,
        "@use 'a.css' as a_css;\n@use 'b.scss' as b_scss;\n@use 'c.sass' as c_sass;\n"
    );
}

#[test]
fn test_collect_skips_unclassified() {
    let paths = vec![
        "readme.txt".to_string(),
        "styles/main.scss".to_string(),
        ".env".to_string(),
        "Makefile".to_string(),
    ];
    let manifest = collect_from_paths(&paths, &Vec::new()).unwrap();
    assert_eq!(manifest, "@use 'styles/main.scss' as styles_main_scss;\n");
}

#[test]
fn test_collect_error_when_all_filtered() {
    let paths = vec!["a.css".to_string(), "b.scss".to_string()];
    let r = collect_from_paths(&paths, &vec![StyleExtension::Sass]);
    match r {
        Err(StackerError::Collect(msg)) => assert_eq!(msg, "No styles found"),
        _ => panic!("expected a collection error"),
    }
}

#[test]
fn test_collect_error_when_empty() {
    let r = collect_from_paths(&Vec::new(), &Vec::new());
    match r {
        Err(StackerError::Collect(msg)) => assert_eq!(msg, "No styles found"),
        _ => panic!("expected a collection error"),
    }
}

#[test]
fn test_error_messages() {
    assert_eq!(
        StackerError::Collect("No styles found".to_string()).message(),
        "Failed to collect style files : No styles found"
    );
    assert_eq!(StackerError::Sass("x".to_string()).message(), "Failed to process SASS : x");
    assert_eq!(StackerError::Stylesheet("y".to_string()).message(), "Failed to process CSS : y");
    assert_eq!(StackerError::Save("z".to_string()).message(), "Failed to save styles : z");
}

#[test]
fn test_process_sass() {
    let css = Stacker::process_sass("a { b { color: red; } }".to_string()).unwrap();
    assert_eq!(css, "a b {\n  color: red;\n}\n");
}

#[test]
fn test_process_sass_error() {
    let r = Stacker::process_sass("a {{{".to_string());
    match r {
        Err(StackerError::Sass(_)) => {}
        _ => panic!("expected a preprocessing error"),
    }
}

#[test]
fn test_transform_minified() {
    let r = Stacker::sass_to_css(".x { color : red ; }", None, Some(Format::Minified)).unwrap();
    assert_eq!(r.0, None);
    assert_eq!(r.1, Some(".x{color:red}".to_string()));
}

#[test]
fn test_transform_pretty() {
    let r = Stacker::sass_to_css(".x { color : red ; }", None, Some(Format::Pretty)).unwrap();
    assert_eq!(r.0, Some(".x {\n  color: red;\n}\n".to_string()));
    assert_eq!(r.1, None);
}

#[test]
fn test_transform_both_by_default() {
    let r = Stacker::sass_to_css(".x { color : red ; }", None, None).unwrap();
    assert_eq!(r.0, Some(".x {\n  color: red;\n}\n".to_string()));
    assert_eq!(r.1, Some(".x{color:red}".to_string()));
}

#[test]
fn test_transform_error() {
    let r = Stacker::sass_to_css("not css }{", None, None);
    match r {
        Err(StackerError::Stylesheet(_)) => {}
        _ => panic!("expected a transform error"),
    }
}

#[test]
fn test_transform_scenario_two_rules() {
    // The combined stylesheet of `.x{color:red;}` and `.y{color:red;}`: the
    // minified rendering carries the same two rules as the pretty one,
    // differing only in whitespace and structural compaction.
    let source = ".x {\n  color: red;\n}\n.y {\n  color: red;\n}\n";
    let r = Stacker::sass_to_css(source, None, None).unwrap();
    let pretty = r.0.unwrap();
    let minified = r.1.unwrap();
    assert_eq!(minified, ".x,.y{color:red}");
    assert_eq!(pretty, ".x, .y {\n  color: red;\n}\n");
}

#[test]
fn test_transform_error_message_deterministic() {
    // The wrapped transform error carries the engine's own message, which
    // is a function of the same inputs as the rendering.
    let first = Stacker::sass_to_css("not css }{", None, None);
    let second = Stacker::sass_to_css("not css }{", None, None);
    match (first, second) {
        (Err(StackerError::Stylesheet(a)), Err(StackerError::Stylesheet(b))) => {
            assert!(!a.is_empty());
            assert_eq!(a, b);
        }
        _ => panic!("expected two transform errors"),
    }
}

#[test]
fn test_collect_deterministic() {
    let paths = vec!["a.css".to_string(), "b.scss".to_string(), "c.sass".to_string()];
    let first = collect_from_paths(&paths, &Vec::new()).unwrap();
    let second = collect_from_paths(&paths, &Vec::new()).unwrap();
    assert_eq!(first, second);
}

#[test]
fn test_transform_deterministic() {
    let first = Stacker::sass_to_css(".a { margin : 0 ; }", None, None).unwrap();
    let second = Stacker::sass_to_css(".a { margin : 0 ; }", None, None).unwrap();
    assert_eq!(first.0, second.0);
    assert_eq!(first.1, second.1);
}

#[test]
fn test_run_no_styles() {
    // The crate's own source tree holds no style files, so a whole run over
    // it fails with a collection error and plans nothing.
    let options = StackerOptions {
        path: "src".to_string(),
        extensions: Vec::new(),
        output_dir: None,
        output_name: None,
        output_format: None,
        verbose: false,
    };
    match Stacker::create(options) {
        Err(StackerError::Collect(msg)) => assert_eq!(msg, "No styles found"),
        _ => panic!("expected a collection error"),
    }
}

#[test]
fn test_collect_walks_but_finds_nothing() {
    let r = Stacker::collect("tests", &Vec::new());
    match r {
        Err(StackerError::Collect(msg)) => assert_eq!(msg, "No styles found"),
        _ => panic!("expected a collection error"),
    }
}

#[test]
fn test_plan_outputs_paths() {
    let plan = plan_outputs("out", "styles", Some("p".to_string()), Some("m".to_string()));
    let pretty = plan.pretty.as_ref().unwrap();
    let minified = plan.minified.as_ref().unwrap();
    assert_eq!(pretty.path, "out/styles.css");
    assert_eq!(pretty.contents, "p");
    assert_eq!(minified.path, "out/styles.min.css");
    assert_eq!(minified.contents, "m");
    let output = plan.output();
    assert_eq!(output.pretty, Some("out/styles.css".to_string()));
    assert_eq!(output.minified, Some("out/styles.min.css".to_string()));
}

#[test]
fn test_plan_outputs_absent_rendering() {
    let plan = plan_outputs(".", "test", None, Some("m".to_string()));
    assert!(plan.pretty.is_none());
    assert_eq!(plan.minified.as_ref().unwrap().path, "./test.min.css");
    let output = plan.output();
    assert_eq!(output.pretty, None);
    assert_eq!(output.minified, Some("./test.min.css".to_string()));
}
