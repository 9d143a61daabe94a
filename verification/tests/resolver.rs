use xmlfmt::config::EntityMode;
use xmlfmt::config::FormatConfig;
use xmlfmt::resolve::Diagnostic;
use xmlfmt::resolve::InputSource;
use xmlfmt::resolve::InvocationArguments;
use xmlfmt::resolve::OutputSink;
use xmlfmt::resolve::Resolution;
use xmlfmt::resolve::resolve;

fn args(
    input_path: Option<&str>,
    output_path: Option<&str>,
    is_replace: bool,
) -> InvocationArguments {
    InvocationArguments {
        input_path: input_path.map(|s| s.to_string()),
        output_path: output_path.map(|s| s.to_string()),
        is_replace,
        indent: None,
        max_line_length: None,
        uses_hex_entities: false,
        is_no_text_indent: false,
    }
}

#[test]
fn default_flags_select_file_input_and_stdout() {
    match resolve(args(Some("a.xml"), None, false), false) {
        Resolution::Request(req) => {
            match req.input {
                InputSource::File(p) => assert_eq!(p, "a.xml"),
                InputSource::Stdin => panic!("expected file input"),
            }
            assert!(matches!(req.output, OutputSink::Stdout));
            assert_eq!(req.config.indent, 2);
            assert_eq!(req.config.max_line_length, 120);
            assert!(matches!(req.config.entity_mode, EntityMode::Standard));
            assert!(req.config.indent_text_nodes);
        }
        Resolution::Guidance(_) => panic!("expected a request"),
    }
}

#[test]
fn explicit_output_path_is_chosen() {
    match resolve(args(Some("a.xml"), Some("out.xml"), false), false) {
        Resolution::Request(req) => match req.output {
            OutputSink::File(p) => assert_eq!(p, "out.xml"),
            OutputSink::Stdout => panic!("expected file output"),
        },
        Resolution::Guidance(_) => panic!("expected a request"),
    }
}

#[test]
fn replace_selects_the_input_path_as_output() {
    match resolve(args(Some("a.xml"), None, true), false) {
        Resolution::Request(req) => {
            match req.input {
                InputSource::File(p) => assert_eq!(p, "a.xml"),
                InputSource::Stdin => panic!("expected file input"),
            }
            match req.output {
                OutputSink::File(p) => assert_eq!(p, "a.xml"),
                OutputSink::Stdout => panic!("replace must not print to standard output"),
            }
        }
        Resolution::Guidance(_) => panic!("expected a request"),
    }
}

#[test]
fn replace_wins_over_an_explicit_output_path() {
    match resolve(args(Some("a.xml"), Some("out.xml"), true), false) {
        Resolution::Request(req) => match req.output {
            OutputSink::File(p) => assert_eq!(p, "a.xml"),
            OutputSink::Stdout => panic!("expected file output"),
        },
        Resolution::Guidance(_) => panic!("expected a request"),
    }
}

#[test]
fn replace_on_stdin_yields_cannot_replace_guidance() {
    match resolve(args(None, None, true), false) {
        Resolution::Guidance(d) => assert!(matches!(d, Diagnostic::CannotReplaceStdin)),
        Resolution::Request(_) => panic!("replace with stdin input must not resolve"),
    }
}

#[test]
fn no_input_on_terminal_yields_no_document_guidance() {
    match resolve(args(None, None, false), true) {
        Resolution::Guidance(d) => assert!(matches!(d, Diagnostic::NoDocumentProvided)),
        Resolution::Request(_) => panic!("a terminal with no path has no document"),
    }
}

#[test]
fn no_input_on_terminal_wins_over_replace() {
    match resolve(args(None, None, true), true) {
        Resolution::Guidance(d) => assert!(matches!(d, Diagnostic::NoDocumentProvided)),
        Resolution::Request(_) => panic!("a terminal with no path has no document"),
    }
}

#[test]
fn piped_stdin_resolves_to_stdin_and_stdout() {
    match resolve(args(None, None, false), false) {
        Resolution::Request(req) => {
            assert!(matches!(req.input, InputSource::Stdin));
            assert!(matches!(req.output, OutputSink::Stdout));
        }
        Resolution::Guidance(_) => panic!("piped data is a usable document source"),
    }
}

#[test]
fn configuration_defaults_and_overrides() {
    let d = FormatConfig::from_options(None, None, false, false);
    assert_eq!(d.indent, 2);
    assert_eq!(d.max_line_length, 120);
    assert!(matches!(d.entity_mode, EntityMode::Standard));
    assert!(d.indent_text_nodes);

    let c = FormatConfig::from_options(Some(4), Some(80), true, true);
    assert_eq!(c.indent, 4);
    assert_eq!(c.max_line_length, 80);
    assert!(matches!(c.entity_mode, EntityMode::Hex));
    assert!(!c.indent_text_nodes);
}

#[test]
fn flag_overrides_reach_the_resolved_request() {
    let a = InvocationArguments {
        input_path: Some("a.xml".to_string()),
        output_path: None,
        is_replace: false,
        indent: Some(0),
        max_line_length: Some(40),
        uses_hex_entities: true,
        is_no_text_indent: true,
    };
    match resolve(a, false) {
        Resolution::Request(req) => {
            assert_eq!(req.config.indent, 0);
            assert_eq!(req.config.max_line_length, 40);
            assert!(matches!(req.config.entity_mode, EntityMode::Hex));
            assert!(!req.config.indent_text_nodes);
        }
        Resolution::Guidance(_) => panic!("expected a request"),
    }
}
