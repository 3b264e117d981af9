//! Resolving one field from an explicit value, a default, or a prompt.

use gitea_remote::console::{LineSource, MessageKind, MessageSink};
use gitea_remote::parameters_error::ParametersError;
use gitea_remote::resolve::{
    bool_option, display_value, maybe_prompt_for_bool, maybe_prompt_for_string, prompt_for_path,
    prompt_for_remote_name, prompt_for_string, prompt_for_value,
};
use gitea_remote::text::{last_segment, matches_keyword, resolve_line, trim_line};

fn scripted(lines: &[&str]) -> LineSource {
    LineSource::scripted(lines.iter().map(|l| l.to_string()).collect())
}

#[test]
fn trims_trailing_newlines_and_returns() {
    assert_eq!(trim_line("abc\r\n"), "abc");
    assert_eq!(trim_line("abc\n\n"), "abc");
    assert_eq!(trim_line("abc\n\r\n"), "abc\n");
    assert_eq!(trim_line("abc"), "abc");
    assert_eq!(trim_line(""), "");
}

#[test]
fn empty_line_takes_the_default() {
    assert_eq!(resolve_line("\n", "fallback"), "fallback");
    assert_eq!(resolve_line("value\n", "fallback"), "value");
}

#[test]
fn keyword_matching_ignores_ascii_case() {
    assert!(matches_keyword("TRUE", "true"));
    assert!(matches_keyword("True", "true"));
    assert!(matches_keyword("true", "true"));
    assert!(!matches_keyword("yes", "true"));
    assert!(!matches_keyword("truthy", "true"));
}

#[test]
fn last_segment_of_path() {
    assert_eq!(last_segment("/home/u/myproj"), "myproj");
    assert_eq!(last_segment("/home/u/myproj/"), "myproj");
    assert_eq!(last_segment("relative/dir"), "dir");
    assert_eq!(last_segment("/"), "");
    assert_eq!(last_segment("/home/u/.."), "");
    assert_eq!(last_segment("/home/u/."), "u");
}

#[test]
fn explicit_value_is_echoed_not_prompted() {
    let mut source = scripted(&["would be consumed\n"]);
    let mut sink = MessageSink::buffered();
    let value = Some("supplied".to_string());
    let r = maybe_prompt_for_string(&value, "default", "Label", &mut source, &mut sink);
    assert_eq!(r.unwrap(), "supplied");
    assert_eq!(source.remaining(), 1);
    let log = sink.recorded();
    assert_eq!(log.len(), 1);
    assert_eq!(log[0].kind, MessageKind::Shown);
    assert_eq!(log[0].text, "Label: supplied");
}

#[test]
fn missing_value_is_prompted_with_default_shown() {
    let mut source = scripted(&["typed\n"]);
    let mut sink = MessageSink::buffered();
    let r = maybe_prompt_for_string(&None, "default", "Label", &mut source, &mut sink);
    assert_eq!(r.unwrap(), "typed");
    assert_eq!(source.remaining(), 0);
    let log = sink.recorded();
    assert_eq!(log.len(), 1);
    assert_eq!(log[0].kind, MessageKind::Prompt);
    assert_eq!(log[0].text, "Label [default: default]: ");
}

#[test]
fn prompt_without_default_omits_the_bracket() {
    let mut source = scripted(&["x\n"]);
    let mut sink = MessageSink::buffered();
    let r = prompt_for_value("Label", "", &mut source, &mut sink);
    assert_eq!(r.unwrap(), "x");
    assert_eq!(sink.recorded()[0].text, "Label: ");
}

#[test]
fn prompt_for_string_resolves_like_prompt_for_value() {
    let mut source = scripted(&["\n"]);
    let mut sink = MessageSink::buffered();
    let r = prompt_for_string("Branch", "main", &mut source, &mut sink);
    assert_eq!(r.unwrap(), "main");
}

#[test]
fn exhausted_input_is_a_read_failure() {
    let mut source = scripted(&[]);
    let mut sink = MessageSink::buffered();
    let r = prompt_for_value("Label", "d", &mut source, &mut sink);
    match r {
        Err(ParametersError::Io(m)) => assert_eq!(m, "end of input"),
        other => panic!("expected an input error, got {:?}", other.is_ok()),
    }
}

#[test]
fn boolean_prompt_empty_input_takes_declared_default() {
    let mut source = scripted(&["\n"]);
    let mut sink = MessageSink::buffered();
    let r = maybe_prompt_for_bool(&None, false, "Private", &mut source, &mut sink);
    assert_eq!(r.unwrap(), false);

    let mut source = scripted(&["\n"]);
    let mut sink = MessageSink::buffered();
    let r = maybe_prompt_for_bool(&None, true, "Private", &mut source, &mut sink);
    assert_eq!(r.unwrap(), true);
}

#[test]
fn boolean_prompt_parses_case_insensitively() {
    for (input, expected) in [("TRUE\n", true), ("false\n", false), ("True\n", true)] {
        let mut source = scripted(&[input]);
        let mut sink = MessageSink::buffered();
        let r = maybe_prompt_for_bool(&None, false, "Private", &mut source, &mut sink);
        assert_eq!(r.unwrap(), expected, "input {:?}", input);
    }
}

#[test]
fn boolean_prompt_rejects_other_input() {
    let mut source = scripted(&["yes\n"]);
    let mut sink = MessageSink::buffered();
    let r = maybe_prompt_for_bool(&None, false, "Private", &mut source, &mut sink);
    match r {
        Err(ParametersError::Other(m)) => {
            assert_eq!(m, "Invalid value for Private: expected 'true' or 'false'")
        },
        other => panic!("expected a validation error, got {:?}", other.is_ok()),
    }
}

#[test]
fn boolean_prompt_names_both_literals() {
    let mut source = scripted(&["\n"]);
    let mut sink = MessageSink::buffered();
    let _ = maybe_prompt_for_bool(&None, false, "Private", &mut source, &mut sink);
    assert_eq!(sink.recorded()[0].text, "Private (true or false) [default: false]: ");
}

#[test]
fn explicit_boolean_is_echoed_as_its_literal() {
    let mut source = scripted(&[]);
    let mut sink = MessageSink::buffered();
    let r = maybe_prompt_for_bool(&Some(true), false, "Private", &mut source, &mut sink);
    assert_eq!(r.unwrap(), true);
    assert_eq!(sink.recorded()[0].kind, MessageKind::Shown);
    assert_eq!(sink.recorded()[0].text, "Private: true");
}

#[test]
fn remote_name_defaults_to_origin() {
    let mut source = scripted(&["\n"]);
    let mut sink = MessageSink::buffered();
    let r = prompt_for_remote_name(&None, &mut source, &mut sink);
    assert_eq!(r.unwrap(), "origin");
    assert_eq!(sink.recorded()[0].text, "Remote name [default: origin]: ");
}

#[test]
fn path_defaults_to_the_current_directory() {
    let mut source = scripted(&["\n"]);
    let mut sink = MessageSink::buffered();
    let r = prompt_for_path(&None, "/work/here", &mut source, &mut sink);
    assert_eq!(r.unwrap(), "/work/here");
}

#[test]
fn display_value_formats_label_and_value() {
    let mut sink = MessageSink::buffered();
    display_value("Gitea URL", "https://forge/", &mut sink);
    assert_eq!(sink.recorded()[0].text, "Gitea URL: https://forge/");
}

#[test]
fn flag_pairs_collapse_to_an_optional_boolean() {
    assert_eq!(bool_option(&true, &false), Some(false));
    assert_eq!(bool_option(&false, &true), Some(true));
    assert_eq!(bool_option(&false, &false), None);
}
