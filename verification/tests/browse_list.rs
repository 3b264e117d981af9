//! The browse and list parameter records, URL resolution, and the error
//! types around them.

use gitea_remote::app_error::AppError;
use gitea_remote::browse_parameters::BrowseParameters;
use gitea_remote::console::{LineSource, MessageSink};
use gitea_remote::error_level::ErrorLevel;
use gitea_remote::gitea_url::GiteaUrl;
use gitea_remote::list::{check_search_ok, resolve_list_url};
use gitea_remote::list_parameters::ListParameters;
use gitea_remote::parameters_error::ParametersError;

fn scripted(lines: &[&str]) -> LineSource {
    LineSource::scripted(lines.iter().map(|l| l.to_string()).collect())
}

#[test]
fn browse_takes_explicit_values_verbatim() {
    let mut source = scripted(&[]);
    let mut sink = MessageSink::buffered();
    let r = BrowseParameters::prompt_for_missing(
        &Some("/repo".to_string()),
        &Some("upstream".to_string()),
        "/cwd",
        &mut source,
        &mut sink,
    )
    .unwrap();
    assert_eq!(r.path(), "/repo");
    assert_eq!(r.remote_name(), "upstream");
    assert_eq!(sink.recorded().len(), 2);
}

#[test]
fn browse_prompts_with_its_defaults() {
    let mut source = scripted(&["\n", "\n"]);
    let mut sink = MessageSink::buffered();
    let r = BrowseParameters::prompt_for_missing(&None, &None, "/cwd", &mut source, &mut sink)
        .unwrap();
    assert_eq!(r.path(), "/cwd");
    assert_eq!(r.remote_name(), "origin");
}

#[test]
fn browse_surfaces_a_read_failure() {
    let mut source = scripted(&["\n"]);
    let mut sink = MessageSink::buffered();
    let r = BrowseParameters::prompt_for_missing(&None, &None, "/cwd", &mut source, &mut sink);
    assert!(matches!(r, Err(ParametersError::Io(_))));
}

#[test]
fn list_parameters_keep_what_they_are_given() {
    let url = GiteaUrl::parse("https://forge.example").unwrap();
    let p = ListParameters::new(url, Some("filter".to_string()));
    assert_eq!(p.gitea_url().as_str(), "https://forge.example/");
    assert_eq!(p.filter(), &Some("filter".to_string()));
}

#[test]
fn explicit_list_url_is_accepted_verbatim() {
    let r = resolve_list_url(&Some("https://forge.example/".to_string()), "").unwrap();
    assert_eq!(r.as_str(), "https://forge.example/");
}

#[test]
fn environment_list_url_is_parsed_and_normalized() {
    let r = resolve_list_url(&None, "https://forge.example").unwrap();
    assert_eq!(r.as_str(), "https://forge.example/");
}

#[test]
fn missing_environment_url_fails_with_a_named_field() {
    match resolve_list_url(&None, "") {
        Err(AppError::Other(m)) => assert_eq!(m, "Missing or invalid Gitea URL"),
        _ => panic!("expected the URL to be rejected"),
    }
}

#[test]
fn relative_url_is_rejected() {
    assert!(GiteaUrl::parse("forge.example/path").is_none());
    assert!(GiteaUrl::parse("https://forge.example/sub").is_some());
}

#[test]
fn error_levels_map_to_exit_codes() {
    assert_eq!(ErrorLevel::Success.exit_code(), 0);
    assert_eq!(ErrorLevel::Failure.exit_code(), 1);
}

#[test]
fn errors_carry_their_messages() {
    let e = ParametersError::Other("went wrong".to_string());
    assert_eq!(e.message(), "went wrong");
    let a = AppError::Parameter(e);
    assert_eq!(a.message(), "went wrong");
    assert_eq!(AppError::Io("closed".to_string()).message(), "closed");
    assert_eq!(AppError::Url("bad url".to_string()).message(), "bad url");
    assert_eq!(AppError::Api("server said no".to_string()).message(), "server said no");
    assert_eq!(
        ParametersError::GitCommand("not a working copy".to_string()).message(),
        "not a working copy"
    );
    assert_eq!(ParametersError::Url("no scheme".to_string()).message(), "no scheme");
    assert_eq!(ParametersError::Io("stream closed".to_string()).message(), "stream closed");
}

#[test]
fn unsuccessful_search_response_fails_with_its_message() {
    assert!(check_search_ok(true).is_ok());
    match check_search_ok(false) {
        Err(AppError::Other(m)) => assert_eq!(m, "Failed to get repositories"),
        _ => panic!("an unsuccessful response must fail"),
    }
}
