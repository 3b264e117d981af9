//! The creation command's resolution: flag checking, field order, the
//! confirmation gate, and the derived repository-name default.

use gitea_remote::console::{LineSource, MessageKind, MessageSink};
use gitea_remote::create::{
    confirm, create_flow_step, description_option, resolve_create, CreateFlowAction,
    CreateFlowEvent, CreateFlowState, CreatedRemote,
};
use gitea_remote::create_parameters::CreateParameters;
use gitea_remote::parameters_error::ParametersError;

fn scripted(lines: &[&str]) -> LineSource {
    LineSource::scripted(lines.iter().map(|l| l.to_string()).collect())
}

fn some(s: &str) -> Option<String> {
    Some(s.to_string())
}

#[test]
fn both_private_flags_are_rejected_before_any_prompting() {
    let mut source = scripted(&["would answer\n"]);
    let mut sink = MessageSink::buffered();
    let r = resolve_create(
        &some("/home/u/p"),
        &some("https://forge/"),
        &some("p"),
        &None,
        &some("main"),
        &some("origin"),
        &true,
        &true,
        &false,
        &false,
        "/cwd",
        "",
        &mut source,
        &mut sink,
    );
    match r {
        Err(ParametersError::Other(m)) => {
            assert_eq!(m, "--private cannot be used with --not-private")
        },
        _ => panic!("expected the flag conflict to be rejected"),
    }
    assert_eq!(source.remaining(), 1);
    assert_eq!(sink.recorded().len(), 0);
}

#[test]
fn both_template_flags_are_rejected_before_any_prompting() {
    let mut source = scripted(&[]);
    let mut sink = MessageSink::buffered();
    let r = resolve_create(
        &None,
        &None,
        &None,
        &None,
        &None,
        &None,
        &false,
        &false,
        &true,
        &true,
        "/cwd",
        "",
        &mut source,
        &mut sink,
    );
    match r {
        Err(ParametersError::Other(m)) => {
            assert_eq!(m, "--template cannot be used with --not-template")
        },
        _ => panic!("expected the flag conflict to be rejected"),
    }
    assert_eq!(sink.recorded().len(), 0);
}

#[test]
fn unsupplied_flags_fall_through_to_prompts_with_default_false() {
    let mut source = scripted(&["\n", "\n"]);
    let mut sink = MessageSink::buffered();
    let r = resolve_create(
        &some("/home/u/p"),
        &some("https://forge/"),
        &some("p"),
        &some(""),
        &some("main"),
        &some("origin"),
        &false,
        &false,
        &false,
        &false,
        "/cwd",
        "",
        &mut source,
        &mut sink,
    )
    .unwrap();
    assert_eq!(*r.private(), false);
    assert_eq!(*r.template(), false);
    assert_eq!(source.remaining(), 0);
}

#[test]
fn create_prompts_only_for_the_missing_description() {
    let mut source = scripted(&["a tool\n"]);
    let mut sink = MessageSink::buffered();
    let r = CreateParameters::prompt_for_missing(
        &some("/home/u/proj"),
        &some("https://forge/"),
        &some("origin"),
        &some("proj"),
        &None,
        &some("main"),
        &Some(true),
        &Some(false),
        "/cwd",
        "",
        &mut source,
        &mut sink,
    )
    .unwrap();
    assert_eq!(r.path(), "/home/u/proj");
    assert_eq!(r.gitea_url().as_str(), "https://forge/");
    assert_eq!(r.remote_name(), "origin");
    assert_eq!(r.gitea_name(), "proj");
    assert_eq!(r.description(), "a tool");
    assert_eq!(r.default_branch(), "main");
    assert_eq!(*r.private(), true);
    assert_eq!(*r.template(), false);
    assert_eq!(source.remaining(), 0);

    let log = sink.recorded();
    assert_eq!(log.len(), 8);
    let prompts: Vec<_> = log.iter().filter(|m| m.kind == MessageKind::Prompt).collect();
    assert_eq!(prompts.len(), 1);
    assert_eq!(prompts[0].text, "Repository description: ");
    assert_eq!(log[0].text, "Repository path: /home/u/proj");
    assert_eq!(log[1].text, "Gitea URL: https://forge/");
    assert_eq!(log[2].text, "Remote name: origin");
    assert_eq!(log[3].text, "Repository name: proj");
    assert_eq!(log[5].text, "Default branch: main");
    assert_eq!(log[6].text, "Private: true");
    assert_eq!(log[7].text, "Template: false");
}

#[test]
fn repository_name_defaults_to_the_final_path_segment() {
    let mut source = scripted(&["\n"]);
    let mut sink = MessageSink::buffered();
    let r = CreateParameters::prompt_for_missing(
        &some("/home/u/myproj"),
        &some("https://forge/"),
        &some("origin"),
        &None,
        &some(""),
        &some("main"),
        &Some(false),
        &Some(false),
        "/cwd",
        "",
        &mut source,
        &mut sink,
    )
    .unwrap();
    assert_eq!(r.gitea_name(), "myproj");
    let prompts: Vec<_> = sink
        .recorded()
        .iter()
        .filter(|m| m.kind == MessageKind::Prompt)
        .map(|m| m.text.clone())
        .collect();
    assert_eq!(prompts, vec!["Repository name [default: myproj]: ".to_string()]);
}

#[test]
fn fields_resolve_in_declaration_order() {
    let mut source = scripted(&[
        "/repo/dir\n",
        "https://forge/\n",
        "upstream\n",
        "tool\n",
        "does things\n",
        "trunk\n",
        "true\n",
        "false\n",
    ]);
    let mut sink = MessageSink::buffered();
    let r = CreateParameters::prompt_for_missing(
        &None,
        &None,
        &None,
        &None,
        &None,
        &None,
        &None,
        &None,
        "/cwd",
        "",
        &mut source,
        &mut sink,
    )
    .unwrap();
    assert_eq!(r.path(), "/repo/dir");
    assert_eq!(r.gitea_url().as_str(), "https://forge/");
    assert_eq!(r.remote_name(), "upstream");
    assert_eq!(r.gitea_name(), "tool");
    assert_eq!(r.description(), "does things");
    assert_eq!(r.default_branch(), "trunk");
    assert_eq!(*r.private(), true);
    assert_eq!(*r.template(), false);
    let texts: Vec<_> = sink.recorded().iter().map(|m| m.text.clone()).collect();
    assert_eq!(texts[0], "Repository path [default: /cwd]: ");
    assert_eq!(texts[1], "Gitea URL: ");
    assert_eq!(texts[2], "Remote name [default: origin]: ");
    assert_eq!(texts[3], "Repository name [default: dir]: ");
    assert_eq!(texts[4], "Repository description: ");
    assert_eq!(texts[5], "Default branch [default: main]: ");
    assert_eq!(texts[6], "Private (true or false) [default: false]: ");
    assert_eq!(texts[7], "Template (true or false) [default: false]: ");
}

#[test]
fn prompted_url_must_parse_as_an_absolute_url() {
    let mut source = scripted(&["\n", "not a url\n"]);
    let mut sink = MessageSink::buffered();
    let r = CreateParameters::prompt_for_missing(
        &None,
        &None,
        &some("origin"),
        &some("p"),
        &some(""),
        &some("main"),
        &Some(false),
        &Some(false),
        "/cwd",
        "",
        &mut source,
        &mut sink,
    );
    match r {
        Err(ParametersError::Other(m)) => assert_eq!(m, "Missing or invalid Gitea URL"),
        _ => panic!("expected the URL to be rejected"),
    }
    assert_eq!(source.remaining(), 0);
}

#[test]
fn prompted_url_defaults_to_the_environment_value() {
    let mut source = scripted(&["\n", "\n"]);
    let mut sink = MessageSink::buffered();
    let r = CreateParameters::prompt_for_missing(
        &None,
        &None,
        &some("origin"),
        &some("p"),
        &some(""),
        &some("main"),
        &Some(false),
        &Some(false),
        "/cwd",
        "https://from-env.example",
        &mut source,
        &mut sink,
    )
    .unwrap();
    assert_eq!(r.gitea_url().as_str(), "https://from-env.example/");
}

#[test]
fn out_of_input_aborts_resolution() {
    let mut source = scripted(&[]);
    let mut sink = MessageSink::buffered();
    let r = CreateParameters::prompt_for_missing(
        &None,
        &None,
        &None,
        &None,
        &None,
        &None,
        &None,
        &None,
        "/cwd",
        "",
        &mut source,
        &mut sink,
    );
    match r {
        Err(ParametersError::Io(m)) => assert_eq!(m, "end of input"),
        _ => panic!("expected a read failure"),
    }
}

#[test]
fn confirmation_accepts_empty_y_and_capital_y() {
    for input in ["\n", "y\n", "Y\n"] {
        let mut source = scripted(&[input]);
        let mut sink = MessageSink::buffered();
        assert_eq!(confirm(&mut source, &mut sink).unwrap(), true, "input {:?}", input);
    }
}

#[test]
fn confirmation_declines_anything_else_without_failing() {
    for input in ["n\n", "no\n", "anything else\n", "yes\n", "true\n"] {
        let mut source = scripted(&[input]);
        let mut sink = MessageSink::buffered();
        assert_eq!(confirm(&mut source, &mut sink).unwrap(), false, "input {:?}", input);
    }
}

#[test]
fn confirmation_shows_its_gate_prompt() {
    let mut source = scripted(&["\n"]);
    let mut sink = MessageSink::buffered();
    let _ = confirm(&mut source, &mut sink);
    let log = sink.recorded();
    assert_eq!(log[0].kind, MessageKind::Confirm);
    assert_eq!(log[0].text, "Continue? [Y/n]: ");
}

#[test]
fn empty_description_is_omitted_from_the_creation_request() {
    assert_eq!(description_option(&"".to_string()), None);
    assert_eq!(description_option(&"says what it is".to_string()), Some("says what it is".to_string()));
}

#[test]
fn declined_gate_cancels_without_any_collaborator_call() {
    let (state, action) = create_flow_step(
        CreateFlowState::AwaitingConfirmation,
        CreateFlowEvent::Confirmed(false),
    );
    assert!(matches!(state, CreateFlowState::Complete));
    match action {
        CreateFlowAction::Fail(m) => assert_eq!(m, "Canceled"),
        _ => panic!("a declined gate must fail the session"),
    }
}

#[test]
fn accepted_gate_creates_then_tracks_exactly_once_in_order() {
    let (state, action) = create_flow_step(
        CreateFlowState::AwaitingConfirmation,
        CreateFlowEvent::Confirmed(true),
    );
    assert!(matches!(action, CreateFlowAction::CreateRemoteRepository));

    let created = CreatedRemote {
        clone_url: "https://forge/org/p.git".to_string(),
        default_branch: "main".to_string(),
    };
    let (state, action) = create_flow_step(state, CreateFlowEvent::Created(Ok(created)));
    match &action {
        CreateFlowAction::AddRemote(url) => assert_eq!(url, "https://forge/org/p.git"),
        _ => panic!("creation must be followed by local tracking"),
    }

    let (state, action) = create_flow_step(state, CreateFlowEvent::RemoteAdded(Ok(())));
    assert!(matches!(state, CreateFlowState::Complete));
    match action {
        CreateFlowAction::Succeed(branch) => assert_eq!(branch, "main"),
        _ => panic!("a tracked remote completes the session"),
    }
}

#[test]
fn forge_failure_ends_the_session_with_its_message() {
    let (state, _) = create_flow_step(
        CreateFlowState::AwaitingConfirmation,
        CreateFlowEvent::Confirmed(true),
    );
    let (state, action) = create_flow_step(
        state,
        CreateFlowEvent::Created(Err("name already exists".to_string())),
    );
    assert!(matches!(state, CreateFlowState::Complete));
    match action {
        CreateFlowAction::Fail(m) => assert_eq!(m, "name already exists"),
        _ => panic!("a forge failure must fail the session"),
    }
}

#[test]
fn tracking_failure_fails_without_rolling_the_forge_back() {
    let (state, action) = create_flow_step(
        CreateFlowState::AwaitingTracking("main".to_string()),
        CreateFlowEvent::RemoteAdded(Err("not a working copy".to_string())),
    );
    assert!(matches!(state, CreateFlowState::Complete));
    match action {
        CreateFlowAction::Fail(m) => assert_eq!(m, "not a working copy"),
        _ => panic!("a tracking failure must fail the session"),
    }
}

#[test]
fn empty_explicit_repository_name_is_rejected() {
    let mut source = scripted(&[]);
    let mut sink = MessageSink::buffered();
    let r = CreateParameters::prompt_for_missing(
        &some("/home/u/proj"),
        &some("https://forge/"),
        &some("origin"),
        &some(""),
        &some("d"),
        &some("main"),
        &Some(false),
        &Some(false),
        "/cwd",
        "",
        &mut source,
        &mut sink,
    );
    match r {
        Err(ParametersError::Other(m)) => assert_eq!(m, "Repository name must not be empty"),
        _ => panic!("an empty repository name must be rejected"),
    }
    assert_eq!(source.remaining(), 0);
}

#[test]
fn empty_explicit_default_branch_is_rejected() {
    let mut source = scripted(&[]);
    let mut sink = MessageSink::buffered();
    let r = CreateParameters::prompt_for_missing(
        &some("/home/u/proj"),
        &some("https://forge/"),
        &some("origin"),
        &some("proj"),
        &some("d"),
        &some(""),
        &Some(false),
        &Some(false),
        "/cwd",
        "",
        &mut source,
        &mut sink,
    );
    match r {
        Err(ParametersError::Other(m)) => assert_eq!(m, "Default branch must not be empty"),
        _ => panic!("an empty default branch must be rejected"),
    }
}

#[test]
fn pathless_name_default_with_empty_input_is_rejected() {
    let mut source = scripted(&["\n"]);
    let mut sink = MessageSink::buffered();
    let r = CreateParameters::prompt_for_missing(
        &some("/"),
        &some("https://forge/"),
        &some("origin"),
        &None,
        &some("d"),
        &some("main"),
        &Some(false),
        &Some(false),
        "/cwd",
        "",
        &mut source,
        &mut sink,
    );
    match r {
        Err(ParametersError::Other(m)) => assert_eq!(m, "Repository name must not be empty"),
        _ => panic!("an empty derived repository name must be rejected"),
    }
    let prompts: Vec<_> = sink
        .recorded()
        .iter()
        .filter(|m| m.kind == MessageKind::Prompt)
        .map(|m| m.text.clone())
        .collect();
    assert_eq!(prompts, vec!["Repository name: ".to_string()]);
}

#[test]
fn empty_branch_input_still_takes_the_main_default() {
    let mut source = scripted(&["\n"]);
    let mut sink = MessageSink::buffered();
    let r = CreateParameters::prompt_for_missing(
        &some("/home/u/proj"),
        &some("https://forge/"),
        &some("origin"),
        &some("proj"),
        &some("d"),
        &None,
        &Some(false),
        &Some(false),
        "/cwd",
        "",
        &mut source,
        &mut sink,
    )
    .unwrap();
    assert_eq!(r.default_branch(), "main");
}
