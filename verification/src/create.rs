//! The decisions of the creation command: collapsing the mutually exclusive
//! flag pairs, resolving the full parameter record, gating the one
//! irreversible collaborator call behind a confirmation, and shaping the
//! description for the creation request.

use vstd::prelude::*;

use crate::app_error::AppError;
use crate::console::{LineSource, MessageSink, Note};
use crate::create_parameters::{create_trace, CreateOutcome, CreateParameters};
use crate::parameters_error::ParametersError;
use crate::resolve::spec_bool_option;
use crate::text::{eq_ignore_ascii_case, matches_keyword, trim_line, trim_line_end};

verus! {

/// What the confirmation gate accepts: empty input, or `y` ignoring ASCII
/// case, after the line terminator is removed. Anything else declines.
pub open spec fn spec_confirm_accepts(line: Seq<char>) -> bool {
    trim_line_end(line).len() == 0 || eq_ignore_ascii_case(trim_line_end(line), "y"@)
}

/// The confirmation gate before repository creation: writes its prompt,
/// flushed so it appears before the read blocks, reads one line, and accepts
/// exactly as [`spec_confirm_accepts`] says. A decline is a normal outcome,
/// not an error; only a failed read is an error.
pub fn confirm(source: &mut LineSource, sink: &mut MessageSink) -> (r: Result<bool, AppError>)
    ensures
        final(source).is_scripted() == old(source).is_scripted(),
        final(sink).is_buffered() == old(sink).is_buffered(),
        old(sink).is_buffered() ==> final(sink).log() == old(sink).log().push(
            Note::Confirm("Continue? [Y/n]: "@),
        ),
        !old(sink).is_buffered() ==> *final(sink) == *old(sink),
        old(source).is_scripted() && old(source).pending().len() > 0 ==> {
            &&& r matches Ok(accepted) && accepted == spec_confirm_accepts(
                old(source).pending()[0],
            )
            &&& final(source).pending() == old(source).pending().skip(1)
        },
        old(source).is_scripted() && old(source).pending().len() == 0 ==> {
            &&& r matches Err(e) && e matches AppError::Io(m) && m@ == "end of input"@
            &&& *final(source) == *old(source)
        },
        !old(source).is_scripted() ==> *final(source) == *old(source),
{
    sink.show_confirm_prompt("Continue? [Y/n]: ");
    match source.read_line() {
        Ok(line) => {
            let trimmed = trim_line(line.as_str());
            Ok(trimmed.as_str().unicode_len() == 0 || matches_keyword(trimmed.as_str(), "y"))
        },
        Err(m) => Err(AppError::Io(m)),
    }
}

/// The description handed to the forge: an empty resolved description means
/// "no description", anything else is passed on unchanged.
pub fn description_option(description: &String) -> (r: Option<String>)
    ensures
        description@.len() == 0 ==> r is None,
        description@.len() > 0 ==> (r matches Some(d) && d@ == description@),
{
    if description.as_str().unicode_len() == 0 {
        None
    } else {
        Some(description.clone())
    }
}

/// What the forge reports back when it has created a repository.
pub struct CreatedRemote {
    pub clone_url: String,
    pub default_branch: String,
}

/// Where the creation session stands: the confirmation gate, then the one
/// forge call, then the one local tracking call.
pub enum CreateFlowState {
    /// The parameter record is resolved and displayed; confirmation is
    /// awaited.
    AwaitingConfirmation,
    /// Confirmation was given; the forge call is outstanding.
    AwaitingCreation,
    /// The forge created the repository; the local tracking call is
    /// outstanding, and the default branch is kept for the final report.
    AwaitingTracking(String),
    /// The session is over; nothing more is requested.
    Complete,
}

/// What the caller reports back to the session: the confirmation answer,
/// the forge call's outcome, or the tracking call's outcome, as plain values.
pub enum CreateFlowEvent {
    Confirmed(bool),
    Created(Result<CreatedRemote, String>),
    RemoteAdded(Result<(), String>),
}

/// What the session asks the caller to do next. Failure carries the message
/// to report; a failed tracking step fails the session without rolling the
/// forge-side repository back, by design.
pub enum CreateFlowAction {
    /// Call the forge's repository creation, exactly once.
    CreateRemoteRepository,
    /// Track the created repository, at the carried clone URL, as a local
    /// remote, exactly once.
    AddRemote(String),
    /// Report success; carries the created repository's default branch.
    Succeed(String),
    /// Report the carried message and exit with a failure code. A declined
    /// gate is reported as `Canceled`: a normal outcome, but still a
    /// failure exit, so that invoking scripts can detect it.
    Fail(String),
}

/// How far a session state has advanced; every step strictly increases it,
/// so no phase — and no collaborator call — can recur.
pub open spec fn flow_phase(state: CreateFlowState) -> int {
    match state {
        CreateFlowState::AwaitingConfirmation => 0,
        CreateFlowState::AwaitingCreation => 1,
        CreateFlowState::AwaitingTracking(_) => 2,
        CreateFlowState::Complete => 3,
    }
}

/// Which event each state is waiting for; a completed session accepts none.
pub open spec fn flow_accepts(state: CreateFlowState, event: CreateFlowEvent) -> bool {
    match state {
        CreateFlowState::AwaitingConfirmation => event is Confirmed,
        CreateFlowState::AwaitingCreation => event is Created,
        CreateFlowState::AwaitingTracking(_) => event is RemoteAdded,
        CreateFlowState::Complete => false,
    }
}

/// One step of the creation session: from the current state and the event
/// the caller observed, the next state and the one action to perform. The
/// caller runs the loop and does the outside work; the decisions are all
/// here. Forge creation is requested only from the confirmation phase and
/// local tracking only from the creation phase, and the phase strictly
/// advances, so each is requested at most once, in that order.
pub fn create_flow_step(state: CreateFlowState, event: CreateFlowEvent) -> (r: (
    CreateFlowState,
    CreateFlowAction,
))
    requires
        flow_accepts(state, event),
    ensures
        flow_phase(r.0) > flow_phase(state),
        r.1 is CreateRemoteRepository ==> state is AwaitingConfirmation,
        r.1 matches CreateFlowAction::AddRemote(_) ==> state is AwaitingCreation,
        state is AwaitingConfirmation ==> (event matches CreateFlowEvent::Confirmed(accepted)
            && if accepted {
            r.0 is AwaitingCreation && r.1 is CreateRemoteRepository
        } else {
            r.0 is Complete && (r.1 matches CreateFlowAction::Fail(m) && m@ == "Canceled"@)
        }),
        state is AwaitingCreation ==> (event matches CreateFlowEvent::Created(outcome)
            && match outcome {
            Ok(created) => {
                &&& r.0 matches CreateFlowState::AwaitingTracking(b) && b@
                    == created.default_branch@
                &&& r.1 matches CreateFlowAction::AddRemote(u) && u@ == created.clone_url@
            },
            Err(message) => r.0 is Complete && (r.1 matches CreateFlowAction::Fail(m) && m@
                == message@),
        }),
        state matches CreateFlowState::AwaitingTracking(branch) ==> (event
            matches CreateFlowEvent::RemoteAdded(outcome) && match outcome {
            Ok(_) => r.0 is Complete && (r.1 matches CreateFlowAction::Succeed(b) && b@
                == branch@),
            Err(message) => r.0 is Complete && (r.1 matches CreateFlowAction::Fail(m) && m@
                == message@),
        }),
{
    match (state, event) {
        (CreateFlowState::AwaitingConfirmation, CreateFlowEvent::Confirmed(accepted)) => {
            if accepted {
                (CreateFlowState::AwaitingCreation, CreateFlowAction::CreateRemoteRepository)
            } else {
                (
                    CreateFlowState::Complete,
                    CreateFlowAction::Fail(String::from_str("Canceled")),
                )
            }
        },
        (CreateFlowState::AwaitingCreation, CreateFlowEvent::Created(outcome)) => match outcome {
            Ok(created) => (
                CreateFlowState::AwaitingTracking(created.default_branch),
                CreateFlowAction::AddRemote(created.clone_url),
            ),
            Err(message) => (CreateFlowState::Complete, CreateFlowAction::Fail(message)),
        },
        (CreateFlowState::AwaitingTracking(branch), CreateFlowEvent::RemoteAdded(outcome)) => {
            match outcome {
                Ok(_) => (CreateFlowState::Complete, CreateFlowAction::Succeed(branch)),
                Err(message) => (CreateFlowState::Complete, CreateFlowAction::Fail(message)),
            }
        },
        _ => (CreateFlowState::Complete, CreateFlowAction::Fail(String::new())),
    }
}

/// Resolves the creation command's parameters. The two flag pairs are
/// checked first: supplying both flags of a pair is a caller-level contract
/// violation, rejected before any prompting occurs; supplying neither leaves
/// the value unspecified, so it falls through to interactive resolution with
/// its default of `false`. With valid flags this resolves exactly as
/// [`CreateParameters::prompt_for_missing`] does.
pub fn resolve_create(
    path: &Option<String>,
    gitea_url: &Option<String>,
    gitea_name: &Option<String>,
    description: &Option<String>,
    default_branch: &Option<String>,
    remote_name: &Option<String>,
    private: &bool,
    not_private: &bool,
    template: &bool,
    not_template: &bool,
    default_path: &str,
    env_gitea_url: &str,
    source: &mut LineSource,
    sink: &mut MessageSink,
) -> (r: Result<CreateParameters, ParametersError>)
    ensures
        final(source).is_scripted() == old(source).is_scripted(),
        final(sink).is_buffered() == old(sink).is_buffered(),
        !old(sink).is_buffered() ==> *final(sink) == *old(sink),
        *private && *not_private ==> {
            &&& r matches Err(e) && e matches ParametersError::Other(m) && m@
                == "--private cannot be used with --not-private"@
            &&& *final(source) == *old(source)
            &&& *final(sink) == *old(sink)
        },
        !(*private && *not_private) && *template && *not_template ==> {
            &&& r matches Err(e) && e matches ParametersError::Other(m) && m@
                == "--template cannot be used with --not-template"@
            &&& *final(source) == *old(source)
            &&& *final(sink) == *old(sink)
        },
        !(*private && *not_private) && !(*template && *not_template) ==> {
            &&& r matches Ok(cp) ==> {
                &&& path matches Some(v) ==> cp@.path == v@
                &&& gitea_url matches Some(v) ==> cp@.gitea_url == v@
                &&& remote_name matches Some(v) ==> cp@.remote_name == v@
                &&& gitea_name matches Some(v) ==> cp@.gitea_name == v@
                &&& description matches Some(v) ==> cp@.description == v@
                &&& default_branch matches Some(v) ==> cp@.default_branch == v@
                &&& *private || *not_private ==> cp@.private == *private
                &&& *template || *not_template ==> cp@.template == *template
                &&& cp@.gitea_name.len() > 0
                &&& cp@.default_branch.len() > 0
            }
            &&& path is Some && gitea_url is Some && remote_name is Some && gitea_name is Some
                && description is Some && default_branch is Some && (*private || *not_private)
                && (*template || *not_template) ==> *final(source) == *old(source)
            &&& path is Some && gitea_url is Some && remote_name is Some && (gitea_name
                matches Some(n) && n@.len() > 0) && description is Some && (default_branch
                matches Some(b) && b@.len() > 0) && (*private || *not_private) && (*template
                || *not_template) ==> r is Ok
            &&& old(source).is_scripted() ==> ({
                let t = create_trace(
                    path.deep_view(),
                    gitea_url.deep_view(),
                    remote_name.deep_view(),
                    gitea_name.deep_view(),
                    description.deep_view(),
                    default_branch.deep_view(),
                    spec_bool_option(*not_private, *private),
                    spec_bool_option(*not_template, *template),
                    default_path@,
                    env_gitea_url@,
                    old(source).pending(),
                );
                &&& 0 <= t.used <= old(source).pending().len()
                &&& final(source).pending() == old(source).pending().skip(t.used)
                &&& t.outcome matches CreateOutcome::Resolved(m) ==> (r matches Ok(cp) && cp@
                    == m)
                &&& t.outcome is OutOfInput ==> (r matches Err(e) && e
                    matches ParametersError::Io(msg) && msg@ == "end of input"@)
                &&& t.outcome is InvalidUrl ==> (r matches Err(e) && e
                    matches ParametersError::Other(msg) && msg@ == "Missing or invalid Gitea URL"@)
                &&& t.outcome matches CreateOutcome::InvalidBool(label) ==> (r matches Err(e)
                    && e matches ParametersError::Other(msg) && msg@
                    == crate::resolve::invalid_bool_message(label))
                &&& t.outcome matches CreateOutcome::EmptyValue(label) ==> (r matches Err(e)
                    && e matches ParametersError::Other(msg) && msg@
                    == crate::resolve::empty_field_message(label))
            })
            &&& old(sink).is_buffered() && (old(source).is_scripted() || (path is Some
                && gitea_url is Some && remote_name is Some && gitea_name is Some && description
                is Some && default_branch is Some && (*private || *not_private) && (*template
                || *not_template))) ==> final(sink).log() == old(sink).log() + create_trace(
                path.deep_view(),
                gitea_url.deep_view(),
                remote_name.deep_view(),
                gitea_name.deep_view(),
                description.deep_view(),
                default_branch.deep_view(),
                spec_bool_option(*not_private, *private),
                spec_bool_option(*not_template, *template),
                default_path@,
                env_gitea_url@,
                old(source).pending(),
            ).notes
        },
{
    if *private && *not_private {
        return Err(
            ParametersError::Other(
                String::from_str("--private cannot be used with --not-private"),
            ),
        );
    }
    if *template && *not_template {
        return Err(
            ParametersError::Other(
                String::from_str("--template cannot be used with --not-template"),
            ),
        );
    }
    let private_option = crate::resolve::bool_option(not_private, private);
    let template_option = crate::resolve::bool_option(not_template, template);
    CreateParameters::prompt_for_missing(
        path,
        gitea_url,
        remote_name,
        gitea_name,
        description,
        default_branch,
        &private_option,
        &template_option,
        default_path,
        env_gitea_url,
        source,
        sink,
    )
}

} // verus!
