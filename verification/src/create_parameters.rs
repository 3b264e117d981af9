//! The parameter record of repository creation, and the resolution that
//! fills it: eight fields, resolved strictly in declaration order, because
//! the repository name's default derives from the already-resolved path.
//! Resolution aborts on the first failing field; the repository name and the
//! default branch must resolve to non-empty text.

use vstd::prelude::*;

use crate::console::{LineSource, MessageSink, Note};
use crate::gitea_url::GiteaUrl;
use crate::parameters_error::ParametersError;
use crate::resolve::{
    bool_step, maybe_prompt_for_bool, maybe_prompt_for_string, prompt_for_gitea_url,
    prompt_for_path, prompt_for_remote_name, string_step, url_step, BoolOutcome, UrlOutcome,
};
use crate::text::{last_path_segment, last_segment};

verus! {

/// The fully resolved creation parameters, as contracts speak of them.
#[verifier::ext_equal]
pub struct CreateModel {
    pub gitea_url: Seq<char>,
    pub path: Seq<char>,
    pub remote_name: Seq<char>,
    pub gitea_name: Seq<char>,
    pub description: Seq<char>,
    pub default_branch: Seq<char>,
    pub private: bool,
    pub template: bool,
}

/// How one whole creation resolution ends.
pub enum CreateOutcome {
    /// Every field resolved; no partial record is ever produced otherwise.
    Resolved(CreateModel),
    /// Input ended before every prompted field had a line.
    OutOfInput,
    /// The prompted forge URL did not parse as an absolute URL.
    InvalidUrl,
    /// A prompted boolean field, named by its label, got a value that is
    /// neither `true` nor `false`.
    InvalidBool(Seq<char>),
    /// A required string field, named by its label, resolved to empty text:
    /// the repository name or the default branch.
    EmptyValue(Seq<char>),
}

/// What one whole creation resolution does: its outcome, the number of input
/// lines it consumed, and the messages it emitted, in order.
#[verifier::ext_equal]
pub struct CreateTrace {
    pub outcome: CreateOutcome,
    pub used: int,
    pub notes: Seq<Note>,
}

/// Prepends one resolved field's input consumption and emitted message to
/// the trace of the fields after it.
pub open spec fn after_step(note: Note, used: int, t: CreateTrace) -> CreateTrace {
    CreateTrace { outcome: t.outcome, used: used + t.used, notes: seq![note] + t.notes }
}

/// The creation resolution, field by field in declaration order: repository
/// path, forge URL, remote name, repository name (its default derived from
/// the resolved path, and required non-empty), description, default branch
/// (required non-empty), and the two boolean flags, which default to `false`.
pub open spec fn create_trace(
    path: Option<Seq<char>>,
    gitea_url: Option<Seq<char>>,
    remote_name: Option<Seq<char>>,
    gitea_name: Option<Seq<char>>,
    description: Option<Seq<char>>,
    default_branch: Option<Seq<char>>,
    private: Option<bool>,
    template: Option<bool>,
    default_path: Seq<char>,
    env_url: Seq<char>,
    lines: Seq<Seq<char>>,
) -> CreateTrace {
    let s = string_step(path, "Repository path"@, default_path, lines);
    if !s.ok {
        CreateTrace { outcome: CreateOutcome::OutOfInput, used: s.used, notes: seq![s.note] }
    } else {
        after_step(
            s.note,
            s.used,
            trace_from_url(
                gitea_url,
                remote_name,
                gitea_name,
                description,
                default_branch,
                private,
                template,
                env_url,
                lines.skip(s.used),
                s.value,
            ),
        )
    }
}

#[verifier::opaque]
pub open spec fn trace_from_url(
    gitea_url: Option<Seq<char>>,
    remote_name: Option<Seq<char>>,
    gitea_name: Option<Seq<char>>,
    description: Option<Seq<char>>,
    default_branch: Option<Seq<char>>,
    private: Option<bool>,
    template: Option<bool>,
    env_url: Seq<char>,
    lines: Seq<Seq<char>>,
    path_value: Seq<char>,
) -> CreateTrace {
    let s = url_step(gitea_url, env_url, lines);
    match s.outcome {
        UrlOutcome::OutOfInput => CreateTrace {
            outcome: CreateOutcome::OutOfInput,
            used: s.used,
            notes: seq![s.note],
        },
        UrlOutcome::Invalid => CreateTrace {
            outcome: CreateOutcome::InvalidUrl,
            used: s.used,
            notes: seq![s.note],
        },
        UrlOutcome::Url(url_value) => after_step(
            s.note,
            s.used,
            trace_from_remote(
                remote_name,
                gitea_name,
                description,
                default_branch,
                private,
                template,
                lines.skip(s.used),
                path_value,
                url_value,
            ),
        ),
    }
}

#[verifier::opaque]
pub open spec fn trace_from_remote(
    remote_name: Option<Seq<char>>,
    gitea_name: Option<Seq<char>>,
    description: Option<Seq<char>>,
    default_branch: Option<Seq<char>>,
    private: Option<bool>,
    template: Option<bool>,
    lines: Seq<Seq<char>>,
    path_value: Seq<char>,
    url_value: Seq<char>,
) -> CreateTrace {
    let s = string_step(remote_name, "Remote name"@, "origin"@, lines);
    if !s.ok {
        CreateTrace { outcome: CreateOutcome::OutOfInput, used: s.used, notes: seq![s.note] }
    } else {
        after_step(
            s.note,
            s.used,
            trace_from_name(
                gitea_name,
                description,
                default_branch,
                private,
                template,
                lines.skip(s.used),
                path_value,
                url_value,
                s.value,
            ),
        )
    }
}

#[verifier::opaque]
pub open spec fn trace_from_name(
    gitea_name: Option<Seq<char>>,
    description: Option<Seq<char>>,
    default_branch: Option<Seq<char>>,
    private: Option<bool>,
    template: Option<bool>,
    lines: Seq<Seq<char>>,
    path_value: Seq<char>,
    url_value: Seq<char>,
    remote_value: Seq<char>,
) -> CreateTrace {
    let s = string_step(gitea_name, "Repository name"@, last_path_segment(path_value), lines);
    if !s.ok {
        CreateTrace { outcome: CreateOutcome::OutOfInput, used: s.used, notes: seq![s.note] }
    } else if s.value.len() == 0 {
        CreateTrace {
            outcome: CreateOutcome::EmptyValue("Repository name"@),
            used: s.used,
            notes: seq![s.note],
        }
    } else {
        after_step(
            s.note,
            s.used,
            trace_from_description(
                description,
                default_branch,
                private,
                template,
                lines.skip(s.used),
                path_value,
                url_value,
                remote_value,
                s.value,
            ),
        )
    }
}

#[verifier::opaque]
pub open spec fn trace_from_description(
    description: Option<Seq<char>>,
    default_branch: Option<Seq<char>>,
    private: Option<bool>,
    template: Option<bool>,
    lines: Seq<Seq<char>>,
    path_value: Seq<char>,
    url_value: Seq<char>,
    remote_value: Seq<char>,
    name_value: Seq<char>,
) -> CreateTrace {
    let s = string_step(description, "Repository description"@, ""@, lines);
    if !s.ok {
        CreateTrace { outcome: CreateOutcome::OutOfInput, used: s.used, notes: seq![s.note] }
    } else {
        after_step(
            s.note,
            s.used,
            trace_from_branch(
                default_branch,
                private,
                template,
                lines.skip(s.used),
                path_value,
                url_value,
                remote_value,
                name_value,
                s.value,
            ),
        )
    }
}

#[verifier::opaque]
pub open spec fn trace_from_branch(
    default_branch: Option<Seq<char>>,
    private: Option<bool>,
    template: Option<bool>,
    lines: Seq<Seq<char>>,
    path_value: Seq<char>,
    url_value: Seq<char>,
    remote_value: Seq<char>,
    name_value: Seq<char>,
    description_value: Seq<char>,
) -> CreateTrace {
    let s = string_step(default_branch, "Default branch"@, "main"@, lines);
    if !s.ok {
        CreateTrace { outcome: CreateOutcome::OutOfInput, used: s.used, notes: seq![s.note] }
    } else if s.value.len() == 0 {
        CreateTrace {
            outcome: CreateOutcome::EmptyValue("Default branch"@),
            used: s.used,
            notes: seq![s.note],
        }
    } else {
        after_step(
            s.note,
            s.used,
            trace_from_private(
                private,
                template,
                lines.skip(s.used),
                path_value,
                url_value,
                remote_value,
                name_value,
                description_value,
                s.value,
            ),
        )
    }
}

#[verifier::opaque]
pub open spec fn trace_from_private(
    private: Option<bool>,
    template: Option<bool>,
    lines: Seq<Seq<char>>,
    path_value: Seq<char>,
    url_value: Seq<char>,
    remote_value: Seq<char>,
    name_value: Seq<char>,
    description_value: Seq<char>,
    branch_value: Seq<char>,
) -> CreateTrace {
    let s = bool_step(private, "Private"@, false, lines);
    match s.outcome {
        BoolOutcome::OutOfInput => CreateTrace {
            outcome: CreateOutcome::OutOfInput,
            used: s.used,
            notes: seq![s.note],
        },
        BoolOutcome::Invalid => CreateTrace {
            outcome: CreateOutcome::InvalidBool("Private"@),
            used: s.used,
            notes: seq![s.note],
        },
        BoolOutcome::Value(private_value) => after_step(
            s.note,
            s.used,
            trace_from_template(
                template,
                lines.skip(s.used),
                path_value,
                url_value,
                remote_value,
                name_value,
                description_value,
                branch_value,
                private_value,
            ),
        ),
    }
}

#[verifier::opaque]
pub open spec fn trace_from_template(
    template: Option<bool>,
    lines: Seq<Seq<char>>,
    path_value: Seq<char>,
    url_value: Seq<char>,
    remote_value: Seq<char>,
    name_value: Seq<char>,
    description_value: Seq<char>,
    branch_value: Seq<char>,
    private_value: bool,
) -> CreateTrace {
    let s = bool_step(template, "Template"@, false, lines);
    match s.outcome {
        BoolOutcome::OutOfInput => CreateTrace {
            outcome: CreateOutcome::OutOfInput,
            used: s.used,
            notes: seq![s.note],
        },
        BoolOutcome::Invalid => CreateTrace {
            outcome: CreateOutcome::InvalidBool("Template"@),
            used: s.used,
            notes: seq![s.note],
        },
        BoolOutcome::Value(template_value) => CreateTrace {
            outcome: CreateOutcome::Resolved(
                CreateModel {
                    gitea_url: url_value,
                    path: path_value,
                    remote_name: remote_value,
                    gitea_name: name_value,
                    description: description_value,
                    default_branch: branch_value,
                    private: private_value,
                    template: template_value,
                },
            ),
            used: s.used,
            notes: seq![s.note],
        },
    }
}

/// The immutable parameter record of repository creation. It is constructed
/// once per invocation by [`CreateParameters::prompt_for_missing`], consumed
/// by the one collaborator call it configures, and never mutated. Its
/// repository name and default branch are never empty.
pub struct CreateParameters {
    gitea_url: GiteaUrl,
    path: String,
    remote_name: String,
    gitea_name: String,
    description: String,
    default_branch: String,
    private: bool,
    template: bool,
}

impl View for CreateParameters {
    type V = CreateModel;

    closed spec fn view(&self) -> CreateModel {
        CreateModel {
            gitea_url: self.gitea_url@,
            path: self.path@,
            remote_name: self.remote_name@,
            gitea_name: self.gitea_name@,
            description: self.description@,
            default_branch: self.default_branch@,
            private: self.private,
            template: self.template,
        }
    }
}

impl CreateParameters {
    pub fn gitea_url(&self) -> (r: &GiteaUrl)
        ensures
            r@ == self@.gitea_url,
    {
        &self.gitea_url
    }

    pub fn path(&self) -> (r: &String)
        ensures
            r@ == self@.path,
    {
        &self.path
    }

    pub fn remote_name(&self) -> (r: &String)
        ensures
            r@ == self@.remote_name,
    {
        &self.remote_name
    }

    pub fn gitea_name(&self) -> (r: &String)
        ensures
            r@ == self@.gitea_name,
    {
        &self.gitea_name
    }

    pub fn description(&self) -> (r: &String)
        ensures
            r@ == self@.description,
    {
        &self.description
    }

    pub fn default_branch(&self) -> (r: &String)
        ensures
            r@ == self@.default_branch,
    {
        &self.default_branch
    }

    pub fn private(&self) -> (r: &bool)
        ensures
            *r == self@.private,
    {
        &self.private
    }

    pub fn template(&self) -> (r: &bool)
        ensures
            *r == self@.template,
    {
        &self.template
    }

    /// Resolves every creation field in declaration order, echoing the
    /// explicitly supplied ones and prompting for the rest. `default_path`
    /// is the caller's current directory; `env_gitea_url` is the
    /// environment-supplied forge URL, empty when the variable is unset.
    /// On a scripted source the resolution consumes input and ends exactly
    /// as [`create_trace`] of the inputs says; on a buffered sink it emits
    /// exactly the trace's messages, in order. A record is returned only
    /// with a non-empty repository name and default branch, and when every
    /// field is supplied with valid text, resolution succeeds with no
    /// interactive input at all.
    #[verifier::rlimit(100)]
    #[verifier::spinoff_prover]
    pub fn prompt_for_missing(
        path: &Option<String>,
        gitea_url: &Option<String>,
        remote_name: &Option<String>,
        gitea_name: &Option<String>,
        description: &Option<String>,
        default_branch: &Option<String>,
        private: &Option<bool>,
        template: &Option<bool>,
        default_path: &str,
        env_gitea_url: &str,
        source: &mut LineSource,
        sink: &mut MessageSink,
    ) -> (r: Result<CreateParameters, ParametersError>)
        ensures
            final(source).is_scripted() == old(source).is_scripted(),
            final(sink).is_buffered() == old(sink).is_buffered(),
            !old(sink).is_buffered() ==> *final(sink) == *old(sink),
            r matches Ok(cp) ==> {
                &&& path matches Some(v) ==> cp@.path == v@
                &&& gitea_url matches Some(v) ==> cp@.gitea_url == v@
                &&& remote_name matches Some(v) ==> cp@.remote_name == v@
                &&& gitea_name matches Some(v) ==> cp@.gitea_name == v@
                &&& description matches Some(v) ==> cp@.description == v@
                &&& default_branch matches Some(v) ==> cp@.default_branch == v@
                &&& private matches Some(b) ==> cp@.private == b
                &&& template matches Some(b) ==> cp@.template == b
                &&& cp@.gitea_name.len() > 0
                &&& cp@.default_branch.len() > 0
            },
            path is Some && gitea_url is Some && remote_name is Some && gitea_name is Some
                && description is Some && default_branch is Some && private is Some
                && template is Some ==> *final(source) == *old(source),
            path is Some && gitea_url is Some && remote_name is Some && (gitea_name
                matches Some(n) && n@.len() > 0) && description is Some && (default_branch
                matches Some(b) && b@.len() > 0) && private is Some && template is Some ==> r
                is Ok,
            old(source).is_scripted() ==> ({
                let t = create_trace(
                    path.deep_view(),
                    gitea_url.deep_view(),
                    remote_name.deep_view(),
                    gitea_name.deep_view(),
                    description.deep_view(),
                    default_branch.deep_view(),
                    *private,
                    *template,
                    default_path@,
                    env_gitea_url@,
                    old(source).pending(),
                );
                &&& 0 <= t.used <= old(source).pending().len()
                &&& final(source).pending() == old(source).pending().skip(t.used)
                &&& t.outcome matches CreateOutcome::Resolved(m) ==> (r matches Ok(cp) && cp@
                    == m)
                &&& t.outcome is OutOfInput ==> (r matches Err(e) && e
                    matches ParametersError::Io(msg) && msg@ == "end of input"@)
                &&& t.outcome is InvalidUrl ==> (r matches Err(e) && e
                    matches ParametersError::Other(msg) && msg@ == "Missing or invalid Gitea URL"@)
                &&& t.outcome matches CreateOutcome::InvalidBool(label) ==> (r matches Err(e)
                    && e matches ParametersError::Other(msg) && msg@
                    == crate::resolve::invalid_bool_message(label))
                &&& t.outcome matches CreateOutcome::EmptyValue(label) ==> (r matches Err(e)
                    && e matches ParametersError::Other(msg) && msg@
                    == crate::resolve::empty_field_message(label))
            }),
            old(sink).is_buffered() && (old(source).is_scripted() || (path is Some && gitea_url
                is Some && remote_name is Some && gitea_name is Some && description is Some
                && default_branch is Some && private is Some && template is Some)) ==> final(sink).log()
                == old(sink).log() + create_trace(
                path.deep_view(),
                gitea_url.deep_view(),
                remote_name.deep_view(),
                gitea_name.deep_view(),
                description.deep_view(),
                default_branch.deep_view(),
                *private,
                *template,
                default_path@,
                env_gitea_url@,
                old(source).pending(),
            ).notes,
    {
        proof {
            reveal(trace_from_url);
        }
        let ghost source0 = *source;
        let ghost sink0 = *sink;
        let ghost lines0 = source0.pending();
        let ghost log0 = sink0.log();
        let ghost scripted = source0.is_scripted();
        let ghost all_some = path is Some && gitea_url is Some && remote_name is Some
            && gitea_name is Some && description is Some && default_branch is Some && private
            is Some && template is Some;
        let ghost watched = sink0.is_buffered() && (scripted || all_some);
        let ghost t = create_trace(
            path.deep_view(),
            gitea_url.deep_view(),
            remote_name.deep_view(),
            gitea_name.deep_view(),
            description.deep_view(),
            default_branch.deep_view(),
            *private,
            *template,
            default_path@,
            env_gitea_url@,
            lines0,
        );
        let ghost s1 = string_step(path.deep_view(), "Repository path"@, default_path@, lines0);
        let path_value = match prompt_for_path(path, default_path, source, sink) {
            Ok(v) => v,
            Err(e) => {
                proof {
                    if scripted {
                        assert(!s1.ok);
                        assert(t.outcome is OutOfInput && t.used == s1.used);
                        assert(t.notes =~= seq![s1.note]);
                    }
                    if watched {
                        assert(sink.log() =~= log0 + t.notes);
                    }
                }
                return Err(e);
            },
        };
        let ghost l1 = lines0.skip(s1.used);
        let ghost s2 = url_step(gitea_url.deep_view(), env_gitea_url@, l1);
        let url_value = match prompt_for_gitea_url(gitea_url, env_gitea_url, source, sink) {
            Ok(v) => v,
            Err(e) => {
                proof {
                    if scripted {
                        assert(s1.ok);
                        lemma_skip_skip(lines0, s1.used, s2.used);
                        assert(t.used == s1.used + s2.used);
                        assert(t.notes =~= seq![s1.note, s2.note]);
                        if s2.outcome is Invalid {
                            assert(t.outcome is InvalidUrl);
                        } else {
                            assert(s2.outcome is OutOfInput);
                            assert(t.outcome is OutOfInput);
                        }
                    }
                    if watched {
                        assert(sink.log() =~= log0 + t.notes);
                    }
                }
                return Err(e);
            },
        };
        let ghost l2 = l1.skip(s2.used);
        let ghost t3 = trace_from_remote(
            remote_name.deep_view(),
            gitea_name.deep_view(),
            description.deep_view(),
            default_branch.deep_view(),
            *private,
            *template,
            l2,
            s1.value,
            s2.outcome->Url_0,
        );
        let r = resolve_from_remote(
            remote_name,
            gitea_name,
            description,
            default_branch,
            private,
            template,
            path_value,
            url_value,
            source,
            sink,
        );
        proof {
            if scripted || all_some {
                assert(s1.ok);
                assert(s2.outcome matches UrlOutcome::Url(u) && u == s2.outcome->Url_0);
                assert(t == after_step(s1.note, s1.used, after_step(s2.note, s2.used, t3)));
            }
            if scripted {
                assert(t.used == s1.used + s2.used + t3.used);
                lemma_skip_skip(lines0, s1.used, s2.used);
                lemma_skip_skip(lines0, s1.used + s2.used, t3.used);
            }
            if watched && !scripted {
                assert(s1.used == 0 && s2.used == 0);
                assert(l1 =~= lines0);
                assert(l2 =~= lines0);
            }
            if watched {
                assert(sink.log() =~= log0 + t.notes);
            }
        }
        r
    }
}

/// Resolves the remote name and the repository name, whose default is the
/// final segment of the already-resolved path and whose resolved value must
/// not be empty, then hands on to the fields after them.
#[verifier::rlimit(100)]
#[verifier::spinoff_prover]
fn resolve_from_remote(
    remote_name: &Option<String>,
    gitea_name: &Option<String>,
    description: &Option<String>,
    default_branch: &Option<String>,
    private: &Option<bool>,
    template: &Option<bool>,
    path_value: String,
    url_value: GiteaUrl,
    source: &mut LineSource,
    sink: &mut MessageSink,
) -> (r: Result<CreateParameters, ParametersError>)
    ensures
        final(source).is_scripted() == old(source).is_scripted(),
        final(sink).is_buffered() == old(sink).is_buffered(),
        !old(sink).is_buffered() ==> *final(sink) == *old(sink),
        r matches Ok(cp) ==> {
            &&& cp@.path == path_value@
            &&& cp@.gitea_url == url_value@
            &&& remote_name matches Some(v) ==> cp@.remote_name == v@
            &&& gitea_name matches Some(v) ==> cp@.gitea_name == v@
            &&& description matches Some(v) ==> cp@.description == v@
            &&& default_branch matches Some(v) ==> cp@.default_branch == v@
            &&& private matches Some(b) ==> cp@.private == b
            &&& template matches Some(b) ==> cp@.template == b
            &&& cp@.gitea_name.len() > 0
            &&& cp@.default_branch.len() > 0
        },
        remote_name is Some && gitea_name is Some && description is Some
            && default_branch is Some && private is Some && template is Some ==> *final(source)
            == *old(source),
        remote_name is Some && (gitea_name matches Some(n) && n@.len() > 0) && description
            is Some && (default_branch matches Some(b) && b@.len() > 0) && private is Some
            && template is Some ==> r is Ok,
        old(source).is_scripted() ==> ({
            let t = trace_from_remote(
                remote_name.deep_view(),
                gitea_name.deep_view(),
                description.deep_view(),
                default_branch.deep_view(),
                *private,
                *template,
                old(source).pending(),
                path_value@,
                url_value@,
            );
            &&& 0 <= t.used <= old(source).pending().len()
            &&& !(t.outcome is InvalidUrl)
            &&& final(source).pending() == old(source).pending().skip(t.used)
            &&& t.outcome matches CreateOutcome::Resolved(m) ==> (r matches Ok(cp) && cp@ == m)
            &&& t.outcome is OutOfInput ==> (r matches Err(e) && e
                matches ParametersError::Io(msg) && msg@ == "end of input"@)
            &&& t.outcome matches CreateOutcome::InvalidBool(label) ==> (r matches Err(e)
                && e matches ParametersError::Other(msg) && msg@
                == crate::resolve::invalid_bool_message(label))
            &&& t.outcome matches CreateOutcome::EmptyValue(label) ==> (r matches Err(e)
                && e matches ParametersError::Other(msg) && msg@
                == crate::resolve::empty_field_message(label))
        }),
        old(sink).is_buffered() && (old(source).is_scripted() || (remote_name is Some
            && gitea_name is Some && description is Some && default_branch is Some && private
            is Some && template is Some)) ==> final(sink).log() == old(sink).log()
            + trace_from_remote(
            remote_name.deep_view(),
            gitea_name.deep_view(),
            description.deep_view(),
            default_branch.deep_view(),
            *private,
            *template,
            old(source).pending(),
            path_value@,
            url_value@,
        ).notes,
{
    proof {
        reveal(trace_from_remote);
        reveal(trace_from_name);
    }
    let ghost source0 = *source;
    let ghost sink0 = *sink;
    let ghost lines0 = source0.pending();
    let ghost log0 = sink0.log();
    let ghost scripted = source0.is_scripted();
    let ghost all_some = remote_name is Some && gitea_name is Some && description is Some
        && default_branch is Some && private is Some && template is Some;
    let ghost watched = sink0.is_buffered() && (scripted || all_some);
    let ghost t = trace_from_remote(
        remote_name.deep_view(),
        gitea_name.deep_view(),
        description.deep_view(),
        default_branch.deep_view(),
        *private,
        *template,
        lines0,
        path_value@,
        url_value@,
    );
    let ghost s3 = string_step(remote_name.deep_view(), "Remote name"@, "origin"@, lines0);
    let remote_name_value = match prompt_for_remote_name(remote_name, source, sink) {
        Ok(v) => v,
        Err(e) => {
            proof {
                if scripted {
                    assert(!s3.ok);
                    assert(t.outcome is OutOfInput && t.used == s3.used);
                    assert(t.notes =~= seq![s3.note]);
                }
                if watched {
                    assert(sink.log() =~= log0 + t.notes);
                }
            }
            return Err(e);
        },
    };
    let ghost l3 = lines0.skip(s3.used);
    let name_default = last_segment(path_value.as_str());
    let ghost s4 = string_step(
        gitea_name.deep_view(),
        "Repository name"@,
        last_path_segment(path_value@),
        l3,
    );
    let gitea_name_value = match maybe_prompt_for_string(
        gitea_name,
        name_default.as_str(),
        "Repository name",
        source,
        sink,
    ) {
        Ok(v) => v,
        Err(e) => {
            proof {
                if scripted {
                    assert(s3.ok && !s4.ok);
                    lemma_skip_skip(lines0, s3.used, s4.used);
                    assert(t.outcome is OutOfInput && t.used == s3.used + s4.used);
                    assert(t.notes =~= seq![s3.note, s4.note]);
                }
                if watched {
                    assert(sink.log() =~= log0 + t.notes);
                }
            }
            return Err(e);
        },
    };
    if gitea_name_value.as_str().unicode_len() == 0 {
        let mut message = String::from_str("Repository name");
        message.append(" must not be empty");
        proof {
            assert(message@ =~= crate::resolve::empty_field_message("Repository name"@));
            if scripted {
                assert(s3.ok && s4.ok && s4.value.len() == 0);
                lemma_skip_skip(lines0, s3.used, s4.used);
                assert(t.outcome == CreateOutcome::EmptyValue("Repository name"@));
                assert(t.used == s3.used + s4.used);
                assert(t.notes =~= seq![s3.note, s4.note]);
            }
            if watched && !scripted {
                assert(s3.used == 0 && s4.used == 0);
                assert(l3 =~= lines0);
                assert(t.notes =~= seq![s3.note, s4.note]);
            }
            if watched {
                assert(sink.log() =~= log0 + t.notes);
            }
        }
        return Err(ParametersError::Other(message));
    }
    let ghost l4 = l3.skip(s4.used);
    let ghost t5 = trace_from_description(
        description.deep_view(),
        default_branch.deep_view(),
        *private,
        *template,
        l4,
        path_value@,
        url_value@,
        s3.value,
        s4.value,
    );
    let r = resolve_from_description(
        description,
        default_branch,
        private,
        template,
        path_value,
        url_value,
        remote_name_value,
        gitea_name_value,
        source,
        sink,
    );
    proof {
        if scripted || all_some {
            assert(s3.ok && s4.ok && s4.value.len() > 0);
            assert(t == after_step(s3.note, s3.used, after_step(s4.note, s4.used, t5)));
        }
        if scripted {
            assert(t.used == s3.used + s4.used + t5.used);
            lemma_skip_skip(lines0, s3.used, s4.used);
            lemma_skip_skip(lines0, s3.used + s4.used, t5.used);
        }
        if watched && !scripted {
            assert(s3.used == 0 && s4.used == 0);
            assert(l3 =~= lines0);
            assert(l4 =~= lines0);
        }
        if watched {
            assert(sink.log() =~= log0 + t.notes);
        }
    }
    r
}

/// Resolves the description, which may stay empty, and the default branch,
/// which must not, then hands on to the two boolean flags.
#[verifier::rlimit(100)]
#[verifier::spinoff_prover]
fn resolve_from_description(
    description: &Option<String>,
    default_branch: &Option<String>,
    private: &Option<bool>,
    template: &Option<bool>,
    path_value: String,
    url_value: GiteaUrl,
    remote_value: String,
    name_value: String,
    source: &mut LineSource,
    sink: &mut MessageSink,
) -> (r: Result<CreateParameters, ParametersError>)
    requires
        name_value@.len() > 0,
    ensures
        final(source).is_scripted() == old(source).is_scripted(),
        final(sink).is_buffered() == old(sink).is_buffered(),
        !old(sink).is_buffered() ==> *final(sink) == *old(sink),
        r matches Ok(cp) ==> {
            &&& cp@.path == path_value@
            &&& cp@.gitea_url == url_value@
            &&& cp@.remote_name == remote_value@
            &&& cp@.gitea_name == name_value@
            &&& description matches Some(v) ==> cp@.description == v@
            &&& default_branch matches Some(v) ==> cp@.default_branch == v@
            &&& private matches Some(b) ==> cp@.private == b
            &&& template matches Some(b) ==> cp@.template == b
            &&& cp@.gitea_name.len() > 0
            &&& cp@.default_branch.len() > 0
        },
        description is Some && default_branch is Some && private is Some && template is Some
            ==> *final(source) == *old(source),
        description is Some && (default_branch matches Some(b) && b@.len() > 0) && private
            is Some && template is Some ==> r is Ok,
        old(source).is_scripted() ==> ({
            let t = trace_from_description(
                description.deep_view(),
                default_branch.deep_view(),
                *private,
                *template,
                old(source).pending(),
                path_value@,
                url_value@,
                remote_value@,
                name_value@,
            );
            &&& 0 <= t.used <= old(source).pending().len()
            &&& !(t.outcome is InvalidUrl)
            &&& final(source).pending() == old(source).pending().skip(t.used)
            &&& t.outcome matches CreateOutcome::Resolved(m) ==> (r matches Ok(cp) && cp@ == m)
            &&& t.outcome is OutOfInput ==> (r matches Err(e) && e
                matches ParametersError::Io(msg) && msg@ == "end of input"@)
            &&& t.outcome matches CreateOutcome::InvalidBool(label) ==> (r matches Err(e)
                && e matches ParametersError::Other(msg) && msg@
                == crate::resolve::invalid_bool_message(label))
            &&& t.outcome matches CreateOutcome::EmptyValue(label) ==> (r matches Err(e)
                && e matches ParametersError::Other(msg) && msg@
                == crate::resolve::empty_field_message(label))
        }),
        old(sink).is_buffered() && (old(source).is_scripted() || (description is Some
            && default_branch is Some && private is Some && template is Some)) ==> final(sink).log() == old(sink).log() + trace_from_description(
            description.deep_view(),
            default_branch.deep_view(),
            *private,
            *template,
            old(source).pending(),
            path_value@,
            url_value@,
            remote_value@,
            name_value@,
        ).notes,
{
    proof {
        reveal(trace_from_description);
        reveal(trace_from_branch);
    }
    let ghost source0 = *source;
    let ghost sink0 = *sink;
    let ghost lines0 = source0.pending();
    let ghost log0 = sink0.log();
    let ghost scripted = source0.is_scripted();
    let ghost all_some = description is Some && default_branch is Some && private is Some
        && template is Some;
    let ghost watched = sink0.is_buffered() && (scripted || all_some);
    let ghost t = trace_from_description(
        description.deep_view(),
        default_branch.deep_view(),
        *private,
        *template,
        lines0,
        path_value@,
        url_value@,
        remote_value@,
        name_value@,
    );
    let ghost s5 = string_step(description.deep_view(), "Repository description"@, ""@, lines0);
    let description_value = match maybe_prompt_for_string(
        description,
        "",
        "Repository description",
        source,
        sink,
    ) {
        Ok(v) => v,
        Err(e) => {
            proof {
                if scripted {
                    assert(!s5.ok);
                    assert(t.outcome is OutOfInput && t.used == s5.used);
                    assert(t.notes =~= seq![s5.note]);
                }
                if watched {
                    assert(sink.log() =~= log0 + t.notes);
                }
            }
            return Err(e);
        },
    };
    let ghost l5 = lines0.skip(s5.used);
    let ghost s6 = string_step(default_branch.deep_view(), "Default branch"@, "main"@, l5);
    let default_branch_value = match maybe_prompt_for_string(
        default_branch,
        "main",
        "Default branch",
        source,
        sink,
    ) {
        Ok(v) => v,
        Err(e) => {
            proof {
                if scripted {
                    assert(s5.ok && !s6.ok);
                    lemma_skip_skip(lines0, s5.used, s6.used);
                    assert(t.outcome is OutOfInput && t.used == s5.used + s6.used);
                    assert(t.notes =~= seq![s5.note, s6.note]);
                }
                if watched {
                    assert(sink.log() =~= log0 + t.notes);
                }
            }
            return Err(e);
        },
    };
    if default_branch_value.as_str().unicode_len() == 0 {
        let mut message = String::from_str("Default branch");
        message.append(" must not be empty");
        proof {
            assert(message@ =~= crate::resolve::empty_field_message("Default branch"@));
            if scripted {
                assert(s5.ok && s6.ok && s6.value.len() == 0);
                lemma_skip_skip(lines0, s5.used, s6.used);
                assert(t.outcome == CreateOutcome::EmptyValue("Default branch"@));
                assert(t.used == s5.used + s6.used);
                assert(t.notes =~= seq![s5.note, s6.note]);
            }
            if watched && !scripted {
                assert(s5.used == 0 && s6.used == 0);
                assert(l5 =~= lines0);
                assert(t.notes =~= seq![s5.note, s6.note]);
            }
            if watched {
                assert(sink.log() =~= log0 + t.notes);
            }
        }
        return Err(ParametersError::Other(message));
    }
    let ghost l6 = l5.skip(s6.used);
    let ghost t7 = trace_from_private(
        *private,
        *template,
        l6,
        path_value@,
        url_value@,
        remote_value@,
        name_value@,
        s5.value,
        s6.value,
    );
    let r = resolve_flags(
        private,
        template,
        path_value,
        url_value,
        remote_value,
        name_value,
        description_value,
        default_branch_value,
        source,
        sink,
    );
    proof {
        if scripted || all_some {
            assert(s5.ok && s6.ok && s6.value.len() > 0);
            assert(t == after_step(s5.note, s5.used, after_step(s6.note, s6.used, t7)));
        }
        if scripted {
            assert(t.used == s5.used + s6.used + t7.used);
            lemma_skip_skip(lines0, s5.used, s6.used);
            lemma_skip_skip(lines0, s5.used + s6.used, t7.used);
        }
        if watched && !scripted {
            assert(s5.used == 0 && s6.used == 0);
            assert(l5 =~= lines0);
            assert(l6 =~= lines0);
        }
        if watched {
            assert(sink.log() =~= log0 + t.notes);
        }
    }
    r
}

/// Resolves the two boolean flags, which default to `false`, and completes
/// the parameter record.
#[verifier::rlimit(100)]
#[verifier::spinoff_prover]
fn resolve_flags(
    private: &Option<bool>,
    template: &Option<bool>,
    path_value: String,
    url_value: GiteaUrl,
    remote_value: String,
    name_value: String,
    description_value: String,
    branch_value: String,
    source: &mut LineSource,
    sink: &mut MessageSink,
) -> (r: Result<CreateParameters, ParametersError>)
    requires
        name_value@.len() > 0,
        branch_value@.len() > 0,
    ensures
        final(source).is_scripted() == old(source).is_scripted(),
        final(sink).is_buffered() == old(sink).is_buffered(),
        !old(sink).is_buffered() ==> *final(sink) == *old(sink),
        r matches Ok(cp) ==> {
            &&& cp@.path == path_value@
            &&& cp@.gitea_url == url_value@
            &&& cp@.remote_name == remote_value@
            &&& cp@.gitea_name == name_value@
            &&& cp@.description == description_value@
            &&& cp@.default_branch == branch_value@
            &&& private matches Some(b) ==> cp@.private == b
            &&& template matches Some(b) ==> cp@.template == b
            &&& cp@.gitea_name.len() > 0
            &&& cp@.default_branch.len() > 0
        },
        private is Some && template is Some ==> *final(source) == *old(source) && r is Ok,
        old(source).is_scripted() ==> ({
            let t = trace_from_private(
                *private,
                *template,
                old(source).pending(),
                path_value@,
                url_value@,
                remote_value@,
                name_value@,
                description_value@,
                branch_value@,
            );
            &&& 0 <= t.used <= old(source).pending().len()
            &&& !(t.outcome is InvalidUrl)
            &&& !(t.outcome is EmptyValue)
            &&& final(source).pending() == old(source).pending().skip(t.used)
            &&& t.outcome matches CreateOutcome::Resolved(m) ==> (r matches Ok(cp) && cp@ == m)
            &&& t.outcome is OutOfInput ==> (r matches Err(e) && e
                matches ParametersError::Io(msg) && msg@ == "end of input"@)
            &&& t.outcome matches CreateOutcome::InvalidBool(label) ==> (r matches Err(e)
                && e matches ParametersError::Other(msg) && msg@
                == crate::resolve::invalid_bool_message(label))
        }),
        old(sink).is_buffered() && (old(source).is_scripted() || (private is Some && template
            is Some)) ==> final(sink).log() == old(sink).log() + trace_from_private(
            *private,
            *template,
            old(source).pending(),
            path_value@,
            url_value@,
            remote_value@,
            name_value@,
            description_value@,
            branch_value@,
        ).notes,
{
    proof {
        reveal(trace_from_private);
        reveal(trace_from_template);
    }
    let ghost source0 = *source;
    let ghost sink0 = *sink;
    let ghost lines0 = source0.pending();
    let ghost log0 = sink0.log();
    let ghost scripted = source0.is_scripted();
    let ghost all_some = private is Some && template is Some;
    let ghost watched = sink0.is_buffered() && (scripted || all_some);
    let ghost t = trace_from_private(
        *private,
        *template,
        lines0,
        path_value@,
        url_value@,
        remote_value@,
        name_value@,
        description_value@,
        branch_value@,
    );
    let ghost s7 = bool_step(*private, "Private"@, false, lines0);
    let private_value = match maybe_prompt_for_bool(private, false, "Private", source, sink) {
        Ok(v) => v,
        Err(e) => {
            proof {
                if scripted {
                    assert(t.used == s7.used);
                    assert(t.notes =~= seq![s7.note]);
                }
                if watched {
                    assert(sink.log() =~= log0 + t.notes);
                }
            }
            return Err(e);
        },
    };
    let ghost l7 = lines0.skip(s7.used);
    let ghost s8 = bool_step(*template, "Template"@, false, l7);
    let template_value = match maybe_prompt_for_bool(template, false, "Template", source, sink) {
        Ok(v) => v,
        Err(e) => {
            proof {
                if scripted {
                    assert(s7.outcome is Value);
                    lemma_skip_skip(lines0, s7.used, s8.used);
                    assert(t.used == s7.used + s8.used);
                    assert(t.notes =~= seq![s7.note, s8.note]);
                }
                if watched {
                    assert(sink.log() =~= log0 + t.notes);
                }
            }
            return Err(e);
        },
    };
    let record = CreateParameters {
        gitea_url: url_value,
        path: path_value,
        remote_name: remote_value,
        gitea_name: name_value,
        description: description_value,
        default_branch: branch_value,
        private: private_value,
        template: template_value,
    };
    proof {
        if scripted || all_some {
            assert(s7.outcome is Value && s8.outcome is Value);
            assert(t.notes =~= seq![s7.note, s8.note]);
        }
        if scripted {
            assert(t.used == s7.used + s8.used);
            lemma_skip_skip(lines0, s7.used, s8.used);
            assert(t.outcome matches CreateOutcome::Resolved(m) && record@ =~= m);
        }
        if watched && !scripted {
            assert(s7.used == 0);
            assert(l7 =~= lines0);
        }
        if watched {
            assert(sink.log() =~= log0 + t.notes);
        }
    }
    Ok(record)
}

/// Skipping `a` lines and then `b` more skips `a + b` lines.
proof fn lemma_skip_skip(s: Seq<Seq<char>>, a: int, b: int)
    requires
        0 <= a,
        0 <= b,
        a + b <= s.len(),
    ensures
        s.skip(a).skip(b) == s.skip(a + b),
{
    assert(s.skip(a).skip(b) =~= s.skip(a + b));
}

} // verus!
