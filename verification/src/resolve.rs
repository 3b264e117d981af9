//! Resolution of one field from its three competing sources: an explicitly
//! supplied value, a default (literal, environment-derived, or derived from an
//! earlier field), and an interactive prompt.
//!
//! An explicit value is trusted and echoed with a display line; otherwise the
//! field's prompt is emitted and one line of input decides: empty input takes
//! the default, anything else runs the field's validator. The spec "step"
//! functions below state exactly what each field resolution does to the input
//! script, to the message log, and to the resolved value.

use vstd::prelude::*;

use crate::console::{LineSource, MessageSink, Note};
use crate::gitea_url::{url_parse, GiteaUrl};
use crate::parameters_error::ParametersError;
use crate::text::{
    eq_ignore_ascii_case, matches_keyword, resolve_line, spec_resolve_line,
};

verus! {

/// The display line that echoes an explicitly supplied value.
pub open spec fn display_line(label: Seq<char>, value: Seq<char>) -> Seq<char> {
    label + ": "@ + value
}

/// The text of a field's prompt; the default is shown only when there is one.
pub open spec fn prompt_text(label: Seq<char>, default: Seq<char>) -> Seq<char> {
    if default.len() == 0 {
        label + ": "@
    } else {
        label + " [default: "@ + default + "]: "@
    }
}

/// The literal a boolean value is displayed and defaulted as.
pub open spec fn bool_text(b: bool) -> Seq<char> {
    if b {
        "true"@
    } else {
        "false"@
    }
}

/// The prompt label of a boolean field names its two accepted literals.
pub open spec fn bool_prompt_label(label: Seq<char>) -> Seq<char> {
    label + " (true or false)"@
}

/// A prompted boolean accepts only the case-insensitive literals `true` and
/// `false`; anything else is a validation failure, never coerced.
pub open spec fn parse_bool_input(s: Seq<char>) -> Option<bool> {
    if eq_ignore_ascii_case(s, "true"@) {
        Some(true)
    } else if eq_ignore_ascii_case(s, "false"@) {
        Some(false)
    } else {
        None
    }
}

/// The message a boolean field's validation failure carries.
pub open spec fn invalid_bool_message(label: Seq<char>) -> Seq<char> {
    "Invalid value for "@ + label + ": expected 'true' or 'false'"@
}

/// The message a required string field carries when its resolved value is
/// empty; the label names the offending field.
pub open spec fn empty_field_message(label: Seq<char>) -> Seq<char> {
    label + " must not be empty"@
}

/// What resolving one string-valued field does, given the pending input
/// lines: whether it succeeded (it fails only when input was exhausted), the
/// resolved value, how many lines it consumed, and the message it emitted.
pub struct FieldStep {
    pub ok: bool,
    pub value: Seq<char>,
    pub used: int,
    pub note: Note,
}

pub open spec fn string_step(
    explicit: Option<Seq<char>>,
    label: Seq<char>,
    default: Seq<char>,
    lines: Seq<Seq<char>>,
) -> FieldStep {
    match explicit {
        Some(v) => FieldStep { ok: true, value: v, used: 0, note: Note::Shown(display_line(label, v)) },
        None => if lines.len() > 0 {
            FieldStep {
                ok: true,
                value: spec_resolve_line(lines[0], default),
                used: 1,
                note: Note::Prompt(prompt_text(label, default)),
            }
        } else {
            FieldStep {
                ok: false,
                value: Seq::<char>::empty(),
                used: 0,
                note: Note::Prompt(prompt_text(label, default)),
            }
        },
    }
}

/// What resolving the forge URL field does. An explicit value is accepted
/// verbatim; a prompted value must parse as an absolute URL.
pub enum UrlOutcome {
    Url(Seq<char>),
    Invalid,
    OutOfInput,
}

pub struct UrlStep {
    pub outcome: UrlOutcome,
    pub used: int,
    pub note: Note,
}

pub open spec fn url_step(
    explicit: Option<Seq<char>>,
    env_default: Seq<char>,
    lines: Seq<Seq<char>>,
) -> UrlStep {
    match explicit {
        Some(v) => UrlStep {
            outcome: UrlOutcome::Url(v),
            used: 0,
            note: Note::Shown(display_line("Gitea URL"@, v)),
        },
        None => if lines.len() > 0 {
            let note = Note::Prompt(prompt_text("Gitea URL"@, env_default));
            match url_parse(spec_resolve_line(lines[0], env_default)) {
                Some(n) => UrlStep { outcome: UrlOutcome::Url(n), used: 1, note },
                None => UrlStep { outcome: UrlOutcome::Invalid, used: 1, note },
            }
        } else {
            UrlStep {
                outcome: UrlOutcome::OutOfInput,
                used: 0,
                note: Note::Prompt(prompt_text("Gitea URL"@, env_default)),
            }
        },
    }
}

/// What resolving one boolean field does. A prompted value must be one of the
/// two boolean literals, after empty input has taken the default.
pub enum BoolOutcome {
    Value(bool),
    Invalid,
    OutOfInput,
}

pub struct BoolStep {
    pub outcome: BoolOutcome,
    pub used: int,
    pub note: Note,
}

pub open spec fn bool_step(
    explicit: Option<bool>,
    label: Seq<char>,
    default: bool,
    lines: Seq<Seq<char>>,
) -> BoolStep {
    match explicit {
        Some(b) => BoolStep {
            outcome: BoolOutcome::Value(b),
            used: 0,
            note: Note::Shown(display_line(label, bool_text(b))),
        },
        None => if lines.len() > 0 {
            let note = Note::Prompt(prompt_text(bool_prompt_label(label), bool_text(default)));
            match parse_bool_input(spec_resolve_line(lines[0], bool_text(default))) {
                Some(b) => BoolStep { outcome: BoolOutcome::Value(b), used: 1, note },
                None => BoolStep { outcome: BoolOutcome::Invalid, used: 1, note },
            }
        } else {
            BoolStep {
                outcome: BoolOutcome::OutOfInput,
                used: 0,
                note: Note::Prompt(prompt_text(bool_prompt_label(label), bool_text(default))),
            }
        },
    }
}

/// Builds the text of a field's prompt.
fn build_prompt_text(label: &str, default: &str) -> (r: String)
    ensures
        r@ == prompt_text(label@, default@),
{
    let mut t = String::from_str(label);
    if default.unicode_len() == 0 {
        t.append(": ");
    } else {
        t.append(" [default: ");
        t.append(default);
        t.append("]: ");
        proof {
            assert(t@ =~= label@ + " [default: "@ + default@ + "]: "@);
        }
    }
    t
}

/// Echoes an explicitly supplied value with a display line; no input is read.
pub fn display_value(label: &str, value: &str, sink: &mut MessageSink)
    ensures
        final(sink).is_buffered() == old(sink).is_buffered(),
        old(sink).is_buffered() ==> final(sink).log() == old(sink).log().push(
            Note::Shown(display_line(label@, value@)),
        ),
        !old(sink).is_buffered() ==> *final(sink) == *old(sink),
{
    let mut t = String::from_str(label);
    t.append(": ");
    t.append(value);
    proof {
        assert(t@ =~= display_line(label@, value@));
    }
    sink.show_line(t.as_str());
}

/// Prompts for one value: emits the prompt, reads one line, and resolves it
/// against the default — empty input takes the default, anything else is the
/// trimmed line. Fails only when reading fails.
pub fn prompt_for_value(label: &str, default: &str, source: &mut LineSource, sink: &mut MessageSink) -> (r:
    Result<String, ParametersError>)
    ensures
        final(source).is_scripted() == old(source).is_scripted(),
        final(sink).is_buffered() == old(sink).is_buffered(),
        old(sink).is_buffered() ==> final(sink).log() == old(sink).log().push(
            Note::Prompt(prompt_text(label@, default@)),
        ),
        !old(sink).is_buffered() ==> *final(sink) == *old(sink),
        old(source).is_scripted() && old(source).pending().len() > 0 ==> {
            &&& r matches Ok(v) && v@ == spec_resolve_line(old(source).pending()[0], default@)
            &&& final(source).pending() == old(source).pending().skip(1)
        },
        old(source).is_scripted() && old(source).pending().len() == 0 ==> {
            &&& r matches Err(e) && e matches ParametersError::Io(m) && m@ == "end of input"@
            &&& *final(source) == *old(source)
        },
        !old(source).is_scripted() ==> *final(source) == *old(source),
        r matches Ok(v) ==> exists|line: Seq<char>| v@ == spec_resolve_line(line, default@),
{
    let prompt = build_prompt_text(label, default);
    sink.show_prompt(prompt.as_str());
    match source.read_line() {
        Ok(line) => {
            let v = resolve_line(line.as_str(), default);
            proof {
                assert(v@ == spec_resolve_line(line@, default@));
            }
            Ok(v)
        },
        Err(m) => Err(ParametersError::Io(m)),
    }
}

/// The prompt primitive of the creation flow; resolves one prompted value
/// exactly as [`prompt_for_value`] does.
pub fn prompt_for_string(label: &str, default: &str, source: &mut LineSource, sink: &mut MessageSink) -> (r:
    Result<String, ParametersError>)
    ensures
        final(source).is_scripted() == old(source).is_scripted(),
        final(sink).is_buffered() == old(sink).is_buffered(),
        old(sink).is_buffered() ==> final(sink).log() == old(sink).log().push(
            Note::Prompt(prompt_text(label@, default@)),
        ),
        !old(sink).is_buffered() ==> *final(sink) == *old(sink),
        old(source).is_scripted() && old(source).pending().len() > 0 ==> {
            &&& r matches Ok(v) && v@ == spec_resolve_line(old(source).pending()[0], default@)
            &&& final(source).pending() == old(source).pending().skip(1)
        },
        old(source).is_scripted() && old(source).pending().len() == 0 ==> {
            &&& r matches Err(e) && e matches ParametersError::Io(m) && m@ == "end of input"@
            &&& *final(source) == *old(source)
        },
        !old(source).is_scripted() ==> *final(source) == *old(source),
        r matches Ok(v) ==> exists|line: Seq<char>| v@ == spec_resolve_line(line, default@),
{
    prompt_for_value(label, default, source, sink)
}

/// Resolves one string field: an explicit value is echoed and taken verbatim,
/// with no interactive input; otherwise the field is prompted.
pub fn maybe_prompt_for_string(
    value: &Option<String>,
    default: &str,
    label: &str,
    source: &mut LineSource,
    sink: &mut MessageSink,
) -> (r: Result<String, ParametersError>)
    ensures
        final(source).is_scripted() == old(source).is_scripted(),
        final(sink).is_buffered() == old(sink).is_buffered(),
        value matches Some(v) ==> (r matches Ok(out) && out@ == v@ && *final(source) == *old(
            source,
        )),
        value is None && !old(source).is_scripted() ==> *final(source) == *old(source),
        !old(sink).is_buffered() ==> *final(sink) == *old(sink),
        old(sink).is_buffered() ==> final(sink).log() == old(sink).log().push(
            string_step(value.deep_view(), label@, default@, old(source).pending()).note,
        ),
        old(source).is_scripted() ==> ({
            let st = string_step(value.deep_view(), label@, default@, old(source).pending());
            &&& final(source).pending() == old(source).pending().skip(st.used)
            &&& st.ok ==> (r matches Ok(out) && out@ == st.value)
            &&& !st.ok ==> (r matches Err(e) && e matches ParametersError::Io(m) && m@
                == "end of input"@)
        }),
        r matches Ok(out) ==> (value is Some || (exists|line: Seq<char>|
            out@ == spec_resolve_line(line, default@))),
{
    match value {
        Some(v) => {
            display_value(label, v.as_str(), sink);
            Ok(v.clone())
        },
        None => prompt_for_string(label, default, source, sink),
    }
}

/// Resolves one boolean field: an explicit value is echoed and taken as is;
/// a prompted value must be `true` or `false`, case-insensitively, after
/// empty input has taken the default.
pub fn maybe_prompt_for_bool(
    value: &Option<bool>,
    default: bool,
    label: &str,
    source: &mut LineSource,
    sink: &mut MessageSink,
) -> (r: Result<bool, ParametersError>)
    ensures
        final(source).is_scripted() == old(source).is_scripted(),
        final(sink).is_buffered() == old(sink).is_buffered(),
        value matches Some(b) ==> (r matches Ok(out) && out == b && *final(source) == *old(
            source,
        )),
        value is None && !old(source).is_scripted() ==> *final(source) == *old(source),
        !old(sink).is_buffered() ==> *final(sink) == *old(sink),
        old(sink).is_buffered() ==> final(sink).log() == old(sink).log().push(
            bool_step(*value, label@, default, old(source).pending()).note,
        ),
        old(source).is_scripted() ==> ({
            let st = bool_step(*value, label@, default, old(source).pending());
            &&& final(source).pending() == old(source).pending().skip(st.used)
            &&& st.outcome matches BoolOutcome::Value(b) ==> (r matches Ok(out) && out == b)
            &&& st.outcome is Invalid ==> (r matches Err(e) && e matches ParametersError::Other(m)
                && m@ == invalid_bool_message(label@))
            &&& st.outcome is OutOfInput ==> (r matches Err(e) && e matches ParametersError::Io(m)
                && m@ == "end of input"@)
        }),
        r matches Ok(out) ==> (value is Some || (exists|line: Seq<char>|
            parse_bool_input(spec_resolve_line(line, bool_text(default))) == Some(out))),
{
    match value {
        Some(b) => {
            if *b {
                display_value(label, "true", sink);
            } else {
                display_value(label, "false", sink);
            }
            Ok(*b)
        },
        None => {
            let mut prompt_label = String::from_str(label);
            prompt_label.append(" (true or false)");
            let line = prompt_for_string(
                prompt_label.as_str(),
                if default { "true" } else { "false" },
                source,
                sink,
            )?;
            if matches_keyword(line.as_str(), "true") {
                Ok(true)
            } else if matches_keyword(line.as_str(), "false") {
                Ok(false)
            } else {
                let mut m = String::from_str("Invalid value for ");
                m.append(label);
                m.append(": expected 'true' or 'false'");
                proof {
                    assert(m@ =~= invalid_bool_message(label@));
                }
                Err(ParametersError::Other(m))
            }
        },
    }
}

/// Resolves the remote's name; when prompted, the default is `origin`.
pub fn prompt_for_remote_name(
    remote_name: &Option<String>,
    source: &mut LineSource,
    sink: &mut MessageSink,
) -> (r: Result<String, ParametersError>)
    ensures
        final(source).is_scripted() == old(source).is_scripted(),
        final(sink).is_buffered() == old(sink).is_buffered(),
        remote_name matches Some(v) ==> (r matches Ok(out) && out@ == v@ && *final(source)
            == *old(source)),
        remote_name is None && !old(source).is_scripted() ==> *final(source) == *old(source),
        !old(sink).is_buffered() ==> *final(sink) == *old(sink),
        old(sink).is_buffered() ==> final(sink).log() == old(sink).log().push(
            string_step(remote_name.deep_view(), "Remote name"@, "origin"@, old(source).pending()).note,
        ),
        old(source).is_scripted() ==> ({
            let st = string_step(remote_name.deep_view(), "Remote name"@, "origin"@, old(source).pending());
            &&& final(source).pending() == old(source).pending().skip(st.used)
            &&& st.ok ==> (r matches Ok(out) && out@ == st.value)
            &&& !st.ok ==> (r matches Err(e) && e matches ParametersError::Io(m) && m@
                == "end of input"@)
        }),
{
    maybe_prompt_for_string(remote_name, "origin", "Remote name", source, sink)
}

/// Resolves the repository path; when prompted, the default is the caller's
/// current directory. The path is not checked locally: whether it lies inside
/// a working copy is the version-control collaborator's authority, and its
/// rejection propagates as a resolution failure at the call site.
pub fn prompt_for_path(
    path: &Option<String>,
    default_path: &str,
    source: &mut LineSource,
    sink: &mut MessageSink,
) -> (r: Result<String, ParametersError>)
    ensures
        final(source).is_scripted() == old(source).is_scripted(),
        final(sink).is_buffered() == old(sink).is_buffered(),
        path matches Some(v) ==> (r matches Ok(out) && out@ == v@ && *final(source) == *old(
            source,
        )),
        path is None && !old(source).is_scripted() ==> *final(source) == *old(source),
        !old(sink).is_buffered() ==> *final(sink) == *old(sink),
        old(sink).is_buffered() ==> final(sink).log() == old(sink).log().push(
            string_step(path.deep_view(), "Repository path"@, default_path@, old(source).pending()).note,
        ),
        old(source).is_scripted() ==> ({
            let st = string_step(path.deep_view(), "Repository path"@, default_path@, old(source).pending());
            &&& final(source).pending() == old(source).pending().skip(st.used)
            &&& st.ok ==> (r matches Ok(out) && out@ == st.value)
            &&& !st.ok ==> (r matches Err(e) && e matches ParametersError::Io(m) && m@
                == "end of input"@)
        }),
{
    maybe_prompt_for_string(path, default_path, "Repository path", source, sink)
}

/// Resolves the forge URL. An explicit value was already parsed by the
/// caller's command-line layer and is accepted verbatim; a prompted value,
/// defaulting to the environment-supplied URL, must parse as an absolute URL,
/// and is otherwise rejected with a message naming the field.
pub fn prompt_for_gitea_url(
    gitea_url: &Option<String>,
    env_default: &str,
    source: &mut LineSource,
    sink: &mut MessageSink,
) -> (r: Result<GiteaUrl, ParametersError>)
    ensures
        final(source).is_scripted() == old(source).is_scripted(),
        final(sink).is_buffered() == old(sink).is_buffered(),
        gitea_url matches Some(v) ==> (r matches Ok(out) && out@ == v@ && *final(source)
            == *old(source)),
        gitea_url is None && !old(source).is_scripted() ==> *final(source) == *old(source),
        !old(sink).is_buffered() ==> *final(sink) == *old(sink),
        old(sink).is_buffered() ==> final(sink).log() == old(sink).log().push(
            url_step(gitea_url.deep_view(), env_default@, old(source).pending()).note,
        ),
        old(source).is_scripted() ==> ({
            let st = url_step(gitea_url.deep_view(), env_default@, old(source).pending());
            &&& final(source).pending() == old(source).pending().skip(st.used)
            &&& st.outcome matches UrlOutcome::Url(n) ==> (r matches Ok(out) && out@ == n)
            &&& st.outcome is Invalid ==> (r matches Err(e) && e matches ParametersError::Other(m)
                && m@ == "Missing or invalid Gitea URL"@)
            &&& st.outcome is OutOfInput ==> (r matches Err(e) && e matches ParametersError::Io(m)
                && m@ == "end of input"@)
        }),
        gitea_url is None ==> (r matches Ok(out) ==> out.valid()),
{
    match gitea_url {
        Some(v) => {
            display_value("Gitea URL", v.as_str(), sink);
            Ok(GiteaUrl::from_parsed(v.clone()))
        },
        None => {
            let line = prompt_for_string("Gitea URL", env_default, source, sink)?;
            match GiteaUrl::parse(line.as_str()) {
                Some(u) => Ok(u),
                None => Err(ParametersError::Other(String::from_str("Missing or invalid Gitea URL"))),
            }
        },
    }
}

/// What a pair of mutually exclusive command-line flags collapses to: the
/// negative flag wins `false`, the positive one `true`, and neither means
/// the value is unspecified.
pub open spec fn spec_bool_option(negative: bool, positive: bool) -> Option<bool> {
    if negative {
        Some(false)
    } else if positive {
        Some(true)
    } else {
        None
    }
}

/// Collapses a pair of mutually exclusive command-line flags into one
/// optional boolean, as [`spec_bool_option`] says. The caller rejects the
/// case where both are set before resolution begins.
pub fn bool_option(negative: &bool, positive: &bool) -> (r: Option<bool>)
    ensures
        r == spec_bool_option(*negative, *positive),
{
    if *negative {
        Some(false)
    } else if *positive {
        Some(true)
    } else {
        None
    }
}

} // verus!
