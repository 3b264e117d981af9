//! Laws the resolution engine obeys, stated over the spec functions its
//! contracts use and proved once for all inputs.

use vstd::prelude::*;

use crate::resolve::{bool_text, parse_bool_input};
use crate::text::{eq_ignore_ascii_case, last_path_segment, spec_resolve_line, trim_line_end};

verus! {

/// A boolean field prompted with empty input resolves to its declared
/// default, whichever it is: the empty line takes the default literal, and
/// that literal parses back to the default value.
pub proof fn lemma_empty_prompt_takes_default(line: Seq<char>, default: bool)
    requires
        trim_line_end(line).len() == 0,
    ensures
        parse_bool_input(spec_resolve_line(line, bool_text(default))) == Some(default),
{
    assert(spec_resolve_line(line, bool_text(default)) == bool_text(default));
    if default {
        assert(eq_ignore_ascii_case("true"@, "true"@));
    } else {
        reveal_strlit("true");
        reveal_strlit("false");
        assert(eq_ignore_ascii_case("false"@, "false"@));
        assert(!eq_ignore_ascii_case("false"@, "true"@));
    }
}

/// A prompted boolean is read case-insensitively: any non-empty line whose
/// trimmed text equals `true` ignoring ASCII case resolves to `true`, and
/// likewise for `false`; the default never interferes.
pub proof fn lemma_bool_input_case_insensitive(line: Seq<char>, default: bool)
    requires
        trim_line_end(line).len() > 0,
    ensures
        eq_ignore_ascii_case(trim_line_end(line), "true"@) ==> parse_bool_input(
            spec_resolve_line(line, bool_text(default)),
        ) == Some(true),
        eq_ignore_ascii_case(trim_line_end(line), "false"@) ==> parse_bool_input(
            spec_resolve_line(line, bool_text(default)),
        ) == Some(false),
{
    assert(spec_resolve_line(line, bool_text(default)) == trim_line_end(line));
    if eq_ignore_ascii_case(trim_line_end(line), "false"@) {
        reveal_strlit("true");
        reveal_strlit("false");
        assert(!eq_ignore_ascii_case(trim_line_end(line), "true"@));
    }
}

/// The repository name's default derives from the resolved path: prompted
/// with empty input, the name resolves to the path's final segment.
pub proof fn lemma_repository_name_default(line: Seq<char>, path_value: Seq<char>)
    requires
        trim_line_end(line).len() == 0,
    ensures
        spec_resolve_line(line, last_path_segment(path_value)) == last_path_segment(path_value),
{
}

} // verus!
