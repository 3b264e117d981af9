//! The list command's core: resolving the forge URL without prompting, and
//! the tabular report formatter that renders repository summaries as an
//! aligned, bordered text table.

use vstd::prelude::*;

use crate::app_error::AppError;
use crate::gitea_url::{url_parse, GiteaUrl};

verus! {

/// One repository summary, as the forge collaborator reports it. The
/// description may contain embedded newlines.
pub struct RepositorySummary {
    pub full_name: String,
    pub clone_url: String,
    pub description: String,
}

/// One repository summary, as contracts speak of it.
#[verifier::ext_equal]
pub struct RepositoryModel {
    pub full_name: Seq<char>,
    pub clone_url: Seq<char>,
    pub description: Seq<char>,
}

impl View for RepositorySummary {
    type V = RepositoryModel;

    open spec fn view(&self) -> RepositoryModel {
        RepositoryModel {
            full_name: self.full_name@,
            clone_url: self.clone_url@,
            description: self.description@,
        }
    }
}

impl DeepView for RepositorySummary {
    type V = RepositoryModel;

    open spec fn deep_view(&self) -> RepositoryModel {
        self.view()
    }
}

/// The larger of two lengths.
pub open spec fn int_max(a: int, b: int) -> int {
    if a > b {
        a
    } else {
        b
    }
}

/// The length of the longest line within `s`, counting from the current
/// line's length `cur`; lines are separated by `'\n'`.
pub open spec fn longest_line_from(s: Seq<char>, cur: int) -> int
    decreases s.len(),
{
    if s.len() == 0 {
        cur
    } else if s[0] == '\n' {
        int_max(cur, longest_line_from(s.skip(1), 0))
    } else {
        longest_line_from(s.skip(1), cur + 1)
    }
}

/// The length of the longest `'\n'`-separated line within `s`.
pub open spec fn longest_line(s: Seq<char>) -> int {
    longest_line_from(s, 0)
}

/// The width one row's description asks for: the longest line within it, or
/// the header label's length when the description is empty.
pub open spec fn row_description_len(description: Seq<char>) -> int {
    if description.len() == 0 {
        "Description"@.len() as int
    } else {
        longest_line(description)
    }
}

pub open spec fn max_full_name_len(rows: Seq<RepositoryModel>) -> int
    decreases rows.len(),
{
    if rows.len() == 0 {
        0
    } else {
        int_max(max_full_name_len(rows.drop_last()), rows.last().full_name.len() as int)
    }
}

pub open spec fn max_clone_url_len(rows: Seq<RepositoryModel>) -> int
    decreases rows.len(),
{
    if rows.len() == 0 {
        0
    } else {
        int_max(max_clone_url_len(rows.drop_last()), rows.last().clone_url.len() as int)
    }
}

pub open spec fn max_description_len(rows: Seq<RepositoryModel>) -> int
    decreases rows.len(),
{
    if rows.len() == 0 {
        0
    } else {
        int_max(max_description_len(rows.drop_last()), row_description_len(rows.last().description))
    }
}

/// The name column's width: the longest full name, plus one for spacing.
pub open spec fn spec_full_name_width(rows: Seq<RepositoryModel>) -> int {
    max_full_name_len(rows) + 1
}

/// The URL column's width: the longest clone URL, plus one for spacing.
pub open spec fn spec_clone_url_width(rows: Seq<RepositoryModel>) -> int {
    max_clone_url_len(rows) + 1
}

/// The description column's width: the longest description line over all
/// rows, an empty description counting as the header label.
pub open spec fn spec_description_width(rows: Seq<RepositoryModel>) -> int {
    max_description_len(rows)
}

/// `n` spaces.
pub open spec fn spaces(n: int) -> Seq<char> {
    Seq::new(n as nat, |i: int| ' ')
}

/// `n` repeated `'='` marks.
pub open spec fn eq_marks(n: int) -> Seq<char> {
    Seq::new(n as nat, |i: int| '=')
}

/// `s`, left-justified to width `w` with trailing spaces; text longer than
/// the width is never truncated.
pub open spec fn pad_to(s: Seq<char>, w: int) -> Seq<char> {
    if s.len() >= w {
        s
    } else {
        s + spaces(w - s.len())
    }
}

/// The header row: the first two labels are left-justified to the computed
/// widths; the description label, like the description column, is never
/// padded.
pub open spec fn header_line(name_width: int, url_width: int) -> Seq<char> {
    pad_to("Name"@, name_width) + " "@ + pad_to("Clone URL"@, url_width) + " Description\n"@
}

/// The separator row: repeated `'='` marks matching each computed width.
pub open spec fn separator_line(name_width: int, url_width: int, description_width: int) -> Seq<
    char,
> {
    eq_marks(name_width) + " "@ + eq_marks(url_width) + " "@ + eq_marks(description_width) + "\n"@
}

/// One data row, left-justified the same way as the header.
pub open spec fn row_line(row: RepositoryModel, name_width: int, url_width: int) -> Seq<char> {
    pad_to(row.full_name, name_width) + " "@ + pad_to(row.clone_url, url_width) + " "@
        + row.description + "\n"@
}

pub open spec fn rows_text(rows: Seq<RepositoryModel>, name_width: int, url_width: int) -> Seq<
    char,
>
    decreases rows.len(),
{
    if rows.len() == 0 {
        Seq::<char>::empty()
    } else {
        rows_text(rows.drop_last(), name_width, url_width) + row_line(
            rows.last(),
            name_width,
            url_width,
        )
    }
}

/// The whole rendered table: header, separator, then one row per
/// repository, in the order the collaborator returned them.
pub open spec fn spec_render(rows: Seq<RepositoryModel>) -> Seq<char> {
    let name_width = spec_full_name_width(rows);
    let url_width = spec_clone_url_width(rows);
    let description_width = spec_description_width(rows);
    header_line(name_width, url_width) + separator_line(name_width, url_width, description_width)
        + rows_text(rows, name_width, url_width)
}

/// What the formatter produces: the distinct no-matches outcome for an empty
/// sequence, never an empty table; otherwise the rendered table.
pub enum ListReport {
    NoMatches,
    Table(String),
}

/// The longest line within `s` never ends shorter than the line already
/// begun.
proof fn lemma_longest_line_from_bound(s: Seq<char>, cur: int)
    ensures
        longest_line_from(s, cur) >= cur,
    decreases s.len(),
{
    if s.len() > 0 {
        if s[0] == '\n' {
            lemma_longest_line_from_bound(s.skip(1), 0);
        } else {
            lemma_longest_line_from_bound(s.skip(1), cur + 1);
        }
    }
}

/// Computes the length of the longest `'\n'`-separated line within `s`.
fn longest_line_len(s: &str) -> (r: usize)
    ensures
        r as int == longest_line(s@),
{
    let n = s.unicode_len();
    let mut i: usize = 0;
    let mut cur: usize = 0;
    let mut best: usize = 0;
    proof {
        assert(s@.skip(0) =~= s@);
        lemma_longest_line_from_bound(s@, 0);
    }
    while i < n
        invariant
            i <= n,
            cur <= i,
            best <= i,
            n == s@.len(),
            longest_line(s@) == int_max(best as int, longest_line_from(s@.skip(i as int), cur as int)),
        decreases n - i,
    {
        let c = s.get_char(i);
        proof {
            assert(s@.skip(i as int)[0] == s@[i as int]);
            assert(s@.skip(i as int).skip(1) =~= s@.skip(i + 1));
        }
        if c == '\n' {
            if cur > best {
                best = cur;
            }
            cur = 0;
        } else {
            cur = cur + 1;
        }
        i = i + 1;
    }
    proof {
        assert(s@.skip(n as int) =~= Seq::<char>::empty());
    }
    if cur > best {
        best = cur;
    }
    best
}

/// Computes the name column's width: the longest full name, plus one.
pub fn full_name_width(rows: &Vec<RepositorySummary>) -> (r: usize)
    requires
        forall|i: int| 0 <= i < rows@.len() ==> #[trigger] rows@[i].full_name@.len()
            < usize::MAX,
    ensures
        r as int == spec_full_name_width(rows.deep_view()),
{
    let mut widest: usize = 0;
    let mut i: usize = 0;
    proof {
        assert(rows.deep_view().take(0) =~= Seq::<RepositoryModel>::empty());
    }
    while i < rows.len()
        invariant
            i <= rows@.len(),
            widest < usize::MAX,
            forall|j: int| 0 <= j < rows@.len() ==> #[trigger] rows@[j].full_name@.len()
                < usize::MAX,
            widest as int == max_full_name_len(rows.deep_view().take(i as int)),
        decreases rows@.len() - i,
    {
        let len = rows[i].full_name.as_str().unicode_len();
        if len > widest {
            widest = len;
        }
        proof {
            assert(rows.deep_view().take(i + 1).drop_last() =~= rows.deep_view().take(i as int));
            assert(rows.deep_view().take(i + 1).last() == rows.deep_view()[i as int]);
        }
        i = i + 1;
    }
    proof {
        assert(rows.deep_view().take(rows@.len() as int) =~= rows.deep_view());
    }
    widest + 1
}

/// Computes the URL column's width: the longest clone URL, plus one.
pub fn clone_url_width(rows: &Vec<RepositorySummary>) -> (r: usize)
    requires
        forall|i: int| 0 <= i < rows@.len() ==> #[trigger] rows@[i].clone_url@.len()
            < usize::MAX,
    ensures
        r as int == spec_clone_url_width(rows.deep_view()),
{
    let mut widest: usize = 0;
    let mut i: usize = 0;
    proof {
        assert(rows.deep_view().take(0) =~= Seq::<RepositoryModel>::empty());
    }
    while i < rows.len()
        invariant
            i <= rows@.len(),
            widest < usize::MAX,
            forall|j: int| 0 <= j < rows@.len() ==> #[trigger] rows@[j].clone_url@.len()
                < usize::MAX,
            widest as int == max_clone_url_len(rows.deep_view().take(i as int)),
        decreases rows@.len() - i,
    {
        let len = rows[i].clone_url.as_str().unicode_len();
        if len > widest {
            widest = len;
        }
        proof {
            assert(rows.deep_view().take(i + 1).drop_last() =~= rows.deep_view().take(i as int));
            assert(rows.deep_view().take(i + 1).last() == rows.deep_view()[i as int]);
        }
        i = i + 1;
    }
    proof {
        assert(rows.deep_view().take(rows@.len() as int) =~= rows.deep_view());
    }
    widest + 1
}

/// Computes the description column's width: the longest description line
/// over all rows, an empty description counting as the header label.
pub fn description_width(rows: &Vec<RepositorySummary>) -> (r: usize)
    ensures
        r as int == spec_description_width(rows.deep_view()),
{
    let mut widest: usize = 0;
    let mut i: usize = 0;
    proof {
        assert(rows.deep_view().take(0) =~= Seq::<RepositoryModel>::empty());
    }
    while i < rows.len()
        invariant
            i <= rows@.len(),
            widest as int == max_description_len(rows.deep_view().take(i as int)),
        decreases rows@.len() - i,
    {
        let len = if rows[i].description.as_str().unicode_len() == 0 {
            "Description".unicode_len()
        } else {
            longest_line_len(rows[i].description.as_str())
        };
        if len > widest {
            widest = len;
        }
        proof {
            assert(rows.deep_view().take(i + 1).drop_last() =~= rows.deep_view().take(i as int));
            assert(rows.deep_view().take(i + 1).last() == rows.deep_view()[i as int]);
        }
        i = i + 1;
    }
    proof {
        assert(rows.deep_view().take(rows@.len() as int) =~= rows.deep_view());
    }
    widest
}

/// Appends `s`, left-justified to width `w` with trailing spaces.
fn append_padded(out: &mut String, s: &str, w: usize)
    ensures
        final(out)@ == old(out)@ + pad_to(s@, w as int),
{
    let ghost start = out@;
    out.append(s);
    let len = s.unicode_len();
    if len >= w {
        return;
    }
    let mut i: usize = len;
    proof {
        reveal_strlit(" ");
        assert(start + s@ + spaces(0) =~= start + s@);
    }
    while i < w
        invariant
            s@.len() <= i <= w,
            out@ == start + s@ + spaces(i - s@.len()),
        decreases w - i,
    {
        out.append(" ");
        proof {
            reveal_strlit(" ");
            assert(start + s@ + spaces(i - s@.len()) + " "@ =~= start + s@ + spaces(
                i + 1 - s@.len(),
            ));
        }
        i = i + 1;
    }
    proof {
        assert(start + s@ + spaces(w - s@.len()) =~= start + pad_to(s@, w as int));
    }
}

/// Appends `w` repeated `'='` marks.
fn append_eq_marks(out: &mut String, w: usize)
    ensures
        final(out)@ == old(out)@ + eq_marks(w as int),
{
    let ghost start = out@;
    let mut i: usize = 0;
    proof {
        assert(start + eq_marks(0) =~= start);
    }
    while i < w
        invariant
            i <= w,
            out@ == start + eq_marks(i as int),
        decreases w - i,
    {
        out.append("=");
        proof {
            reveal_strlit("=");
            assert(start + eq_marks(i as int) + "="@ =~= start + eq_marks(i + 1));
        }
        i = i + 1;
    }
}

/// Renders the table: a header row, a separator row of `'='` marks matching
/// the computed widths, then one row per repository, in the collaborator's
/// order. Columns are separated by a single space; the description column is
/// never padded.
pub fn render_table(rows: &Vec<RepositorySummary>) -> (r: String)
    requires
        forall|i: int| 0 <= i < rows@.len() ==> #[trigger] rows@[i].full_name@.len()
            < usize::MAX,
        forall|i: int| 0 <= i < rows@.len() ==> #[trigger] rows@[i].clone_url@.len()
            < usize::MAX,
    ensures
        r@ == spec_render(rows.deep_view()),
{
    let name_width = full_name_width(rows);
    let url_width = clone_url_width(rows);
    let desc_width = description_width(rows);
    let ghost nw = name_width as int;
    let ghost uw = url_width as int;
    let mut out = String::new();
    append_padded(&mut out, "Name", name_width);
    out.append(" ");
    append_padded(&mut out, "Clone URL", url_width);
    out.append(" Description\n");
    proof {
        assert(out@ =~= header_line(nw, uw));
    }
    let ghost header = out@;
    append_eq_marks(&mut out, name_width);
    out.append(" ");
    append_eq_marks(&mut out, url_width);
    out.append(" ");
    append_eq_marks(&mut out, desc_width);
    out.append("\n");
    proof {
        assert(out@ =~= header_line(nw, uw) + separator_line(nw, uw, desc_width as int));
    }
    let ghost prefix = out@;
    let mut i: usize = 0;
    proof {
        assert(rows.deep_view().take(0) =~= Seq::<RepositoryModel>::empty());
        assert(prefix + rows_text(rows.deep_view().take(0), nw, uw) =~= prefix);
    }
    while i < rows.len()
        invariant
            i <= rows@.len(),
            nw == name_width as int,
            uw == url_width as int,
            nw == spec_full_name_width(rows.deep_view()),
            uw == spec_clone_url_width(rows.deep_view()),
            prefix == header_line(nw, uw) + separator_line(
                nw,
                uw,
                spec_description_width(rows.deep_view()),
            ),
            out@ == prefix + rows_text(rows.deep_view().take(i as int), nw, uw),
        decreases rows@.len() - i,
    {
        let ghost before = out@;
        append_padded(&mut out, rows[i].full_name.as_str(), name_width);
        out.append(" ");
        append_padded(&mut out, rows[i].clone_url.as_str(), url_width);
        out.append(" ");
        out.append(rows[i].description.as_str());
        out.append("\n");
        proof {
            let model = rows.deep_view()[i as int];
            assert(model.full_name == rows@[i as int].full_name@);
            assert(model.clone_url == rows@[i as int].clone_url@);
            assert(model.description == rows@[i as int].description@);
            assert(out@ =~= before + row_line(model, nw, uw));
            assert(rows.deep_view().take(i + 1).drop_last() =~= rows.deep_view().take(i as int));
            assert(rows.deep_view().take(i + 1).last() == model);
            assert(out@ =~= prefix + rows_text(rows.deep_view().take(i + 1), nw, uw));
        }
        i = i + 1;
    }
    proof {
        assert(rows.deep_view().take(rows@.len() as int) =~= rows.deep_view());
        assert(out@ =~= spec_render(rows.deep_view()));
    }
    out
}

/// Formats the list command's result: the distinct no-matches outcome when
/// there are no repositories, otherwise the rendered table.
pub fn format_repositories(rows: &Vec<RepositorySummary>) -> (r: ListReport)
    requires
        forall|i: int| 0 <= i < rows@.len() ==> #[trigger] rows@[i].full_name@.len()
            < usize::MAX,
        forall|i: int| 0 <= i < rows@.len() ==> #[trigger] rows@[i].clone_url@.len()
            < usize::MAX,
    ensures
        rows@.len() == 0 ==> r is NoMatches,
        rows@.len() > 0 ==> (r matches ListReport::Table(t) && t@ == spec_render(
            rows.deep_view(),
        )),
{
    if rows.len() == 0 {
        ListReport::NoMatches
    } else {
        ListReport::Table(render_table(rows))
    }
}

/// The list command's decision on the forge's search response: a response
/// whose ok flag is unset fails with a fixed message; a successful one
/// carries on to formatting.
pub fn check_search_ok(ok: bool) -> (r: Result<(), AppError>)
    ensures
        ok <==> r is Ok,
        !ok ==> (r matches Err(e) && e matches AppError::Other(m) && m@
            == "Failed to get repositories"@),
{
    if ok {
        Ok(())
    } else {
        Err(AppError::Other(String::from_str("Failed to get repositories")))
    }
}

/// Resolves the forge URL for the list command, which never prompts: an
/// explicit value is accepted verbatim; otherwise the environment-supplied
/// URL must parse as an absolute URL, and resolution fails with a message
/// naming the field when it does not.
pub fn resolve_list_url(gitea_url: &Option<String>, env_gitea_url: &str) -> (r: Result<
    GiteaUrl,
    AppError,
>)
    ensures
        gitea_url matches Some(v) ==> (r matches Ok(u) && u@ == v@),
        gitea_url is None ==> match url_parse(env_gitea_url@) {
            Some(n) => r matches Ok(u) && u@ == n && u.valid(),
            None => r matches Err(e) && e matches AppError::Other(m) && m@
                == "Missing or invalid Gitea URL"@,
        },
{
    match gitea_url {
        Some(v) => Ok(GiteaUrl::from_parsed(v.clone())),
        None => match GiteaUrl::parse(env_gitea_url) {
            Some(u) => Ok(u),
            None => Err(AppError::Other(String::from_str("Missing or invalid Gitea URL"))),
        },
    }
}

} // verus!
