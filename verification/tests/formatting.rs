//! The tabular report formatter: column widths, alignment, the separator
//! row, and the distinct no-matches outcome.

use gitea_remote::list::{
    clone_url_width, description_width, format_repositories, full_name_width, render_table,
    ListReport, RepositorySummary,
};

fn row(full_name: &str, clone_url: &str, description: &str) -> RepositorySummary {
    RepositorySummary {
        full_name: full_name.to_string(),
        clone_url: clone_url.to_string(),
        description: description.to_string(),
    }
}

fn sample_rows() -> Vec<RepositorySummary> {
    vec![
        row("org/a", "https://h/a.git", ""),
        row("org/bb", "https://h/bb.git", "line1\nlonger line2"),
    ]
}

#[test]
fn name_width_is_longest_name_plus_one() {
    assert_eq!(full_name_width(&sample_rows()), "org/bb".len() + 1);
}

#[test]
fn url_width_is_longest_url_plus_one() {
    assert_eq!(clone_url_width(&sample_rows()), "https://h/bb.git".len() + 1);
}

#[test]
fn description_width_is_the_longest_line_not_the_total() {
    assert_eq!(description_width(&sample_rows()), "longer line2".len());
}

#[test]
fn empty_description_counts_as_the_header_label() {
    let rows = vec![row("a", "u", "")];
    assert_eq!(description_width(&rows), "Description".len());
}

#[test]
fn table_is_aligned_and_bordered() {
    let rendered = match format_repositories(&sample_rows()) {
        ListReport::Table(t) => t,
        ListReport::NoMatches => panic!("two rows are not a no-match"),
    };
    let expected = "Name    Clone URL         Description\n\
                    ======= ================= ============\n\
                    org/a   https://h/a.git   \n\
                    org/bb  https://h/bb.git  line1\nlonger line2\n";
    assert_eq!(rendered, expected);
}

#[test]
fn render_never_truncates_a_long_header() {
    let rows = vec![row("a", "u", "d")];
    let rendered = render_table(&rows);
    let mut lines = rendered.lines();
    assert_eq!(lines.next(), Some("Name Clone URL Description"));
    assert_eq!(lines.next(), Some("== == ="));
    assert_eq!(lines.next(), Some("a  u  d"));
}

#[test]
fn empty_result_is_the_no_matches_outcome() {
    let rows: Vec<RepositorySummary> = Vec::new();
    assert!(matches!(format_repositories(&rows), ListReport::NoMatches));
}
