//! Character-level helpers shared by the resolution engine and the report
//! formatter: trailing newline trimming, empty-input defaulting, ASCII
//! case-insensitive keyword matching, and path segment extraction.

use vstd::prelude::*;

verus! {

/// The sequence `s` with its maximal trailing run of `c` removed.
pub open spec fn drop_trailing(s: Seq<char>, c: char) -> Seq<char>
    decreases s.len(),
{
    if s.len() > 0 && s.last() == c {
        drop_trailing(s.drop_last(), c)
    } else {
        s
    }
}

/// One line of terminal input with its line terminator removed: every
/// trailing `'\n'` is dropped, then every trailing `'\r'`.
pub open spec fn trim_line_end(s: Seq<char>) -> Seq<char> {
    drop_trailing(drop_trailing(s, '\n'), '\r')
}

/// The value a prompted field takes from one raw input line: the trimmed
/// line itself when it is non-empty, otherwise the field's default.
pub open spec fn spec_resolve_line(line: Seq<char>, default: Seq<char>) -> Seq<char> {
    if trim_line_end(line).len() == 0 {
        default
    } else {
        trim_line_end(line)
    }
}

/// Removes the maximal trailing run of `c` from `s`.
fn drop_trailing_exec(s: &str, c: char) -> (r: String)
    ensures
        r@ == drop_trailing(s@, c),
{
    let len = s.unicode_len();
    let mut end: usize = len;
    proof {
        assert(s@.subrange(0, len as int) =~= s@);
    }
    while end > 0 && s.get_char(end - 1) == c
        invariant
            end <= len,
            len == s@.len(),
            drop_trailing(s@, c) == drop_trailing(s@.subrange(0, end as int), c),
        decreases end,
    {
        proof {
            let pre = s@.subrange(0, end as int);
            assert(pre.last() == s@[end - 1]);
            assert(pre.drop_last() == s@.subrange(0, end - 1));
        }
        end = end - 1;
    }
    proof {
        let pre = s@.subrange(0, end as int);
        if end > 0 {
            assert(pre.last() == s@[end - 1]);
        }
        assert(drop_trailing(pre, c) == pre);
    }
    String::from_str(s.substring_char(0, end))
}

/// Removes the line terminator from one raw input line, as
/// [`trim_line_end`] describes.
pub fn trim_line(s: &str) -> (r: String)
    ensures
        r@ == trim_line_end(s@),
{
    let no_nl = drop_trailing_exec(s, '\n');
    drop_trailing_exec(no_nl.as_str(), '\r')
}

/// Applies [`spec_resolve_line`]: the trimmed line, or the default when the
/// trimmed line is empty.
pub fn resolve_line(line: &str, default: &str) -> (r: String)
    ensures
        r@ == spec_resolve_line(line@, default@),
{
    let trimmed = trim_line(line);
    if trimmed.as_str().unicode_len() == 0 {
        String::from_str(default)
    } else {
        trimmed
    }
}

/// Whether `c` equals the lower-case ASCII character `l`, ignoring ASCII
/// case: either `c` is `l` itself or `c` is the upper-case form of `l`.
pub open spec fn char_matches_lower(c: char, l: char) -> bool {
    c == l || c as int + 32 == l as int
}

/// Whether `s` equals the lower-case ASCII keyword `kw`, ignoring ASCII case.
pub open spec fn eq_ignore_ascii_case(s: Seq<char>, kw: Seq<char>) -> bool {
    s.len() == kw.len() && forall|i: int| 0 <= i < s.len() ==> char_matches_lower(s[i], #[trigger] kw[i])
}

/// Compares `s` with the lower-case ASCII keyword `kw`, ignoring ASCII case
/// in `s`.
pub fn matches_keyword(s: &str, kw: &str) -> (r: bool)
    ensures
        r == eq_ignore_ascii_case(s@, kw@),
{
    let n = s.unicode_len();
    if n != kw.unicode_len() {
        return false;
    }
    let mut i: usize = 0;
    while i < n
        invariant
            i <= n,
            n == s@.len(),
            n == kw@.len(),
            forall|j: int| 0 <= j < i ==> char_matches_lower(s@[j], #[trigger] kw@[j]),
        decreases n - i,
    {
        let c = s.get_char(i);
        let l = kw.get_char(i);
        if !(c == l || c as u32 + 32 == l as u32) {
            return false;
        }
        i = i + 1;
    }
    true
}

/// The final path segment of `path`: trailing separators are ignored, empty
/// and `"."` segments are skipped, and a path whose last segment is `".."`
/// (or that has no segment at all) yields the empty sequence.
pub open spec fn last_path_segment(s: Seq<char>) -> Seq<char>
    decreases s.len(),
{
    if s.len() == 0 {
        s
    } else if s.last() == '/' {
        last_path_segment(s.drop_last())
    } else {
        let seg = last_raw_segment(s);
        if seg == seq!['.'] {
            last_path_segment(s.subrange(0, s.len() - seg.len()))
        } else if seg == seq!['.', '.'] {
            Seq::<char>::empty()
        } else {
            seg
        }
    }
}

/// The maximal suffix of `s` that contains no `'/'`.
pub open spec fn last_raw_segment(s: Seq<char>) -> Seq<char>
    decreases s.len(),
{
    if s.len() == 0 || s.last() == '/' {
        Seq::<char>::empty()
    } else {
        last_raw_segment(s.drop_last()).push(s.last())
    }
}

/// Extracts the final segment of a path, as [`last_path_segment`] describes;
/// the repository name's default derives from it.
pub fn last_segment(path: &str) -> (r: String)
    ensures
        r@ == last_path_segment(path@),
    decreases path@.len(),
{
    let len = path.unicode_len();
    let mut end: usize = len;
    proof {
        assert(path@.subrange(0, len as int) =~= path@);
    }
    while end > 0 && path.get_char(end - 1) == '/'
        invariant
            end <= len,
            len == path@.len(),
            last_path_segment(path@) == last_path_segment(path@.subrange(0, end as int)),
        decreases end,
    {
        proof {
            let pre = path@.subrange(0, end as int);
            assert(pre.last() == path@[end - 1]);
            assert(pre.drop_last() =~= path@.subrange(0, end - 1));
        }
        end = end - 1;
    }
    if end == 0 {
        proof {
            assert(last_path_segment(path@.subrange(0, 0)) =~= Seq::<char>::empty());
        }
        return String::new();
    }
    let ghost kept = path@.subrange(0, end as int);
    proof {
        assert(kept.last() == path@[end - 1]);
        assert(kept.last() != '/');
    }
    let mut start: usize = end;
    proof {
        assert(last_raw_segment(kept)
            =~= last_raw_segment(path@.subrange(0, end as int)) + path@.subrange(
            end as int,
            end as int,
        ));
    }
    while start > 0 && path.get_char(start - 1) != '/'
        invariant
            start <= end,
            end <= len,
            len == path@.len(),
            kept == path@.subrange(0, end as int),
            last_raw_segment(kept) == last_raw_segment(path@.subrange(0, start as int))
                + path@.subrange(start as int, end as int),
        decreases start,
    {
        proof {
            let pre = path@.subrange(0, start as int);
            assert(pre.last() == path@[start - 1]);
            assert(pre.drop_last() =~= path@.subrange(0, start - 1));
            assert(last_raw_segment(pre.drop_last()).push(pre.last()) + path@.subrange(
                start as int,
                end as int,
            ) =~= last_raw_segment(pre.drop_last()) + path@.subrange(start - 1, end as int));
        }
        start = start - 1;
    }
    proof {
        if start > 0 {
            assert(path@.subrange(0, start as int).last() == path@[start - 1]);
        }
        assert(last_raw_segment(path@.subrange(0, start as int)) =~= Seq::<char>::empty());
        assert(last_raw_segment(kept) =~= path@.subrange(start as int, end as int));
    }
    let seg_len = end - start;
    if seg_len == 1 && path.get_char(start) == '.' {
        proof {
            assert(last_raw_segment(kept) =~= seq!['.']);
            assert(kept.subrange(0, kept.len() - 1) =~= path@.subrange(0, start as int));
        }
        let shorter = path.substring_char(0, start);
        last_segment(shorter)
    } else if seg_len == 2 && path.get_char(start) == '.' && path.get_char(start + 1) == '.' {
        proof {
            assert(last_raw_segment(kept) =~= seq!['.', '.']);
            assert(last_raw_segment(kept) != seq!['.']);
        }
        String::new()
    } else {
        proof {
            let seg = last_raw_segment(kept);
            assert(seg.len() == end - start);
            if seg =~= seq!['.'] {
                assert(seg[0] == path@[start as int]);
                assert(false);
            }
            if seg =~= seq!['.', '.'] {
                assert(seg[0] == path@[start as int]);
                assert(seg[1] == path@[start + 1]);
                assert(false);
            }
        }
        String::from_str(path.substring_char(start, end))
    }
}

} // verus!
