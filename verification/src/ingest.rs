//! Line ingestion: splitting one source's raw text into input lines.
//!
//! Reading a source (a file, or standard input) is the caller's business;
//! what is verified here is the split of its content into lines — at every
//! `'\n'`, with one `'\r'` stripped just before it, the final line ending
//! optional — so that a batch's lines are exactly [`spec_lines_of`] the
//! content.

use vstd::prelude::*;

use crate::outcome::line_views;

verus! {

/// The position of the first `'\n'` at or after `from`, or the text's length
/// if there is none.
pub open spec fn spec_line_end(s: Seq<char>, from: int) -> int
    decreases s.len() - from,
    when 0 <= from <= s.len()
{
    if from >= s.len() {
        s.len() as int
    } else if s[from] == '\n' {
        from
    } else {
        spec_line_end(s, from + 1)
    }
}

/// What [`spec_line_end`] finds: a position between `from` and the end, a
/// `'\n'` when it is not the end, and no `'\n'` before it.
pub proof fn lemma_line_end(s: Seq<char>, from: int)
    requires
        0 <= from <= s.len(),
    ensures
        from <= spec_line_end(s, from) <= s.len(),
        spec_line_end(s, from) < s.len() ==> s[spec_line_end(s, from)] == '\n',
        forall|j: int| from <= j < spec_line_end(s, from) ==> s[j] != '\n',
    decreases s.len() - from,
{
    if from < s.len() && s[from] != '\n' {
        lemma_line_end(s, from + 1);
    }
}

/// The lines of the text from `from` on: the chunk up to the next `'\n'`
/// (with a `'\r'` just before it stripped), then the lines after that
/// `'\n'`; a last chunk without `'\n'` is a line as it stands, and nothing
/// follows the final line ending.
pub open spec fn spec_lines_from(s: Seq<char>, from: int) -> Seq<Seq<char>>
    decreases s.len() - from,
    when 0 <= from <= s.len()
    via spec_lines_from_decreases
{
    if from >= s.len() {
        Seq::empty()
    } else {
        let end = spec_line_end(s, from);
        if end == s.len() {
            seq![s.subrange(from, end)]
        } else {
            let line = if end > from && s[end - 1] == '\r' {
                s.subrange(from, end - 1)
            } else {
                s.subrange(from, end)
            };
            seq![line] + spec_lines_from(s, end + 1)
        }
    }
}

#[via_fn]
proof fn spec_lines_from_decreases(s: Seq<char>, from: int) {
    lemma_line_end(s, from);
}

/// The input lines of one source's content.
pub open spec fn spec_lines_of(s: Seq<char>) -> Seq<Seq<char>> {
    spec_lines_from(s, 0)
}

/// Splits one source's content into its input lines.
pub fn split_lines(content: &str) -> (r: Vec<String>)
    ensures
        line_views(r@) == spec_lines_of(content@),
{
    let ghost s = content@;
    let n = content.unicode_len();
    let mut out: Vec<String> = Vec::new();
    let mut from: usize = 0;
    proof {
        assert(line_views(out@) + spec_lines_from(s, 0) =~= spec_lines_of(s));
    }
    while from < n
        invariant
            n == s.len(),
            s == content@,
            from <= n,
            spec_lines_of(s) == line_views(out@) + spec_lines_from(s, from as int),
        decreases n - from,
    {
        let ghost out_before = out@;
        let mut end: usize = from;
        while end < n && content.get_char(end) != '\n'
            invariant
                n == s.len(),
                s == content@,
                from <= end <= n,
                spec_line_end(s, from as int) == spec_line_end(s, end as int),
            decreases n - end,
        {
            end = end + 1;
        }
        proof {
            assert(spec_line_end(s, from as int) == end as int);
            lemma_line_end(s, from as int);
        }
        if end == n {
            let line = content.substring_char(from, n).to_owned();
            proof {
                assert(spec_lines_from(s, from as int) =~= seq![line@]);
                assert(line_views(out@.push(line)) =~= line_views(out@) + seq![line@]);
                assert(line_views(out@.push(line)) + spec_lines_from(s, n as int) =~= line_views(
                    out@,
                ) + spec_lines_from(s, from as int));
            }
            out.push(line);
            from = n;
        } else {
            let stop = if end > from && content.get_char(end - 1) == '\r' {
                end - 1
            } else {
                end
            };
            let line = content.substring_char(from, stop).to_owned();
            proof {
                assert(spec_lines_from(s, from as int) =~= seq![line@] + spec_lines_from(
                    s,
                    end + 1,
                ));
                assert(line_views(out@.push(line)) =~= line_views(out@) + seq![line@]);
                assert(line_views(out@.push(line)) + spec_lines_from(s, end + 1) =~= line_views(
                    out@,
                ) + spec_lines_from(s, from as int));
            }
            out.push(line);
            from = end + 1;
        }
    }
    proof {
        assert(spec_lines_from(s, n as int) =~= Seq::<Seq<char>>::empty());
        assert(line_views(out@) =~= line_views(out@) + spec_lines_from(s, n as int));
    }
    out
}

} // verus!
