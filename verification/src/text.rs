//! Splitting content into lines that keep their line endings.
//!
//! The highlighter processes content line by line; lines include their
//! terminating newline so that concatenating the lines gives back the
//! content, byte for byte.

use vstd::prelude::*;

verus! {

/// Length of the first line of `s`, the terminating newline included.
pub open spec fn line_len(s: Seq<char>) -> nat
    decreases s.len(),
{
    if s.len() == 0 {
        0
    } else if s[0] == '\n' {
        1
    } else {
        (1 + line_len(s.skip(1))) as nat
    }
}

pub proof fn lemma_line_len_bounds(s: Seq<char>)
    requires
        s.len() > 0,
    ensures
        1 <= line_len(s) <= s.len(),
    decreases s.len(),
{
    if s[0] != '\n' {
        if s.len() > 1 {
            lemma_line_len_bounds(s.skip(1));
        } else {
            assert(s.skip(1).len() == 0);
            assert(line_len(s.skip(1)) == 0);
        }
    }
}

/// `s` split into lines, each keeping its terminating newline; only the last
/// line may lack one.
pub open spec fn split_lines(s: Seq<char>) -> Seq<Seq<char>>
    decreases s.len(),
    via split_lines_decreases
{
    if s.len() == 0 {
        Seq::empty()
    } else {
        seq![s.take(line_len(s) as int)] + split_lines(s.skip(line_len(s) as int))
    }
}

#[via_fn]
proof fn split_lines_decreases(s: Seq<char>) {
    if s.len() > 0 {
        lemma_line_len_bounds(s);
    }
}

/// The concatenation of a sequence of pieces.
pub open spec fn concat_all(ps: Seq<Seq<char>>) -> Seq<char>
    decreases ps.len(),
{
    if ps.len() == 0 {
        Seq::empty()
    } else {
        ps[0] + concat_all(ps.skip(1))
    }
}

pub proof fn lemma_concat_all_push(ps: Seq<Seq<char>>, p: Seq<char>)
    ensures
        concat_all(ps.push(p)) == concat_all(ps) + p,
    decreases ps.len(),
{
    if ps.len() == 0 {
        assert(ps.push(p).skip(1) =~= Seq::<Seq<char>>::empty());
        assert(concat_all(Seq::<Seq<char>>::empty()) =~= Seq::<char>::empty());
        assert(concat_all(ps.push(p)) =~= p + Seq::<char>::empty());
        assert(concat_all(ps.push(p)) =~= concat_all(ps) + p);
    } else {
        assert(ps.push(p).skip(1) =~= ps.skip(1).push(p));
        lemma_concat_all_push(ps.skip(1), p);
        assert(concat_all(ps.push(p)) =~= concat_all(ps) + p);
    }
}

/// Splitting preserves the content: the lines of `s`, concatenated in order,
/// are `s` itself.
pub proof fn lemma_split_lines_concat(s: Seq<char>)
    ensures
        concat_all(split_lines(s)) == s,
    decreases s.len(),
{
    if s.len() > 0 {
        lemma_line_len_bounds(s);
        let l = line_len(s) as int;
        let rest = s.skip(l);
        lemma_split_lines_concat(rest);
        assert((seq![s.take(l)] + split_lines(rest)).skip(1) =~= split_lines(rest));
        assert(concat_all(split_lines(s)) =~= s.take(l) + concat_all(split_lines(rest)));
        assert(s.take(l) + rest =~= s);
    }
}

/// If the first `m` characters of `t` hold no newline, the first line of `t`
/// ends right after position `m` (or at the end of `t`).
proof fn lemma_line_len_first(t: Seq<char>, m: int)
    requires
        0 <= m <= t.len(),
        forall|k: int| 0 <= k < m ==> t[k] != '\n',
        m < t.len() ==> t[m] == '\n',
    ensures
        line_len(t) == if m < t.len() {
            m + 1
        } else {
            m
        },
    decreases m,
{
    if m == 0 {
    } else {
        assert(t[0] != '\n');
        assert(forall|k: int| 0 <= k < m - 1 ==> t.skip(1)[k] != '\n');
        lemma_line_len_first(t.skip(1), m - 1);
    }
}

/// Split `s` into its lines, each line keeping its terminating newline.
pub fn lines_with_endings(s: &str) -> (r: Vec<String>)
    ensures
        r@.map_values(|l: String| l@) == split_lines(s@),
        concat_all(r@.map_values(|l: String| l@)) == s@,
{
    let n = s.unicode_len();
    let mut out: Vec<String> = Vec::new();
    let mut start: usize = 0;
    proof {
        assert(out@.map_values(|l: String| l@) =~= Seq::<Seq<char>>::empty());
        assert(s@.skip(0) =~= s@);
    }
    while start < n
        invariant
            start <= n,
            n == s@.len(),
            split_lines(s@) == out@.map_values(|l: String| l@) + split_lines(s@.skip(start as int)),
        decreases n - start,
    {
        let mut j: usize = start;
        while j < n && s.get_char(j) != '\n'
            invariant
                start <= j <= n,
                n == s@.len(),
                forall|k: int| start <= k < j ==> s@[k] != '\n',
            decreases n - j,
        {
            j += 1;
        }
        let end = if j < n {
            j + 1
        } else {
            j
        };
        let line = s.substring_char(start, end).to_owned();
        proof {
            let t = s@.skip(start as int);
            assert(forall|k: int| 0 <= k < j - start ==> t[k] != '\n');
            lemma_line_len_first(t, j - start);
            assert(line_len(t) == end - start);
            assert(t.take(end - start) =~= s@.subrange(start as int, end as int));
            assert(t.skip(end - start) =~= s@.skip(end as int));
            assert(split_lines(t) == seq![line@] + split_lines(s@.skip(end as int)));
            assert(out@.push(line).map_values(|l: String| l@) =~= out@.map_values(
                |l: String| l@,
            ).push(line@));
            assert(out@.map_values(|l: String| l@) + (seq![line@] + split_lines(
                s@.skip(end as int),
            )) =~= out@.push(line).map_values(|l: String| l@) + split_lines(s@.skip(end as int)));
        }
        out.push(line);
        start = end;
    }
    proof {
        assert(s@.skip(n as int) =~= Seq::<char>::empty());
        assert(out@.map_values(|l: String| l@) + Seq::<Seq<char>>::empty() =~= out@.map_values(
            |l: String| l@,
        ));
        lemma_split_lines_concat(s@);
    }
    out
}

} // verus!
