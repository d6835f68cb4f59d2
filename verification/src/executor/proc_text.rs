//! What the cgroup executor reads back from the kernel: the PIDs listed in a
//! `cgroup.procs` file and the cgroup of a process from `/proc/<pid>/cgroup`.
use vstd::prelude::*;
use crate::text::{chars_of, lines_of, parse_u32, string_views, text_lines, trim, trim_seq, u32_text};

verus! {

/// The PIDs of `lines`, in order: each line, trimmed, that reads as a `u32`; other lines
/// are skipped.
pub open spec fn pid_list(lines: Seq<Seq<char>>) -> Seq<u32>
    decreases lines.len(),
{
    if lines.len() == 0 {
        Seq::empty()
    } else {
        let rest = pid_list(lines.drop_last());
        match u32_text(trim_seq(lines.last())) {
            Some(p) => rest.push(p),
            None => rest,
        }
    }
}

/// The PIDs listed in the text of a `cgroup.procs` file, one per line (see `pid_list`).
pub fn pids_in(content: &str) -> (pids: Vec<u32>)
    ensures
        pids@ == pid_list(lines_of(content@)),
{
    let lines = text_lines(content);
    let ghost ls = string_views(lines@);
    let mut pids: Vec<u32> = Vec::new();
    let mut i: usize = 0;
    while i < lines.len()
        invariant
            ls == string_views(lines@),
            ls == lines_of(content@),
            i <= lines@.len(),
            pids@ == pid_list(ls.take(i as int)),
        decreases lines.len() - i,
    {
        proof {
            assert(ls.take(i + 1).drop_last() =~= ls.take(i as int));
            assert(ls.take(i + 1).last() == lines@[i as int]@);
        }
        let t = trim(lines[i].as_str());
        match parse_u32(t.as_str()) {
            Some(p) => pids.push(p),
            None => {},
        }
        i = i + 1;
    }
    proof {
        assert(ls.take(ls.len() as int) =~= ls);
    }
    pids
}

/// The PIDs to kill when terminating a group whose `cgroup.procs` file reads `content`;
/// the error `"no pids to terminate"` when it lists none.
pub fn pids_to_terminate(content: &str) -> (r: Result<Vec<u32>, String>)
    ensures
        pid_list(lines_of(content@)).len() > 0 ==> (r matches Ok(pids) && pids@ == pid_list(lines_of(content@))),
        pid_list(lines_of(content@)).len() == 0 ==> (r matches Err(e) && e@ == "no pids to terminate"@),
{
    let pids = pids_in(content);
    if pids.len() == 0 {
        Err("no pids to terminate".to_owned())
    } else {
        Ok(pids)
    }
}

/// The first position at or after `from` where `::` occurs in `s`.
pub open spec fn find_separator_from(s: Seq<char>, from: int) -> Option<int>
    decreases s.len() - from,
{
    if from < 0 || from + 2 > s.len() {
        None
    } else if s[from] == ':' && s[from + 1] == ':' {
        Some(from)
    } else {
        find_separator_from(s, from + 1)
    }
}

/// The second `::`-separated field of `line` (what `line.split("::").nth(1)` gives): the
/// text after the first `::` up to the next one, when `line` holds a `::`.
pub open spec fn second_field(line: Seq<char>) -> Option<Seq<char>> {
    match find_separator_from(line, 0) {
        None => None,
        Some(i) => {
            let rest = line.skip(i + 2);
            match find_separator_from(rest, 0) {
                Some(j) => Some(rest.take(j)),
                None => Some(rest),
            }
        },
    }
}

/// The cgroup named by the first of `lines` that has a second `::`-separated field: that
/// field, trimmed (a cgroup v2 line reads `0::/user.slice/session-3.scope`).
pub open spec fn origin_in(lines: Seq<Seq<char>>) -> Option<Seq<char>>
    decreases lines.len(),
{
    if lines.len() == 0 {
        None
    } else {
        match second_field(lines[0]) {
            Some(f) => Some(trim_seq(f)),
            None => origin_in(lines.skip(1)),
        }
    }
}

/// The first position at or after `from` where `::` occurs in `s`.
fn find_separator(s: &Vec<char>, from: usize) -> (r: Option<usize>)
    requires
        from <= s@.len(),
    ensures
        match r {
            Some(i) => find_separator_from(s@, from as int) == Some(i as int) && from <= i && i + 2 <= s@.len(),
            None => find_separator_from(s@, from as int).is_none(),
        },
{
    let mut i: usize = from;
    while s.len() - i >= 2
        invariant
            from <= i <= s@.len(),
            find_separator_from(s@, from as int) == find_separator_from(s@, i as int),
        decreases s.len() - i,
    {
        if s[i] == ':' && s[i + 1] == ':' {
            return Some(i);
        }
        i = i + 1;
    }
    None
}

/// Searching `s` for `::` from `k + m` finds what searching `s.skip(k)` from `m` finds,
/// shifted by `k`.
proof fn lemma_find_shift(s: Seq<char>, k: int, m: int)
    requires
        0 <= k <= s.len(),
        0 <= m,
    ensures
        find_separator_from(s.skip(k), m) == (match find_separator_from(s, k + m) {
            Some(i) => Some(i - k),
            None => None,
        }),
    decreases s.len() - k - m,
{
    let t = s.skip(k);
    if m + 2 <= t.len() {
        assert(t[m] == s[k + m]);
        assert(t[m + 1] == s[k + m + 1]);
        if !(t[m] == ':' && t[m + 1] == ':') {
            lemma_find_shift(s, k, m + 1);
        }
    }
}

/// The second `::`-separated field of `line` (see `second_field`).
fn line_second_field(line: &str) -> (r: Option<String>)
    ensures
        match r {
            Some(f) => second_field(line@) == Some(f@),
            None => second_field(line@).is_none(),
        },
{
    let cs = chars_of(line);
    let n = cs.len();
    match find_separator(&cs, 0) {
        None => None,
        Some(i) => {
            assert(i + 2 <= n);
            let rest_start = i + 2;
            let ghost rest = line@.skip(rest_start as int);
            proof {
                lemma_find_shift(line@, rest_start as int, 0);
            }
            match find_separator(&cs, rest_start) {
                Some(j) => {
                    proof {
                        assert(rest.take(j - rest_start) =~= line@.subrange(rest_start as int, j as int));
                    }
                    Some(line.substring_char(rest_start, j).to_owned())
                },
                None => {
                    proof {
                        assert(rest =~= line@.subrange(rest_start as int, line@.len() as int));
                    }
                    Some(line.substring_char(rest_start, cs.len()).to_owned())
                },
            }
        },
    }
}

/// The cgroup of a process, from the text of its `/proc/<pid>/cgroup` file (see
/// `origin_in`).
pub fn cgroup_origin(content: &str) -> (r: Option<String>)
    ensures
        match r {
            Some(o) => origin_in(lines_of(content@)) == Some(o@),
            None => origin_in(lines_of(content@)).is_none(),
        },
{
    let lines = text_lines(content);
    let ghost ls = string_views(lines@);
    let mut i: usize = 0;
    assert(ls.skip(0) =~= ls);
    while i < lines.len()
        invariant
            ls == string_views(lines@),
            ls == lines_of(content@),
            i <= lines@.len(),
            origin_in(ls) == origin_in(ls.skip(i as int)),
        decreases lines.len() - i,
    {
        let ghost tail = ls.skip(i as int);
        proof {
            assert(tail[0] == lines@[i as int]@);
            assert(tail.skip(1) =~= ls.skip(i + 1));
        }
        match line_second_field(lines[i].as_str()) {
            Some(f) => {
                return Some(trim(f.as_str()));
            },
            None => {},
        }
        i = i + 1;
    }
    proof {
        assert(ls.skip(ls.len() as int) =~= Seq::<Seq<char>>::empty());
    }
    None
}

} // verus!
