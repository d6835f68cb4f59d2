//! Text helpers of the command-line reports.
use vstd::prelude::*;
use vstd::string::StringSliceAdditionalSpecFns;
use vstd::utf8::decode_utf8;
use crate::text::{char_is_whitespace, chars_of, contains_seq, is_white, str_contains, starts_with_seq};

verus! {

/// The agent type shown for an agent id: the first of `Memory` (id contains `memory` or
/// `mem`), `Process` (`process` or `proc`), `Security` (`security` or `sec`) and `Dummy`
/// (`dummy` or `Dummy`) whose names occur in it, else `Unknown`.
pub open spec fn agent_type_of(id: Seq<char>) -> Seq<char> {
    if contains_seq(id, "memory"@) || contains_seq(id, "mem"@) {
        "Memory"@
    } else if contains_seq(id, "process"@) || contains_seq(id, "proc"@) {
        "Process"@
    } else if contains_seq(id, "security"@) || contains_seq(id, "sec"@) {
        "Security"@
    } else if contains_seq(id, "dummy"@) || contains_seq(id, "Dummy"@) {
        "Dummy"@
    } else {
        "Unknown"@
    }
}

/// The agent type shown for an agent id (see `agent_type_of`).
pub fn infer_agent_type(agent_id: &str) -> (s: String)
    ensures
        s@ == agent_type_of(agent_id@),
{
    if str_contains(agent_id, "memory") || str_contains(agent_id, "mem") {
        "Memory".to_owned()
    } else if str_contains(agent_id, "process") || str_contains(agent_id, "proc") {
        "Process".to_owned()
    } else if str_contains(agent_id, "security") || str_contains(agent_id, "sec") {
        "Security".to_owned()
    } else if str_contains(agent_id, "dummy") || str_contains(agent_id, "Dummy") {
        "Dummy".to_owned()
    } else {
        "Unknown".to_owned()
    }
}

/// The text `s` cut to its first `max` bytes followed by `...` when it is longer, else `s`
/// itself. The cut must fall on a character boundary.
pub fn truncate(s: &str, max: usize) -> (r: String)
    requires
        max < s.spec_bytes().len() ==> vstd::utf8::is_char_boundary(s.spec_bytes(), max as int),
    ensures
        s.spec_bytes().len() <= max ==> r@ == s@,
        max < s.spec_bytes().len() ==> r@ == decode_utf8(s.spec_bytes().subrange(0, max as int)) + "..."@,
{
    let byte_len = s.as_bytes().len();
    if byte_len <= max {
        s.to_owned()
    } else {
        let (head, _) = s.split_at(max);
        proof {
            vstd::utf8::encode_utf8_decode_utf8(head@);
            assert(head.spec_bytes() == vstd::utf8::encode_utf8(head@));
            assert(head.spec_bytes() =~= s.spec_bytes().subrange(0, max as int));
            assert(decode_utf8(s.spec_bytes().subrange(0, max as int)) == head@);
        }
        let mut r = head.to_owned();
        r.append("...");
        r
    }
}


/// Scanning `s` from the left: the words completed so far and the word being read.
pub open spec fn scan_words(s: Seq<char>) -> (Seq<Seq<char>>, Seq<char>)
    decreases s.len(),
{
    if s.len() == 0 {
        (Seq::empty(), Seq::empty())
    } else {
        let (done, cur) = scan_words(s.drop_last());
        if is_white(s.last()) {
            if cur.len() > 0 { (done.push(cur), Seq::empty()) } else { (done, cur) }
        } else {
            (done, cur.push(s.last()))
        }
    }
}

/// The white-space separated words of `s`, in order (what `str::split_whitespace` yields).
pub open spec fn words(s: Seq<char>) -> Seq<Seq<char>> {
    let (done, cur) = scan_words(s);
    if cur.len() > 0 { done.push(cur) } else { done }
}

/// The proposal id mentioned in a veto message (`"veto proposal=ProposalId-42 reason=..."`):
/// what follows `proposal=` in the first word that begins with it, or `"?"`.
pub open spec fn proposal_id_in(msg: Seq<char>) -> Seq<char> {
    let ws = words(msg);
    if exists|k: int| 0 <= k < ws.len() && starts_with_seq(#[trigger] ws[k], "proposal="@) {
        let k = choose|k: int|
            0 <= k < ws.len() && starts_with_seq(#[trigger] ws[k], "proposal="@)
                && forall|j: int| 0 <= j < k ==> !starts_with_seq(#[trigger] ws[j], "proposal="@);
        ws[k].subrange(9, ws[k].len() as int)
    } else {
        "?"@
    }
}

fn starts_with_proposal(w: &Vec<char>) -> (b: bool)
    ensures
        b == starts_with_seq(w@, "proposal="@),
{
    let p = chars_of("proposal=");
    crate::text::occurs_at_vec(w, &p, 0)
}

/// The proposal id mentioned in a veto message (see `proposal_id_in`).
pub fn extract_proposal_id_from_msg(msg: &str) -> (id: String)
    ensures
        id@ == proposal_id_in(msg@),
{
    let cs = chars_of(msg);
    let mut cur: Vec<char> = Vec::new();
    let mut start: usize = 0;
    let mut i: usize = 0;
    let ghost prefix = "proposal="@;
    proof {
        reveal_strlit("proposal=");
        reveal_strlit("?");
    }
    while i < cs.len()
        invariant
            i <= cs@.len(),
            cs@ == msg@,
            prefix == "proposal="@,
            prefix.len() == 9,
            cur@ == scan_words(cs@.take(i as int)).1,
            start <= i,
            cur@ == cs@.subrange(start as int, i as int),
            forall|j: int|
                0 <= j < scan_words(cs@.take(i as int)).0.len() ==> !starts_with_seq(
                    #[trigger] scan_words(cs@.take(i as int)).0[j],
                    prefix,
                ),
        decreases cs.len() - i,
    {
        proof {
            assert(cs@.take(i + 1).drop_last() =~= cs@.take(i as int));
            assert(cs@.take(i + 1).last() == cs@[i as int]);
        }
        let c = cs[i];
        if char_is_whitespace(c) {
            if cur.len() > 0 {
                if starts_with_proposal(&cur) {
                    let rest = msg.substring_char(start + 9, i).to_owned();
                    proof {
                        assert(rest@ =~= cur@.subrange(9, cur@.len() as int));
                    }
                    proof {
                        let ws = words(msg@);
                        let done = scan_words(cs@.take(i as int)).0;
                        let k = done.len() as int;
                        assert(scan_words(cs@.take(i + 1)).0 == done.push(cur@));
                        lemma_words_extend(cs@, i as int + 1);
                        assert(ws.subrange(0, k + 1) == done.push(cur@));
                        assert(ws[k] == ws.subrange(0, k + 1)[k]);
                        assert forall|j: int| 0 <= j < k implies !starts_with_seq(#[trigger] ws[j], prefix) by {
                            assert(ws[j] == ws.subrange(0, k + 1)[j]);
                        }
                        lemma_first_prefixed(msg@, k);
                    }
                    return rest;
                }
                cur = Vec::new();
            }
            start = i + 1;
            proof {
                assert(cur@ =~= cs@.subrange(start as int, i + 1));
            }
        } else {
            cur.push(c);
            proof {
                assert(cur@ =~= cs@.subrange(start as int, i + 1));
            }
        }
        i = i + 1;
    }
    proof {
        assert(cs@.take(cs@.len() as int) =~= cs@);
    }
    if cur.len() > 0 && starts_with_proposal(&cur) {
        let rest = msg.substring_char(start + 9, cs.len()).to_owned();
        proof {
            assert(rest@ =~= cur@.subrange(9, cur@.len() as int));
        }
        proof {
            let ws = words(msg@);
            let done = scan_words(msg@).0;
            let k = done.len() as int;
            assert(ws == done.push(cur@));
            assert forall|j: int| 0 <= j < k implies !starts_with_seq(#[trigger] ws[j], prefix) by {
                assert(ws[j] == done[j]);
            }
            lemma_first_prefixed(msg@, k);
        }
        return rest;
    }
    proof {
        let ws = words(msg@);
        let done = scan_words(msg@).0;
        assert forall|k: int| 0 <= k < ws.len() implies !starts_with_seq(#[trigger] ws[k], prefix) by {
            if k < done.len() {
                assert(ws[k] == done[k]);
            } else {
                assert(ws[k] == cur@);
            }
        }
    }
    "?".to_owned()
}

proof fn lemma_first_prefixed(msg: Seq<char>, k: int)
    requires
        0 <= k < words(msg).len(),
        starts_with_seq(words(msg)[k], "proposal="@),
        forall|j: int| 0 <= j < k ==> !starts_with_seq(#[trigger] words(msg)[j], "proposal="@),
    ensures
        proposal_id_in(msg) == words(msg)[k].subrange(9, words(msg)[k].len() as int),
{
    let ws = words(msg);
    assert(exists|k: int| 0 <= k < ws.len() && starts_with_seq(#[trigger] ws[k], "proposal="@));
    let k2 = choose|k2: int|
        0 <= k2 < ws.len() && starts_with_seq(#[trigger] ws[k2], "proposal="@)
            && forall|j: int| 0 <= j < k2 ==> !starts_with_seq(#[trigger] ws[j], "proposal="@);
    if k2 < k {
        assert(!starts_with_seq(ws[k2], "proposal="@));
    }
    if k2 > k {
        assert(!starts_with_seq(ws[k], "proposal="@));
    }
}

/// The words completed while reading a prefix stay the first words of any longer prefix.
proof fn lemma_done_prefix(s: Seq<char>, m: int, n: int)
    requires
        0 <= m <= n <= s.len(),
    ensures
        scan_words(s.take(n)).0.len() >= scan_words(s.take(m)).0.len(),
        scan_words(s.take(n)).0.subrange(0, scan_words(s.take(m)).0.len() as int)
            == scan_words(s.take(m)).0,
    decreases n - m,
{
    if n == m {
        assert(scan_words(s.take(n)).0.subrange(0, scan_words(s.take(m)).0.len() as int)
            =~= scan_words(s.take(m)).0);
    } else {
        lemma_done_prefix(s, m, n - 1);
        assert(s.take(n).drop_last() =~= s.take(n - 1));
        let a = scan_words(s.take(m)).0;
        let b = scan_words(s.take(n - 1)).0;
        let c = scan_words(s.take(n)).0;
        if c != b {
            assert(c == b.push(scan_words(s.take(n - 1)).1));
            assert(c.subrange(0, a.len() as int) =~= b.subrange(0, a.len() as int));
        }
    }
}

/// The words completed while reading the first `n` characters are the first words of `s`.
proof fn lemma_words_extend(s: Seq<char>, n: int)
    requires
        0 <= n <= s.len(),
    ensures
        words(s).len() >= scan_words(s.take(n)).0.len(),
        words(s).subrange(0, scan_words(s.take(n)).0.len() as int) == scan_words(s.take(n)).0,
{
    lemma_done_prefix(s, n, s.len() as int);
    assert(s.take(s.len() as int) =~= s);
    let a = scan_words(s.take(n)).0;
    let d = scan_words(s).0;
    if words(s) != d {
        assert(words(s).subrange(0, a.len() as int) =~= d.subrange(0, a.len() as int));
    }
}

} // verus!
