//! Plain-text tables as the console prints them: a header line, a line of dashes, and one
//! line per row, each cell padded to its column's width and the cells joined by two
//! spaces. A column is as wide, in bytes, as its widest header or cell; a cell is padded
//! with spaces up to that many characters.
use vstd::prelude::*;
use vstd::utf8::encode_utf8;

verus! {

/// The length of `s` in bytes (UTF-8), as `str::len` gives it.
pub open spec fn byte_len(s: Seq<char>) -> usize {
    encode_utf8(s).len() as usize
}

/// The width of column `i` over the header and the first `n` rows: the largest byte
/// length among its header and its cells (a row that stops short has no cell there).
pub open spec fn column_width(headers: Seq<Seq<char>>, rows: Seq<Seq<Seq<char>>>, i: int, n: int) -> usize
    decreases n,
{
    if n <= 0 {
        byte_len(headers[i])
    } else {
        let w = column_width(headers, rows, i, n - 1);
        if i < rows[n - 1].len() && w < byte_len(rows[n - 1][i]) {
            byte_len(rows[n - 1][i])
        } else {
            w
        }
    }
}

/// The widths of all columns.
pub open spec fn widths_of(headers: Seq<Seq<char>>, rows: Seq<Seq<Seq<char>>>) -> Seq<usize> {
    Seq::new(headers.len(), |i: int| column_width(headers, rows, i, rows.len() as int))
}

/// `n` copies of `c`.
pub open spec fn repeated(c: char, n: nat) -> Seq<char> {
    Seq::new(n, |k: int| c)
}

/// `s` padded with spaces to `w` characters (unchanged when it has that many already).
pub open spec fn padded(s: Seq<char>, w: usize) -> Seq<char> {
    if s.len() < w {
        s + repeated(' ', (w - s.len()) as nat)
    } else {
        s
    }
}

/// `parts` joined by two spaces.
pub open spec fn joined(parts: Seq<Seq<char>>) -> Seq<char>
    decreases parts.len(),
{
    if parts.len() == 0 {
        Seq::empty()
    } else if parts.len() == 1 {
        parts[0]
    } else {
        joined(parts.drop_last()) + "  "@ + parts.last()
    }
}

/// The line of `cells`, each padded to its column's width.
pub open spec fn table_line(cells: Seq<Seq<char>>, widths: Seq<usize>) -> Seq<char> {
    joined(Seq::new(cells.len(), |i: int| padded(cells[i], widths[i])))
}

/// The line of dashes under the header.
pub open spec fn rule_line(widths: Seq<usize>) -> Seq<char> {
    joined(Seq::new(widths.len(), |i: int| repeated('-', widths[i] as nat)))
}

/// The lines of the table of `rows` under `headers`.
pub open spec fn table_lines(headers: Seq<Seq<char>>, rows: Seq<Seq<Seq<char>>>) -> Seq<Seq<char>> {
    let w = widths_of(headers, rows);
    seq![table_line(headers, w), rule_line(w)] + Seq::new(rows.len(), |j: int| table_line(rows[j], w))
}

/// The texts of `v`.
pub open spec fn texts(v: Seq<String>) -> Seq<Seq<char>> {
    v.map_values(|s: String| s@)
}

/// The texts of the cells of `rows`.
pub open spec fn row_texts(rows: Seq<Vec<String>>) -> Seq<Seq<Seq<char>>> {
    rows.map_values(|r: Vec<String>| texts(r@))
}

/// Appends `n` copies of `c` to `out`.
fn push_repeated(out: &mut String, c: &str, n: usize)
    requires
        c@.len() == 1,
    ensures
        final(out)@ == old(out)@ + repeated(c@[0], n as nat),
{
    let mut k: usize = 0;
    while k < n
        invariant
            c@.len() == 1,
            k <= n,
            out@ == old(out)@ + repeated(c@[0], k as nat),
        decreases n - k,
    {
        out.append(c);
        k = k + 1;
        assert(out@ == old(out)@ + repeated(c@[0], k as nat));
    }
}

/// Appends `s` padded to `w` characters to `out`.
fn push_padded(out: &mut String, s: &str, w: usize)
    ensures
        final(out)@ == old(out)@ + padded(s@, w),
{
    out.append(s);
    let n = s.unicode_len();
    if n < w {
        proof {
            reveal_strlit(" ");
        }
        push_repeated(out, " ", w - n);
    }
}

proof fn lemma_joined_push(parts: Seq<Seq<char>>, p: Seq<char>)
    ensures
        joined(parts.push(p)) == if parts.len() == 0 { p } else { joined(parts) + "  "@ + p },
{
    assert(parts.push(p).drop_last() == parts);
}

/// The line of `cells` padded to `widths` (see `table_line`).
fn line(cells: &[String], widths: &[usize]) -> (s: String)
    requires
        cells@.len() <= widths@.len(),
    ensures
        s@ == table_line(texts(cells@), widths@),
{
    let mut s = String::new();
    let mut k: usize = 0;
    while k < cells.len()
        invariant
            cells@.len() <= widths@.len(),
            k <= cells@.len(),
            s@ == joined(Seq::new(k as nat, |i: int| padded(cells@[i]@, widths@[i]))),
        decreases cells.len() - k,
    {
        let ghost before = Seq::new(k as nat, |i: int| padded(cells@[i]@, widths@[i]));
        proof {
            lemma_joined_push(before, padded(cells@[k as int]@, widths@[k as int]));
            assert(before.push(padded(cells@[k as int]@, widths@[k as int]))
                == Seq::new((k + 1) as nat, |i: int| padded(cells@[i]@, widths@[i])));
        }
        if k > 0 {
            s.append("  ");
        }
        push_padded(&mut s, cells[k].as_str(), widths[k]);
        k = k + 1;
    }
    assert(Seq::new(cells@.len(), |i: int| padded(texts(cells@)[i], widths@[i]))
        == Seq::new(cells@.len(), |i: int| padded(cells@[i]@, widths@[i])));
    s
}

/// The line of dashes for `widths` (see `rule_line`).
fn rule(widths: &[usize]) -> (s: String)
    ensures
        s@ == rule_line(widths@),
{
    let mut s = String::new();
    let mut k: usize = 0;
    while k < widths.len()
        invariant
            k <= widths@.len(),
            s@ == joined(Seq::new(k as nat, |i: int| repeated('-', widths@[i] as nat))),
        decreases widths.len() - k,
    {
        let ghost before = Seq::new(k as nat, |i: int| repeated('-', widths@[i] as nat));
        proof {
            lemma_joined_push(before, repeated('-', widths@[k as int] as nat));
            assert(before.push(repeated('-', widths@[k as int] as nat))
                == Seq::new((k + 1) as nat, |i: int| repeated('-', widths@[i] as nat)));
            reveal_strlit("-");
        }
        if k > 0 {
            s.append("  ");
        }
        push_repeated(&mut s, "-", widths[k]);
        k = k + 1;
    }
    s
}

/// The widths of the columns of `rows` under `headers` (see `widths_of`).
fn widths(headers: &[String], rows: &[Vec<String>]) -> (w: Vec<usize>)
    ensures
        w@ == widths_of(texts(headers@), row_texts(rows@)),
{
    let ghost hs = texts(headers@);
    let ghost rs = row_texts(rows@);
    let mut w: Vec<usize> = Vec::new();
    let mut i: usize = 0;
    while i < headers.len()
        invariant
            hs == texts(headers@),
            rs == row_texts(rows@),
            i <= headers@.len(),
            w@.len() == i,
            forall|c: int| 0 <= c < i ==> w@[c] == column_width(hs, rs, c, rows@.len() as int),
        decreases headers.len() - i,
    {
        let mut m = headers[i].as_str().len();
        let mut j: usize = 0;
        while j < rows.len()
            invariant
                hs == texts(headers@),
                rs == row_texts(rows@),
                i < headers@.len(),
                j <= rows@.len(),
                m == column_width(hs, rs, i as int, j as int),
            decreases rows.len() - j,
        {
            if i < rows[j].len() {
                let b = rows[j][i].as_str().len();
                if m < b {
                    m = b;
                }
            }
            j = j + 1;
        }
        w.push(m);
        i = i + 1;
    }
    assert(w@ == widths_of(hs, rs));
    w
}

/// The lines of the table of `rows` under `headers` (see `table_lines`). Each row has at
/// most as many cells as there are headers.
pub fn render_table(headers: &[String], rows: &[Vec<String>]) -> (lines: Vec<String>)
    requires
        forall|j: int| 0 <= j < rows@.len() ==> rows@[j]@.len() <= headers@.len(),
    ensures
        texts(lines@) == table_lines(texts(headers@), row_texts(rows@)),
{
    let w = widths(headers, rows);
    let mut lines: Vec<String> = Vec::new();
    lines.push(line(headers, w.as_slice()));
    lines.push(rule(w.as_slice()));
    let ghost first = texts(lines@);
    let mut j: usize = 0;
    while j < rows.len()
        invariant
            forall|j: int| 0 <= j < rows@.len() ==> rows@[j]@.len() <= headers@.len(),
            w@ == widths_of(texts(headers@), row_texts(rows@)),
            j <= rows@.len(),
            lines@.len() == j + 2,
            texts(lines@) == first + Seq::new(j as nat, |k: int| table_line(row_texts(rows@)[k], w@)),
        decreases rows.len() - j,
    {
        let l = line(rows[j].as_slice(), w.as_slice());
        let ghost before = lines@;
        proof {
            assert(texts(rows@[j as int]@) == row_texts(rows@)[j as int]);
        }
        lines.push(l);
        proof {
            assert(texts(lines@) =~= texts(before).push(l@));
            assert(Seq::new((j + 1) as nat, |k: int| table_line(row_texts(rows@)[k], w@))
                =~= Seq::new(j as nat, |k: int| table_line(row_texts(rows@)[k], w@)).push(l@));
        }
        j = j + 1;
    }
    lines
}

} // verus!
