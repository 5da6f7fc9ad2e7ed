use crate::decimal::lemma_int_str_chars;
use crate::result_set::{
    CellValue, ResultSet, lemma_date_str_chars, render_cell, rendered_cell,
};
use crate::text::{
    count_char, joined, join_strings, lemma_count_char_concat, lemma_count_char_zero,
    lemma_joined_count, views_of,
};
use vstd::prelude::*;

verus! {

/// The renderings of one row's cells, in column order.
pub open spec fn row_cells(row: Seq<CellValue>) -> Seq<Seq<char>> {
    row.map_values(|c: CellValue| rendered_cell(c))
}

/// One data line: the row's cell renderings, pipe-joined.
pub open spec fn row_line(row: Seq<CellValue>) -> Seq<char> {
    joined(row_cells(row), " | "@)
}

/// The header line: the column names, pipe-joined.
pub open spec fn header_line(cols: Seq<String>) -> Seq<char> {
    joined(views_of(cols), " | "@)
}

/// `n` dashes: the separator rule.
pub open spec fn dashes(n: nat) -> Seq<char> {
    Seq::new(n, |i: int| '-')
}

/// The data lines of all rows in order, each newline-terminated.
pub open spec fn body_lines(rows: Seq<Seq<CellValue>>) -> Seq<char>
    decreases rows.len(),
{
    if rows.len() == 0 {
        Seq::<char>::empty()
    } else {
        body_lines(rows.drop_last()) + row_line(rows.last()) + "\n"@
    }
}

/// The views of a sequence of owned rows.
pub open spec fn rows_of(rows: Seq<Vec<CellValue>>) -> Seq<Seq<CellValue>> {
    rows.map_values(|r: Vec<CellValue>| r@)
}

/// The whole formatted table. An empty result is the fixed sentinel,
/// whatever the column metadata says. Otherwise: the header line, a
/// separator rule, then one line per row. The rule is as long as the
/// header line plus its newline, the way the tool has always drawn it
/// — measured in characters here, so for a column name beyond ASCII
/// the rule comes out shorter than a byte count would make it.
pub open spec fn formatted_spec(rs: ResultSet) -> Seq<char> {
    if rs.rows@.len() == 0 {
        "No result found."@
    } else {
        let h = header_line(rs.columns@) + "\n"@;
        h + dashes(h.len()) + "\n"@ + body_lines(rows_of(rs.rows@))
    }
}

/// A piece of text free of newline and pipe characters, so that it can
/// neither add a line to the table nor imitate a delimiter.
pub open spec fn clean(s: Seq<char>) -> bool {
    count_char(s, '\n') == 0 && count_char(s, '|') == 0
}

/// A cell whose carried text is clean. Integer and date cells render
/// clean on their own; only driver-supplied text can be otherwise.
pub open spec fn cell_clean(c: CellValue) -> bool {
    match c {
        CellValue::Float(s) => clean(s@),
        CellValue::Text(s) => clean(s@),
        _ => true,
    }
}

proof fn lemma_sep_counts()
    ensures
        count_char(" | "@, '|') == 1,
        count_char(" | "@, '\n') == 0,
{
    reveal_strlit(" | ");
    let s = " | "@;
    let s2 = s.drop_last();
    let s1 = s2.drop_last();
    let s0 = s1.drop_last();
    assert(s.len() == 3 && s2.len() == 2 && s1.len() == 1 && s0.len() == 0);
    assert(s.last() == s[2] && s[2] == ' ');
    assert(s2.last() == s[1] && s[1] == '|');
    assert(s1.last() == s[0] && s[0] == ' ');
    assert(count_char(s0, '|') == 0);
    assert(count_char(s1, '|') == count_char(s0, '|'));
    assert(count_char(s2, '|') == count_char(s1, '|') + 1);
    assert(count_char(s, '|') == count_char(s2, '|'));
    assert(count_char(s0, '\n') == 0);
    assert(count_char(s1, '\n') == count_char(s0, '\n'));
    assert(count_char(s2, '\n') == count_char(s1, '\n'));
    assert(count_char(s, '\n') == count_char(s2, '\n'));
}

proof fn lemma_nl_counts()
    ensures
        count_char("\n"@, '\n') == 1,
{
    reveal_strlit("\n");
    let s = "\n"@;
    let s0 = s.drop_last();
    assert(s.len() == 1 && s0.len() == 0);
    assert(s.last() == s[0] && s[0] == '\n');
    assert(count_char(s0, '\n') == 0);
    assert(count_char(s, '\n') == count_char(s0, '\n') + 1);
}

/// A well-formed clean cell renders clean.
pub proof fn lemma_rendered_cell_clean(c: CellValue)
    requires
        c.wf(),
        cell_clean(c),
    ensures
        clean(rendered_cell(c)),
{
    match c {
        CellValue::Integer(v) => {
            lemma_int_str_chars(v as int);
            lemma_count_char_zero(rendered_cell(c), '\n');
            lemma_count_char_zero(rendered_cell(c), '|');
        },
        CellValue::Date(d) => {
            lemma_date_str_chars(d);
            lemma_count_char_zero(rendered_cell(c), '\n');
            lemma_count_char_zero(rendered_cell(c), '|');
        },
        CellValue::Unknown => {
            reveal_strlit("Unknow type");
            let s = "Unknow type"@;
            assert(s.len() == 11);
            assert(forall|i: int| 0 <= i < s.len() ==> s[i] != '\n');
            assert(forall|i: int| 0 <= i < s.len() ==> s[i] != '|');
            lemma_count_char_zero(s, '\n');
            lemma_count_char_zero(s, '|');
        },
        _ => {},
    }
}

/// One data line of well-formed clean cells holds exactly one pipe
/// delimiter fewer than it holds cells, and no newline.
pub proof fn lemma_row_line_counts(row: Seq<CellValue>)
    requires
        row.len() > 0,
        forall|j: int| 0 <= j < row.len() ==> (#[trigger] row[j]).wf(),
        forall|j: int| 0 <= j < row.len() ==> cell_clean(#[trigger] row[j]),
    ensures
        count_char(row_line(row), '|') == row.len() - 1,
        count_char(row_line(row), '\n') == 0,
{
    lemma_sep_counts();
    let cells = row_cells(row);
    assert forall|i: int| 0 <= i < cells.len() implies count_char(#[trigger] cells[i], '\n') == 0
        && count_char(cells[i], '|') == 0 by {
        assert(cells[i] == rendered_cell(row[i]));
        lemma_rendered_cell_clean(row[i]);
    }
    lemma_joined_count(cells, " | "@, '|');
    lemma_joined_count(cells, " | "@, '\n');
    assert((cells.len() - 1) * 1 == cells.len() - 1) by (nonlinear_arith);
}

proof fn lemma_body_lines_newlines(rows: Seq<Seq<CellValue>>)
    requires
        forall|i: int| 0 <= i < rows.len() ==> count_char(row_line(#[trigger] rows[i]), '\n') == 0,
    ensures
        count_char(body_lines(rows), '\n') == rows.len(),
    decreases rows.len(),
{
    lemma_nl_counts();
    if rows.len() == 0 {
    } else {
        let ys = rows.drop_last();
        assert(forall|i: int| 0 <= i < ys.len() ==> ys[i] == rows[i]);
        lemma_body_lines_newlines(ys);
        lemma_count_char_concat(body_lines(ys), row_line(rows.last()), '\n');
        lemma_count_char_concat(body_lines(ys) + row_line(rows.last()), "\n"@, '\n');
        assert(count_char(row_line(rows.last()), '\n') == 0);
    }
}

/// The formatted table of a non-empty result renders one line per
/// input row — its newline count is exactly the row count plus the two
/// newlines that close the header and the separator rule — and every
/// data line holds exactly one pipe delimiter fewer than there are
/// columns. This holds whenever the column names and the textual cell
/// values are themselves free of newline and pipe characters.
pub proof fn lemma_format_shape(rs: ResultSet)
    requires
        rs.wf(),
        rs.rows@.len() > 0,
        rs.columns@.len() > 0,
        forall|i: int| 0 <= i < rs.columns@.len() ==> clean((#[trigger] rs.columns@[i])@),
        forall|i: int, j: int|
            0 <= i < rs.rows@.len() && 0 <= j < rs.rows@[i]@.len() ==> cell_clean(
                #[trigger] rs.rows@[i]@[j],
            ),
    ensures
        count_char(formatted_spec(rs), '\n') == 2 + rs.rows@.len(),
        forall|i: int|
            0 <= i < rs.rows@.len() ==> count_char(row_line((#[trigger] rs.rows@[i])@), '|')
                == rs.columns@.len() - 1,
{
    lemma_sep_counts();
    lemma_nl_counts();
    let hv = views_of(rs.columns@);
    assert forall|i: int| 0 <= i < hv.len() implies count_char(#[trigger] hv[i], '\n') == 0 by {
        assert(hv[i] == rs.columns@[i]@);
    }
    lemma_joined_count(hv, " | "@, '\n');
    let hl = header_line(rs.columns@);
    lemma_count_char_concat(hl, "\n"@, '\n');
    let h = hl + "\n"@;
    assert(count_char(h, '\n') == 1);
    let dl = dashes(h.len());
    assert(forall|i: int| 0 <= i < dl.len() ==> dl[i] == '-');
    lemma_count_char_zero(dl, '\n');
    let rws = rows_of(rs.rows@);
    assert forall|i: int| 0 <= i < rws.len() implies count_char(
        row_line(#[trigger] rws[i]),
        '\n',
    ) == 0 && count_char(row_line(rws[i]), '|') == rs.columns@.len() - 1 by {
        assert(rws[i] == rs.rows@[i]@);
        assert(rs.rows@[i]@.len() == rs.columns@.len());
        assert(forall|j: int| 0 <= j < rs.rows@[i]@.len() ==> (#[trigger] rs.rows@[i]@[j]).wf());
        lemma_row_line_counts(rws[i]);
    }
    lemma_body_lines_newlines(rws);
    lemma_count_char_concat(h, dl, '\n');
    lemma_count_char_concat(h + dl, "\n"@, '\n');
    lemma_count_char_concat(h + dl + "\n"@, body_lines(rws), '\n');
    assert forall|i: int| 0 <= i < rs.rows@.len() implies count_char(
        row_line((#[trigger] rs.rows@[i])@),
        '|',
    ) == rs.columns@.len() - 1 by {
        assert(rws[i] == rs.rows@[i]@);
    }
}

/// Converts a set of returned rows into the deterministic text table
/// that is handed to the interpreting model: pure, and total on every
/// well-formed result set.
pub fn format_results(rs: &ResultSet) -> (r: String)
    requires
        rs.wf(),
    ensures
        r@ == formatted_spec(*rs),
        rs.rows@.len() == 0 ==> r@ == "No result found."@,
{
    if rs.rows.len() == 0 {
        return "No result found.".to_owned();
    }
    let mut out = join_strings(&rs.columns, " | ");
    out.append("\n");
    let ghost h = header_line(rs.columns@) + "\n"@;
    let l = out.unicode_len();
    proof {
        reveal_strlit("-");
        assert(h + dashes(0) =~= h);
    }
    let mut k: usize = 0;
    while k < l
        invariant
            k <= l,
            l == h.len(),
            out@ == h + dashes(k as nat),
        decreases l - k,
    {
        out.append("-");
        proof {
            reveal_strlit("-");
            assert(h + dashes(k as nat) + "-"@ =~= h + dashes((k + 1) as nat));
        }
        k = k + 1;
    }
    out.append("\n");
    let ghost rws = rows_of(rs.rows@);
    let ghost head = h + dashes(h.len()) + "\n"@;
    proof {
        assert(out@ =~= head);
        assert(out@ == head + body_lines(rws.take(0))) by {
            assert(head + body_lines(rws.take(0)) =~= head);
        }
    }
    let mut i: usize = 0;
    while i < rs.rows.len()
        invariant
            i <= rs.rows@.len(),
            rs.wf(),
            rws == rows_of(rs.rows@),
            out@ == head + body_lines(rws.take(i as int)),
        decreases rs.rows@.len() - i,
    {
        let row = &rs.rows[i];
        let mut cells: Vec<String> = Vec::new();
        let mut j: usize = 0;
        while j < row.len()
            invariant
                j <= row@.len(),
                i < rs.rows@.len(),
                rs.wf(),
                row@ == rs.rows@[i as int]@,
                cells@.len() == j,
                forall|m: int| 0 <= m < j ==> (#[trigger] cells@[m])@ == rendered_cell(row@[m]),
            decreases row@.len() - j,
        {
            proof {
                assert(rs.rows@[i as int]@[j as int].wf());
            }
            cells.push(render_cell(&row[j]));
            j = j + 1;
        }
        let line = join_strings(&cells, " | ");
        proof {
            assert(views_of(cells@) =~= row_cells(row@));
        }
        out.append(line.as_str());
        out.append("\n");
        proof {
            assert(rws.take(i as int + 1).drop_last() =~= rws.take(i as int));
            assert(rws.take(i as int + 1).last() == rs.rows@[i as int]@);
            assert(head + body_lines(rws.take(i as int)) + row_line(row@) + "\n"@ =~= head
                + body_lines(rws.take(i as int + 1)));
        }
        i = i + 1;
    }
    proof {
        assert(rws.take(rs.rows@.len() as int) =~= rws);
    }
    out
}

} // verus!
