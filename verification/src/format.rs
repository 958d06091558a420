//! The result formatter: renders a query result — an ordered sequence of row
//! batches sharing one schema — as a fixed-width textual table.
//!
//! The text is one header line naming each column, then one line per row, in
//! batch order. Every cell is padded on the right with spaces to its column's
//! width — the widest of the column's name and all of its cells — and cells
//! are joined by `" | "`. Zero batches yield a header-only table, not an
//! error; a row whose arity differs from the schema's is a contract violation
//! between executor and formatter and is reported as a `FormatError`.

use vstd::prelude::*;
use vstd::string::StrSliceExecFns;
use vstd::string::StringExecFns;

verus! {

/// One unit of query output: rows sharing the result's schema, each cell
/// already rendered as text.
pub struct RowBatch {
    pub rows: Vec<Vec<String>>,
}

/// The text of a sequence of cells.
pub open spec fn cells_view(v: Seq<String>) -> Seq<Seq<char>> {
    v.map_values(|c: String| c@)
}

impl View for RowBatch {
    type V = Seq<Seq<Seq<char>>>;

    open spec fn view(&self) -> Seq<Seq<Seq<char>>> {
        self.rows@.map_values(|r: Vec<String>| cells_view(r@))
    }
}

/// Malformed query output: a row whose arity differs from the schema's.
#[derive(Debug, Clone, Copy, PartialEq, Eq)]
pub enum FormatError {
    InconsistentRow,
}

/// `n` spaces.
pub open spec fn spaces(n: nat) -> Seq<char>
    decreases n,
{
    if n == 0 {
        Seq::empty()
    } else {
        spaces((n - 1) as nat).push(' ')
    }
}

/// `s` padded on the right with spaces to width `w`; `s` itself if it is
/// already that wide.
pub open spec fn pad_cell(s: Seq<char>, w: nat) -> Seq<char> {
    if s.len() < w {
        s + spaces((w - s.len()) as nat)
    } else {
        s
    }
}

/// What stands between two columns.
pub open spec fn column_sep() -> Seq<char> {
    " | "@
}

/// What ends a line.
pub open spec fn line_break() -> Seq<char> {
    "\n"@
}

/// The first `n` cells of one line: each cell padded to its column's width,
/// cells joined by the column separator.
pub open spec fn line_up_to(cells: Seq<Seq<char>>, widths: Seq<nat>, n: int) -> Seq<char>
    decreases n,
{
    if n <= 0 {
        Seq::empty()
    } else {
        line_up_to(cells, widths, n - 1) + (if n == 1 {
            Seq::<char>::empty()
        } else {
            column_sep()
        }) + pad_cell(cells[n - 1], widths[n - 1])
    }
}

/// One full line of the table: all cells, then a line break.
pub open spec fn row_line(cells: Seq<Seq<char>>, widths: Seq<nat>) -> Seq<char> {
    line_up_to(cells, widths, cells.len() as int) + line_break()
}

/// The table text down to its first `n` data rows: the header line, then one
/// line per row.
pub open spec fn table_up_to(
    header: Seq<Seq<char>>,
    rows: Seq<Seq<Seq<char>>>,
    widths: Seq<nat>,
    n: int,
) -> Seq<char>
    decreases n,
{
    if n <= 0 {
        row_line(header, widths)
    } else {
        table_up_to(header, rows, widths, n - 1) + row_line(rows[n - 1], widths)
    }
}

/// The width of column `j` over the first `n` rows, starting from the width
/// `h` of the column's name: the widest cell wins.
pub open spec fn col_width_up_to(h: nat, rows: Seq<Seq<Seq<char>>>, j: int, n: int) -> nat
    decreases n,
{
    if n <= 0 {
        h
    } else {
        let prev = col_width_up_to(h, rows, j, n - 1);
        if rows[n - 1][j].len() > prev {
            rows[n - 1][j].len()
        } else {
            prev
        }
    }
}

/// The width of column `j`: the widest of its name and all its cells.
pub open spec fn col_width(header: Seq<Seq<char>>, rows: Seq<Seq<Seq<char>>>, j: int) -> nat {
    col_width_up_to(header[j].len(), rows, j, rows.len() as int)
}

/// The width of every column.
pub open spec fn table_widths(header: Seq<Seq<char>>, rows: Seq<Seq<Seq<char>>>) -> Seq<nat> {
    Seq::new(header.len(), |j: int| col_width(header, rows, j))
}

/// The full table text for a schema and its data rows.
pub open spec fn spec_format_table(header: Seq<Seq<char>>, rows: Seq<Seq<Seq<char>>>) -> Seq<char> {
    table_up_to(header, rows, table_widths(header, rows), rows.len() as int)
}

/// Every row has exactly `ncols` cells.
pub open spec fn rows_conform(ncols: nat, rows: Seq<Seq<Seq<char>>>) -> bool {
    forall|i: int| 0 <= i < rows.len() ==> (#[trigger] rows[i]).len() == ncols
}

/// The rows of a sequence of batches, concatenated in order.
pub open spec fn flat_rows(batches: Seq<Seq<Seq<Seq<char>>>>) -> Seq<Seq<Seq<char>>>
    decreases batches.len(),
{
    if batches.len() == 0 {
        Seq::empty()
    } else {
        flat_rows(batches.drop_last()) + batches.last()
    }
}

/// The rows of a sequence of row batches, concatenated in order: their
/// concatenation is the logical full result of one query.
pub open spec fn flat_view(batches: Seq<RowBatch>) -> Seq<Seq<Seq<char>>> {
    flat_rows(batches.map_values(|b: RowBatch| b@))
}

proof fn lemma_flat_push(batches: Seq<Seq<Seq<Seq<char>>>>, b: Seq<Seq<Seq<char>>>)
    ensures
        flat_rows(batches.push(b)) == flat_rows(batches) + b,
{
    assert(batches.push(b).drop_last() =~= batches);
    assert(batches.push(b).last() == b);
}

/// Appends `cell` padded on the right with spaces to width `w`.
fn append_padded(out: &mut String, cell: &String, w: usize)
    ensures
        final(out)@ == old(out)@ + pad_cell(cell@, w as nat),
{
    let ghost base = old(out)@;
    out.append(cell.as_str());
    let l = cell.as_str().unicode_len();
    proof {
        assert(out@ == base + cell@ + spaces(0)) by {
            assert(cell@ + spaces(0) =~= cell@);
        }
    }
    let mut k = l;
    while k < w
        invariant
            l == cell@.len(),
            l <= k,
            k <= w || k == l,
            out@ == base + cell@ + spaces((k - l) as nat),
        decreases w - k,
    {
        out.append(" ");
        proof {
            reveal_strlit(" ");
            assert(" "@ =~= seq![' ']);
            assert((base + cell@ + spaces((k - l) as nat)) + " "@ =~= base + cell@ + spaces(
                (k - l) as nat,
            ).push(' '));
        }
        k = k + 1;
    }
    proof {
        if cell@.len() < w as nat {
            assert(k == w);
        } else {
            assert(k == l);
            assert(base + cell@ + spaces(0) =~= base + cell@);
        }
    }
}

/// Appends one full line: the cells padded to their columns' widths, joined
/// by the column separator, then a line break.
fn append_row(out: &mut String, cells: &Vec<String>, widths: &Vec<usize>)
    requires
        cells@.len() == widths@.len(),
    ensures
        final(out)@ == old(out)@ + row_line(cells_view(cells@), widths_view(widths@)),
{
    let ghost base = old(out)@;
    let ghost cv = cells_view(cells@);
    let ghost wv = widths_view(widths@);
    let n = cells.len();
    proof {
        assert(base + line_up_to(cv, wv, 0) =~= base);
    }
    for j in 0..n
        invariant
            n == cells@.len(),
            n == widths@.len(),
            cv == cells_view(cells@),
            wv == widths_view(widths@),
            out@ == base + line_up_to(cv, wv, j as int),
    {
        if j > 0 {
            out.append(" | ");
        }
        append_padded(out, &cells[j], widths[j]);
        proof {
            assert(cv[j as int] == cells@[j as int]@);
            assert(wv[j as int] == widths@[j as int] as nat);
            if j > 0 {
                assert((base + line_up_to(cv, wv, j as int)) + column_sep() + pad_cell(
                    cv[j as int],
                    wv[j as int],
                ) =~= base + line_up_to(cv, wv, j as int + 1));
            } else {
                assert((base + line_up_to(cv, wv, 0)) + pad_cell(cv[0], wv[0]) =~= base
                    + line_up_to(cv, wv, 1)) by {
                    assert(line_up_to(cv, wv, 0) =~= Seq::<char>::empty());
                    assert(line_up_to(cv, wv, 1) =~= Seq::<char>::empty() + Seq::<char>::empty()
                        + pad_cell(cv[0], wv[0]));
                }
            }
        }
    }
    out.append("\n");
    proof {
        assert((base + line_up_to(cv, wv, n as int)) + "\n"@ =~= base + row_line(cv, wv));
    }
}

/// The widths of a width vector, as mathematical naturals.
pub open spec fn widths_view(w: Seq<usize>) -> Seq<nat> {
    w.map_values(|x: usize| x as nat)
}

/// Renders the batches of one query result as a fixed-width textual table:
/// a header line naming each column, then one line per row, batches in order
/// and rows in order within each batch. Succeeds exactly when every row has
/// one cell per column of the schema; zero batches are not an error and give
/// a header-only table.
pub fn format_table(header: &Vec<String>, batches: &Vec<RowBatch>) -> (r: Result<
    String,
    FormatError,
>)
    ensures
        r is Ok <==> rows_conform(header@.len() as nat, flat_view(batches@)),
        r matches Ok(s) ==> s@ == spec_format_table(cells_view(header@), flat_view(batches@)),
{
    let ncols = header.len();
    let ghost flat = flat_view(batches@);

    // Gather every row of every batch, in order.
    let mut all: Vec<&Vec<String>> = Vec::new();
    proof {
        assert(batches@.take(0).map_values(|b: RowBatch| b@) =~= Seq::<Seq<Seq<Seq<char>>>>::empty());
        assert(all@.map_values(|r: &Vec<String>| cells_view(r@)) =~= flat_view(batches@.take(0)));
    }
    let nb = batches.len();
    for bi in 0..nb
        invariant
            nb == batches@.len(),
            all@.map_values(|r: &Vec<String>| cells_view(r@)) == flat_view(
                batches@.take(bi as int),
            ),
    {
        let b = &batches[bi];
        let nr = b.rows.len();
        proof {
            assert(b@.take(0) =~= Seq::<Seq<Seq<char>>>::empty());
            assert(flat_view(batches@.take(bi as int)) + b@.take(0) =~= flat_view(
                batches@.take(bi as int),
            ));
        }
        for ri in 0..nr
            invariant
                nb == batches@.len(),
                bi < nb,
                nr == b.rows@.len(),
                b == &batches@[bi as int],
                all@.map_values(|r: &Vec<String>| cells_view(r@)) == flat_view(
                    batches@.take(bi as int),
                ) + b@.take(ri as int),
        {
            let ghost before = all@;
            all.push(&b.rows[ri]);
            proof {
                assert(all@.map_values(|r: &Vec<String>| cells_view(r@)) =~= before.map_values(
                    |r: &Vec<String>| cells_view(r@),
                ).push(cells_view(b.rows@[ri as int]@)));
                assert(b@[ri as int] == cells_view(b.rows@[ri as int]@));
                assert(b@.take(ri as int + 1) =~= b@.take(ri as int).push(b@[ri as int]));
                assert((flat_view(batches@.take(bi as int)) + b@.take(ri as int)).push(
                    b@[ri as int],
                ) =~= flat_view(batches@.take(bi as int)) + b@.take(ri as int + 1));
            }
        }
        proof {
            assert(b@.take(nr as int) =~= b@);
            let taken = batches@.take(bi as int).map_values(|x: RowBatch| x@);
            assert(batches@.take(bi as int + 1).map_values(|x: RowBatch| x@) =~= taken.push(b@));
            lemma_flat_push(taken, b@);
        }
    }
    proof {
        assert(batches@.take(nb as int) =~= batches@);
        assert(all@.map_values(|r: &Vec<String>| cells_view(r@)) == flat);
    }
    let nrows = all.len();
    proof {
        assert(nrows == flat.len());
    }

    // Refuse malformed output: every row must have one cell per column.
    for k in 0..nrows
        invariant
            nrows == all@.len(),
            nrows == flat.len(),
            flat == flat_view(batches@),
            all@.map_values(|r: &Vec<String>| cells_view(r@)) == flat,
            ncols == header@.len(),
            forall|m: int| 0 <= m < k ==> (#[trigger] flat[m]).len() == ncols,
    {
        let row = all[k];
        proof {
            assert(flat[k as int] == cells_view(all@[k as int]@));
        }
        if row.len() != ncols {
            proof {
                assert(flat[k as int].len() == row@.len());
                assert(flat[k as int].len() != header@.len() as nat);
                assert(!rows_conform(header@.len() as nat, flat_view(batches@)));
            }
            return Err(FormatError::InconsistentRow);
        }
    }

    // The width of each column: the widest of its name and all its cells.
    let ghost hv = cells_view(header@);
    let mut widths: Vec<usize> = Vec::new();
    for j in 0..ncols
        invariant
            ncols == header@.len(),
            hv == cells_view(header@),
            widths@.len() == j,
            forall|m: int| 0 <= m < j ==> widths@[m] as nat == hv[m].len(),
    {
        widths.push(header[j].as_str().unicode_len());
    }
    for k in 0..nrows
        invariant
            nrows == all@.len(),
            nrows == flat.len(),
            all@.map_values(|r: &Vec<String>| cells_view(r@)) == flat,
            ncols == header@.len(),
            hv == cells_view(header@),
            widths@.len() == ncols,
            rows_conform(ncols as nat, flat),
            forall|m: int|
                0 <= m < ncols ==> #[trigger] widths@[m] as nat == col_width_up_to(
                    hv[m].len(),
                    flat,
                    m,
                    k as int,
                ),
    {
        let row = all[k];
        proof {
            assert(flat[k as int] == cells_view(all@[k as int]@));
            assert(flat[k as int].len() == ncols);
        }
        for j in 0..ncols
            invariant
                nrows == all@.len(),
                nrows == flat.len(),
                k < nrows,
                all@.map_values(|r: &Vec<String>| cells_view(r@)) == flat,
                row == all@[k as int],
                flat[k as int].len() == ncols,
                row@.len() == ncols,
                ncols == header@.len(),
                hv == cells_view(header@),
                widths@.len() == ncols,
                forall|m: int|
                    0 <= m < j ==> #[trigger] widths@[m] as nat == col_width_up_to(
                        hv[m].len(),
                        flat,
                        m,
                        k as int + 1,
                    ),
                forall|m: int|
                    j <= m < ncols ==> #[trigger] widths@[m] as nat == col_width_up_to(
                        hv[m].len(),
                        flat,
                        m,
                        k as int,
                    ),
        {
            let l = row[j].as_str().unicode_len();
            proof {
                assert(flat[k as int][j as int] == row@[j as int]@);
            }
            if l > widths[j] {
                widths.set(j, l);
            }
        }
    }
    let ghost wv = widths_view(widths@);
    proof {
        assert(wv =~= table_widths(hv, flat));
    }

    // Header line, then one line per row.
    let mut out = String::new();
    append_row(&mut out, header, &widths);
    proof {
        assert(Seq::<char>::empty() + row_line(hv, wv) =~= row_line(hv, wv));
        assert(out@ == table_up_to(hv, flat, wv, 0));
    }
    for k in 0..nrows
        invariant
            nrows == all@.len(),
            nrows == flat.len(),
            all@.map_values(|r: &Vec<String>| cells_view(r@)) == flat,
            ncols == header@.len(),
            hv == cells_view(header@),
            wv == widths_view(widths@),
            widths@.len() == ncols,
            rows_conform(ncols as nat, flat),
            out@ == table_up_to(hv, flat, wv, k as int),
    {
        let row = all[k];
        proof {
            assert(flat[k as int] == cells_view(all@[k as int]@));
            assert(flat[k as int].len() == ncols);
        }
        append_row(&mut out, row, &widths);
    }
    Ok(out)
}

/// Formatting an empty result gives exactly the header line — the column
/// names, each as wide as itself, joined by the separator, then one line
/// break — and nothing else.
pub proof fn lemma_empty_table_is_header_line(header: Seq<Seq<char>>)
    ensures
        spec_format_table(header, Seq::empty()) == row_line(
            header,
            header.map_values(|c: Seq<char>| c.len()),
        ),
{
    let widths = table_widths(header, Seq::empty());
    assert(widths =~= header.map_values(|c: Seq<char>| c.len()));
}

} // verus!
