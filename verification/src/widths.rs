//! The first pass of the table layout engine: the column width vector.
//!
//! A table is a contiguous run of table-shaped nodes. Every cell in the
//! run — flat in the run or wrapped inside a row — contributes its
//! flattened display width (in codepoints) to its column, and each
//! column's width is the maximum contribution.

use vstd::prelude::*;
use crate::flatten::{flatten_spec, render_inline_content};
use crate::node::Node;

verus! {

pub open spec fn nat_max(a: nat, b: nat) -> nat {
    if a >= b {
        a
    } else {
        b
    }
}

/// The display width of a cell: the codepoint count of its flattened
/// content.
pub open spec fn cell_width_spec(values: Seq<Node>) -> nat {
    flatten_spec(values).len()
}

/// What position `c` of a row's children contributes to column `c`.
pub open spec fn row_contrib(values: Seq<Node>, c: int) -> nat {
    if 0 <= c < values.len() {
        match values[c] {
            Node::TableCell { values: cv, .. } => cell_width_spec(cv@),
            _ => 0,
        }
    } else {
        0
    }
}

/// What one node of the run contributes to column `c`: a flat cell
/// contributes by its own column index, a row by the positions of its
/// cell children, and anything else contributes nothing.
pub open spec fn node_col_contrib(node: Node, c: int) -> nat {
    match node {
        Node::TableCell { values, column, .. } => if column as int == c {
            cell_width_spec(values@)
        } else {
            0
        },
        Node::TableRow { values } => row_contrib(values@, c),
        _ => 0,
    }
}

/// The width of column `c` over a whole run: the maximum contribution.
pub open spec fn col_width_spec(run: Seq<Node>, c: int) -> nat
    decreases run.len(),
{
    if run.len() == 0 {
        0
    } else {
        nat_max(col_width_spec(run.drop_last(), c), node_col_contrib(run.last(), c))
    }
}

/// How far the width vector grows for a row: one past the position of
/// its last cell child.
pub open spec fn row_cols(values: Seq<Node>) -> nat
    decreases values.len(),
{
    if values.len() == 0 {
        0
    } else if values.last() is TableCell {
        values.len()
    } else {
        row_cols(values.drop_last())
    }
}

/// How far the width vector grows for one node of the run.
pub open spec fn node_cols(node: Node) -> nat {
    match node {
        Node::TableCell { column, .. } => column as nat + 1,
        Node::TableRow { values } => row_cols(values@),
        _ => 0,
    }
}

/// The length of the width vector for a whole run.
pub open spec fn width_count_spec(run: Seq<Node>) -> nat
    decreases run.len(),
{
    if run.len() == 0 {
        0
    } else {
        nat_max(width_count_spec(run.drop_last()), node_cols(run.last()))
    }
}

/// A row never grows the width vector past its own child count.
proof fn lemma_row_cols_le(values: Seq<Node>)
    ensures
        row_cols(values) <= values.len(),
    decreases values.len(),
{
    if values.len() == 0 {
    } else if values.last() is TableCell {
    } else {
        lemma_row_cols_le(values.drop_last());
    }
}

/// Columns at or past a row's own column count get nothing from it.
proof fn lemma_row_cols_bound(values: Seq<Node>, c: int)
    requires
        c >= row_cols(values),
    ensures
        row_contrib(values, c) == 0,
    decreases values.len(),
{
    if values.len() == 0 {
    } else if values.last() is TableCell {
    } else {
        if 0 <= c < values.len() - 1 {
            lemma_row_cols_bound(values.drop_last(), c);
            assert(values.drop_last()[c] == values[c]);
        }
    }
}

/// Columns at or past the width vector's length have width zero.
proof fn lemma_col_width_bound(run: Seq<Node>, c: int)
    requires
        c >= width_count_spec(run),
    ensures
        col_width_spec(run, c) == 0,
    decreases run.len(),
{
    if run.len() == 0 {
    } else {
        lemma_col_width_bound(run.drop_last(), c);
        match run.last() {
            Node::TableRow { values } => {
                lemma_row_cols_bound(values@, c);
            },
            _ => {},
        }
    }
}

/// Law: the column width is the maximum over the run — no node
/// contributes more to column `c`, and some node attains the width
/// whenever it is not zero.
pub proof fn lemma_col_width_is_max(run: Seq<Node>, c: int)
    ensures
        forall|i: int| 0 <= i < run.len() ==> node_col_contrib(#[trigger] run[i], c)
            <= col_width_spec(run, c),
        col_width_spec(run, c) > 0 ==> exists|i: int| 0 <= i < run.len() && node_col_contrib(
            #[trigger] run[i],
            c,
        ) == col_width_spec(run, c),
    decreases run.len(),
{
    if run.len() == 0 {
    } else {
        let pre = run.drop_last();
        lemma_col_width_is_max(pre, c);
        assert forall|i: int| 0 <= i < run.len() implies node_col_contrib(
            #[trigger] run[i],
            c,
        ) <= col_width_spec(run, c) by {
            if i < run.len() - 1 {
                assert(pre[i] == run[i]);
            }
        }
        if col_width_spec(run, c) > 0 {
            if node_col_contrib(run.last(), c) == col_width_spec(run, c) {
                assert(run[run.len() - 1] == run.last());
            } else {
                assert(col_width_spec(pre, c) == col_width_spec(run, c));
                let i = choose|i: int|
                    0 <= i < pre.len() && node_col_contrib(#[trigger] pre[i], c) == col_width_spec(
                        pre,
                        c,
                    );
                assert(pre[i] == run[i]);
            }
        }
    }
}

/// Grows `widths` to cover `col` and raises entry `col` to at least `w`.
fn note_cell(widths: &mut Vec<usize>, col: usize, w: usize)
    ensures
        final(widths)@.len() == nat_max(old(widths)@.len(), col as nat + 1),
        forall|c: int|
            0 <= c < final(widths)@.len() ==> #[trigger] final(widths)@[c] as nat == nat_max(
                if c < old(widths)@.len() {
                    old(widths)@[c] as nat
                } else {
                    0
                },
                if c == col as int {
                    w as nat
                } else {
                    0
                },
            ),
{
    while widths.len() <= col
        invariant
            old(widths)@.len() <= widths@.len(),
            widths@.len() <= nat_max(old(widths)@.len(), col as nat + 1),
            forall|c: int| 0 <= c < old(widths)@.len() ==> widths@[c] == old(widths)@[c],
            forall|c: int| old(widths)@.len() <= c < widths@.len() ==> widths@[c] == 0,
        decreases col + 1 - widths@.len(),
    {
        widths.push(0);
    }
    assert(widths@.len() == nat_max(old(widths)@.len(), col as nat + 1));
    let cur = widths[col];
    if w > cur {
        widths[col] = w;
    }
}

/// Computes the column width vector of a table run: entry `c` is the
/// maximum flattened display width over every cell with column index
/// `c`, whether the cell stands flat in the run or inside a row.
pub fn calculate_column_widths(nodes: &[Node]) -> (r: Vec<usize>)
    ensures
        r@.len() == width_count_spec(nodes@),
        forall|c: int| 0 <= c < r@.len() ==> #[trigger] r@[c] as nat == col_width_spec(nodes@, c),
        forall|c: int| c >= r@.len() ==> col_width_spec(nodes@, c) == 0,
{
    let ghost run = nodes@;
    let mut widths: Vec<usize> = Vec::new();
    let mut i: usize = 0;
    while i < nodes.len()
        invariant
            run == nodes@,
            i <= run.len(),
            widths@.len() == width_count_spec(run.take(i as int)),
            forall|c: int|
                0 <= c < widths@.len() ==> #[trigger] widths@[c] as nat == col_width_spec(
                    run.take(i as int),
                    c,
                ),
        decreases run.len() - i,
    {
        let ghost pre = run.take(i as int);
        let ghost cur = run.take(i as int + 1);
        proof {
            assert(cur.drop_last() =~= pre);
            assert(cur.last() == run[i as int]);
        }
        match &nodes[i] {
            Node::TableCell { values: cv, column, .. } => {
                let content = render_inline_content(cv);
                let w = content.as_str().unicode_len();
                note_cell(&mut widths, *column, w);
                proof {
                    assert forall|c: int| 0 <= c < widths@.len() implies #[trigger] widths@[c]
                        as nat == col_width_spec(cur, c) by {
                        if c >= width_count_spec(pre) {
                            lemma_col_width_bound(pre, c);
                        }
                    }
                }
            },
            Node::TableRow { values } => {
                let ghost w0 = widths@;
                let mut j: usize = 0;
                while j < values.len()
                    invariant
                        j <= values@.len(),
                        widths@.len() == nat_max(w0.len(), row_cols(values@.take(j as int))),
                        forall|c: int|
                            0 <= c < widths@.len() ==> #[trigger] widths@[c] as nat == nat_max(
                                if c < w0.len() {
                                    w0[c] as nat
                                } else {
                                    0
                                },
                                row_contrib(values@.take(j as int), c),
                            ),
                    decreases values@.len() - j,
                {
                    let ghost rpre = values@.take(j as int);
                    let ghost rcur = values@.take(j as int + 1);
                    let ghost wpre = widths@;
                    proof {
                        assert(rcur.drop_last() =~= rpre);
                        assert(rcur.last() == values@[j as int]);
                        lemma_row_cols_le(rpre);
                        assert forall|c: int| c != j implies row_contrib(rcur, c) == row_contrib(
                            rpre,
                            c,
                        ) by {
                            if 0 <= c < j {
                                assert(rcur[c] == values@[c]);
                                assert(rpre[c] == values@[c]);
                            }
                        }
                        assert(rcur[j as int] == values@[j as int]);
                        assert(row_contrib(rpre, j as int) == 0);
                    }
                    match &values[j] {
                        Node::TableCell { values: cv, .. } => {
                            let content = render_inline_content(cv);
                            let w = content.as_str().unicode_len();
                            note_cell(&mut widths, j, w);
                            proof {
                                assert(row_cols(rcur) == j + 1);
                                assert(row_contrib(rcur, j as int) == w as nat);
                                assert forall|c: int| 0 <= c < widths@.len() implies
                                    #[trigger] widths@[c] as nat == nat_max(
                                    if c < w0.len() {
                                        w0[c] as nat
                                    } else {
                                        0
                                    },
                                    row_contrib(rcur, c),
                                ) by {
                                    if c >= wpre.len() {
                                        lemma_row_cols_bound(rpre, c);
                                    }
                                }
                            }
                        },
                        _ => {
                            proof {
                                assert(row_cols(rcur) == row_cols(rpre));
                                assert(row_contrib(rcur, j as int) == 0);
                            }
                        },
                    }
                    j = j + 1;
                }
                proof {
                    assert(values@.take(values@.len() as int) =~= values@);
                    assert forall|c: int| 0 <= c < widths@.len() implies #[trigger] widths@[c]
                        as nat == col_width_spec(cur, c) by {
                        if c >= width_count_spec(pre) {
                            lemma_col_width_bound(pre, c);
                        }
                    }
                }
            },
            _ => {
                proof {
                    assert(node_cols(run[i as int]) == 0);
                    assert forall|c: int| 0 <= c < widths@.len() implies #[trigger] widths@[c]
                        as nat == col_width_spec(cur, c) by {
                        assert(node_col_contrib(run[i as int], c) == 0);
                    }
                }
            },
        }
        i = i + 1;
    }
    proof {
        assert(run.take(run.len() as int) =~= run);
        assert forall|c: int| c >= widths@.len() implies col_width_spec(nodes@, c) == 0 by {
            lemma_col_width_bound(run, c);
        }
    }
    widths
}

} // verus!
