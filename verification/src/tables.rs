//! Tables as a frame holds them: a title, columns and rows of texts.
use vstd::prelude::*;

verus! {

/// One column of a table.
#[derive(Clone, Debug)]
pub struct Column {
    pub heading: String,
    /// The width of the column, in thousandths of the table's width.
    pub width: u32,
}

/// One row of a table.
#[derive(Clone, Debug)]
pub struct Row {
    /// Whether the row stands on a darker ground: every second row does.
    pub shaded: bool,
    /// One text for each column.
    pub cells: Vec<String>,
}

/// A table.
#[derive(Clone, Debug)]
pub struct Table {
    pub title: String,
    pub columns: Vec<Column>,
    pub rows: Vec<Row>,
}

/// Whether `columns` have the headings `headings` and the widths `widths`,
/// in that order.
pub open spec fn columns_are(
    columns: Seq<Column>,
    headings: Seq<Seq<char>>,
    widths: Seq<int>,
) -> bool {
    &&& columns.len() == headings.len()
    &&& columns.len() == widths.len()
    &&& forall|i: int|
        0 <= i < columns.len() ==> (#[trigger] columns[i]).heading@ == headings[i] && columns[i].width
            == widths[i]
}

/// Whether the row at `index` of a table is shaded: the second, the
/// fourth, and so on.
pub open spec fn is_shaded(index: int) -> bool {
    index % 2 != 0
}

/// Adds a column to `columns`.
pub fn push_column(columns: &mut Vec<Column>, heading: &str, width: u32)
    ensures
        final(columns)@.len() == old(columns)@.len() + 1,
        forall|i: int| 0 <= i < old(columns)@.len() ==> final(columns)@[i] == old(columns)@[i],
        final(columns)@[old(columns)@.len() as int].heading@ == heading@,
        final(columns)@[old(columns)@.len() as int].width == width,
{
    columns.push(Column { heading: heading.to_owned(), width });
}

} // verus!
