//! Boxed terminal tables (comfy-table) and bold text (owo-colors).

use vstd::prelude::*;

verus! {

/// Foreground colour of a table cell.
#[derive(Debug, Clone, Copy, PartialEq, Eq, Structural)]
pub enum TableColor {
    Green,
    Yellow,
    Red,
    Magenta,
    DarkGrey,
}

/// One cell: its text and, where coloured, its colour.
pub type CellText = (String, Option<TableColor>);

/// The plain form of a table row.
pub open spec fn row_view(r: Vec<CellText>) -> Seq<(Seq<char>, Option<TableColor>)> {
    r@.map_values(|c: CellText| (c.0@, c.1))
}

/// The plain form of table rows.
pub open spec fn cells_view(rows: Seq<Vec<CellText>>) -> Seq<Seq<(Seq<char>, Option<TableColor>)>> {
    rows.map_values(|r: Vec<CellText>| row_view(r))
}

/// Appends a row.
pub fn add_row(rows: &mut Vec<Vec<CellText>>, row: Vec<CellText>)
    ensures
        cells_view(final(rows)@) == cells_view(old(rows)@).push(row_view(row)),
{
    let ghost before = rows@;
    rows.push(row);
    assert(cells_view(rows@) =~= cells_view(before).push(row_view(row)));
}

/// A row of two uncoloured cells.
pub open spec fn plain_row(a: Seq<char>, b: Seq<char>) -> Seq<(Seq<char>, Option<TableColor>)> {
    seq![(a, None::<TableColor>), (b, None::<TableColor>)]
}

pub fn plain_pair(a: &str, b: String) -> (r: Vec<CellText>)
    ensures
        row_view(r) == plain_row(a@, b@),
{
    let r: Vec<CellText> = vec![(crate::text::owned(a), None), (b, None)];
    assert(row_view(r) =~= plain_row(a@, b@));
    r
}

/// The texts of a list of strings.
pub open spec fn texts(v: Seq<String>) -> Seq<Seq<char>> {
    v.map_values(|s: String| s@)
}

/// What comfy-table prints for a table with the `UTF8_FULL` preset, this
/// header and these rows. Coloured cells are written through crossterm, which
/// leaves the colour codes out when the process's environment sets `NO_COLOR`;
/// `codes` tells which of the two texts is meant.
pub uninterp spec fn boxed_table_text(
    header: Seq<Seq<char>>,
    rows: Seq<Seq<(Seq<char>, Option<TableColor>)>>,
    codes: bool,
) -> Seq<char>;

/// No cell of these rows has a colour.
pub open spec fn plain_rows(rows: Seq<Seq<(Seq<char>, Option<TableColor>)>>) -> bool {
    forall|i: int, j: int| 0 <= i < rows.len() && 0 <= j < rows[i].len() ==> (#[trigger] rows[i][j]).1 is None
}

/// Rows that are each plain make plain rows, one after the other too.
pub proof fn lemma_plain_rows_concat(
    a: Seq<Seq<(Seq<char>, Option<TableColor>)>>,
    b: Seq<Seq<(Seq<char>, Option<TableColor>)>>,
)
    requires
        plain_rows(a),
        plain_rows(b),
    ensures
        plain_rows(a + b),
{
    assert forall|i: int, j: int| 0 <= i < (a + b).len() && 0 <= j < (a + b)[i].len() implies (#[trigger] (a + b)[i][j]).1 is None by {
        if i < a.len() {
            assert((a + b)[i] == a[i]);
        } else {
            assert((a + b)[i] == b[i - a.len()]);
        }
    }
}

/// comfy-table's cell type.
#[verifier::external_type_specification]
#[verifier::external_body]
pub struct ExTableCell(comfy_table::Cell);

/// comfy-table's `Cell::new` with the text, and `fg` with the colour where
/// one is given (one colour of comfy-table's for each of ours).
#[verifier::external_body]
fn table_cell(text: &str, color: Option<TableColor>) -> comfy_table::Cell {
    let c = comfy_table::Cell::new(text);
    match color {
        None => c,
        Some(TableColor::Green) => c.fg(comfy_table::Color::Green),
        Some(TableColor::Yellow) => c.fg(comfy_table::Color::Yellow),
        Some(TableColor::Red) => c.fg(comfy_table::Color::Red),
        Some(TableColor::Magenta) => c.fg(comfy_table::Color::Magenta),
        Some(TableColor::DarkGrey) => c.fg(comfy_table::Color::DarkGrey),
    }
}

/// comfy-table's `Table` with the `UTF8_FULL` preset, the header and the
/// rows, printed with `to_string`; the table is told it is not on a terminal
/// and to style anyway. Uncoloured cells are printed without any codes, so a
/// table without colours is the text without codes; where a cell is coloured,
/// whether crossterm writes the codes depends on `NO_COLOR` in the process's
/// environment, and the text is one of the two. The layout is not stated.
#[verifier::external_body]
pub fn boxed_table(header: &Vec<String>, rows: &Vec<Vec<CellText>>) -> (s: String)
    ensures
        s@ == boxed_table_text(texts(header@), cells_view(rows@), true)
            || s@ == boxed_table_text(texts(header@), cells_view(rows@), false),
        plain_rows(cells_view(rows@)) ==> s@ == boxed_table_text(texts(header@), cells_view(rows@), false),
{
    let mut t = comfy_table::Table::new();
    t.load_preset(comfy_table::presets::UTF8_FULL);
    t.force_no_tty().enforce_styling();
    t.set_header(header.clone());
    for row in rows.iter() {
        t.add_row(row.iter().map(|c| table_cell(&c.0, c.1)).collect::<Vec<comfy_table::Cell>>());
    }
    t.to_string()
}

/// The ANSI bold rendering of a text, as owo-colors' `bold` displays it.
pub open spec fn bold_spec(s: Seq<char>) -> Seq<char> {
    "\x1b[1m"@ + s + "\x1b[0m"@
}

/// owo-colors' `OwoColorize::bold`, displayed: the text between the bold and
/// reset escape sequences.
#[verifier::external_body]
pub fn bold_text(s: &str) -> (r: String)
    ensures
        r@ == bold_spec(s@),
{
    owo_colors::OwoColorize::bold(&s).to_string()
}

/// Red, bold text as owo-colors displays `red().bold()`.
pub open spec fn red_bold_spec(s: Seq<char>) -> Seq<char> {
    "\x1b[1m\x1b[31m"@ + s + "\x1b[39m\x1b[0m"@
}

/// Green, bold text as owo-colors displays `green().bold()`.
pub open spec fn green_bold_spec(s: Seq<char>) -> Seq<char> {
    "\x1b[1m\x1b[32m"@ + s + "\x1b[39m\x1b[0m"@
}

/// owo-colors' `red` then `bold`, displayed: bold, red foreground, the text,
/// default foreground, reset.
#[verifier::external_body]
pub fn red_bold_text(s: &str) -> (r: String)
    ensures
        r@ == red_bold_spec(s@),
{
    owo_colors::OwoColorize::bold(&owo_colors::OwoColorize::red(&s)).to_string()
}

/// owo-colors' `green` then `bold`, displayed: bold, green foreground, the
/// text, default foreground, reset.
#[verifier::external_body]
pub fn green_bold_text(s: &str) -> (r: String)
    ensures
        r@ == green_bold_spec(s@),
{
    owo_colors::OwoColorize::bold(&owo_colors::OwoColorize::green(&s)).to_string()
}

} // verus!
