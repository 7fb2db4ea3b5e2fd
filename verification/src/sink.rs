//! The trusted boundary to the worksheet sink.
//!
//! Every function here wraps exactly one write into a `rust_xlsxwriter`
//! worksheet (or one step of building a `rust_xlsxwriter::Format`). The
//! contracts state, over plain values, the success conditions that the
//! crate's source shows: a write succeeds exactly when its positions are
//! inside the sheet's bounds, its range is ordered, and its rule or text
//! passes the sink's own validation. Each conditional-format wrapper also
//! hands the rule's stop-if-true flag through `set_stop_if_true`, which never
//! fails.
//!
//! Three names describe what the contracts need of the sink. `ws_writes` is
//! the worksheet's call log: the sequence of successful write calls it has
//! received through this boundary, each with its plain arguments (the log is
//! a specification device — a fresh worksheet's log is empty, every
//! successful call appends its own record, and a failed call appends
//! nothing). The other two describe the one piece of sink state:
//! `ws_table_ranges`, the ranges of the tables recorded in the worksheet,
//! and `ws_tables_clean`, which holds of a worksheet whose table-cell
//! registry matches those ranges exactly and which has no worksheet-level
//! autofilter. A fresh worksheet is clean; every wrapper but `ws_add_table`
//! leaves the table registry alone (only `add_table` touches it in the
//! crate's source), and a failed `add_table` may leave the registry dirty,
//! after which nothing more is claimed — the library stops emitting at the
//! first failure. Nothing else is assumed of the opaque sink state.

use vstd::prelude::*;
use crate::plan::{valid_sheet_name, range_ok, range_free, SinkWrite};
use crate::cond_format::{CfRuleView, CfCellOp, CfDatePeriod};
use crate::bounds::{ROW_MAX, COL_MAX, TEXT_MAX};

verus! {

#[verifier::external_type_specification]
#[verifier::external_body]
pub struct ExWorksheet(rust_xlsxwriter::Worksheet);

#[verifier::external_type_specification]
#[verifier::external_body]
pub struct ExXlsxError(rust_xlsxwriter::XlsxError);

#[verifier::external_type_specification]
#[verifier::external_body]
pub struct ExFormat(rust_xlsxwriter::Format);

/// The ranges of the tables recorded in a worksheet, in insertion order.
pub uninterp spec fn ws_table_ranges(w: rust_xlsxwriter::Worksheet) -> Seq<(u32, u16, u32, u16)>;

/// A worksheet whose table-cell registry holds exactly the cells of its
/// recorded table ranges and which has no worksheet-level autofilter. Holds
/// of a fresh worksheet and is preserved by every call here except a failed
/// `add_table`, which may leave part of its rejected range registered.
pub uninterp spec fn ws_tables_clean(w: rust_xlsxwriter::Worksheet) -> bool;

/// The write calls a worksheet has received through this boundary, in
/// order: each wrapper's contract appends its own record on success.
pub uninterp spec fn ws_writes(w: rust_xlsxwriter::Worksheet) -> Seq<SinkWrite>;

/// Relies on `Worksheet::new`: builds a fresh, empty worksheet, with no
/// tables recorded.
#[verifier::external_body]
pub(crate) fn ws_new() -> (r: rust_xlsxwriter::Worksheet)
    ensures
        ws_table_ranges(r) == Seq::<(u32, u16, u32, u16)>::empty(),
        ws_tables_clean(r),
        ws_writes(r) == Seq::<SinkWrite>::empty(),
{
    rust_xlsxwriter::Worksheet::new()
}

/// Relies on `Worksheet::set_name`, which succeeds exactly when
/// `utility::validate_sheetname` does: nonempty, at most 31 characters, none
/// of `* ? : [ ] \ /`, no leading or trailing apostrophe.
#[verifier::external_body]
pub(crate) fn ws_set_name(w: &mut rust_xlsxwriter::Worksheet, name: &str) -> (r: Result<(), rust_xlsxwriter::XlsxError>)
    ensures
        r is Ok ==> ws_writes(*final(w)) == ws_writes(*old(w)).push(SinkWrite::Name { name: name@ }),
        r is Err ==> ws_writes(*final(w)) == ws_writes(*old(w)),
        ws_table_ranges(*final(w)) == ws_table_ranges(*old(w)),
        ws_tables_clean(*old(w)) ==> ws_tables_clean(*final(w)),
        r is Ok <==> valid_sheet_name(name@),
{
    match w.set_name(name) {
        Ok(_) => Ok(()),
        Err(e) => Err(e),
    }
}

/// Relies on `Worksheet::set_row_height` / `set_row_height_pixels`: succeeds
/// exactly when the row is inside the sheet.
#[verifier::external_body]
pub(crate) fn ws_set_row_height(w: &mut rust_xlsxwriter::Worksheet, row: u32, height: u32) -> (r: Result<(), rust_xlsxwriter::XlsxError>)
    ensures
        r is Ok ==> ws_writes(*final(w)) == ws_writes(*old(w)).push(SinkWrite::RowHeight { row, height }),
        r is Err ==> ws_writes(*final(w)) == ws_writes(*old(w)),
        ws_table_ranges(*final(w)) == ws_table_ranges(*old(w)),
        ws_tables_clean(*old(w)) ==> ws_tables_clean(*final(w)),
        r is Ok <==> row < ROW_MAX,
{
    match w.set_row_height(row, height) {
        Ok(_) => Ok(()),
        Err(e) => Err(e),
    }
}

/// Relies on `Worksheet::set_row_format`: succeeds exactly when the row is
/// inside the sheet.
#[verifier::external_body]
pub(crate) fn ws_set_row_format(w: &mut rust_xlsxwriter::Worksheet, row: u32, f: &rust_xlsxwriter::Format) -> (r: Result<(), rust_xlsxwriter::XlsxError>)
    ensures
        r is Ok ==> ws_writes(*final(w)) == ws_writes(*old(w)).push(SinkWrite::RowFormat { row }),
        r is Err ==> ws_writes(*final(w)) == ws_writes(*old(w)),
        ws_table_ranges(*final(w)) == ws_table_ranges(*old(w)),
        ws_tables_clean(*old(w)) ==> ws_tables_clean(*final(w)),
        r is Ok <==> row < ROW_MAX,
{
    match w.set_row_format(row, f) {
        Ok(_) => Ok(()),
        Err(e) => Err(e),
    }
}

/// Relies on `Worksheet::set_row_hidden`: succeeds exactly when the row is
/// inside the sheet.
#[verifier::external_body]
pub(crate) fn ws_set_row_hidden(w: &mut rust_xlsxwriter::Worksheet, row: u32) -> (r: Result<(), rust_xlsxwriter::XlsxError>)
    ensures
        r is Ok ==> ws_writes(*final(w)) == ws_writes(*old(w)).push(SinkWrite::RowHidden { row }),
        r is Err ==> ws_writes(*final(w)) == ws_writes(*old(w)),
        ws_table_ranges(*final(w)) == ws_table_ranges(*old(w)),
        ws_tables_clean(*old(w)) ==> ws_tables_clean(*final(w)),
        r is Ok <==> row < ROW_MAX,
{
    match w.set_row_hidden(row) {
        Ok(_) => Ok(()),
        Err(e) => Err(e),
    }
}

/// Relies on `Worksheet::set_column_width` / `set_column_width_internal`:
/// succeeds exactly when the column is inside the sheet (a zero width turns
/// into `set_column_hidden`, which checks the same bound).
#[verifier::external_body]
pub(crate) fn ws_set_col_width(w: &mut rust_xlsxwriter::Worksheet, col: u16, width: u32) -> (r: Result<(), rust_xlsxwriter::XlsxError>)
    ensures
        r is Ok ==> ws_writes(*final(w)) == ws_writes(*old(w)).push(SinkWrite::ColWidth { col, width }),
        r is Err ==> ws_writes(*final(w)) == ws_writes(*old(w)),
        ws_table_ranges(*final(w)) == ws_table_ranges(*old(w)),
        ws_tables_clean(*old(w)) ==> ws_tables_clean(*final(w)),
        r is Ok <==> col < COL_MAX,
{
    match w.set_column_width(col, width) {
        Ok(_) => Ok(()),
        Err(e) => Err(e),
    }
}

/// Relies on `Worksheet::set_column_format`: succeeds exactly when the
/// column is inside the sheet.
#[verifier::external_body]
pub(crate) fn ws_set_col_format(w: &mut rust_xlsxwriter::Worksheet, col: u16, f: &rust_xlsxwriter::Format) -> (r: Result<(), rust_xlsxwriter::XlsxError>)
    ensures
        r is Ok ==> ws_writes(*final(w)) == ws_writes(*old(w)).push(SinkWrite::ColFormat { col }),
        r is Err ==> ws_writes(*final(w)) == ws_writes(*old(w)),
        ws_table_ranges(*final(w)) == ws_table_ranges(*old(w)),
        ws_tables_clean(*old(w)) ==> ws_tables_clean(*final(w)),
        r is Ok <==> col < COL_MAX,
{
    match w.set_column_format(col, f) {
        Ok(_) => Ok(()),
        Err(e) => Err(e),
    }
}

/// Relies on `Worksheet::set_column_hidden`: succeeds exactly when the
/// column is inside the sheet.
#[verifier::external_body]
pub(crate) fn ws_set_col_hidden(w: &mut rust_xlsxwriter::Worksheet, col: u16) -> (r: Result<(), rust_xlsxwriter::XlsxError>)
    ensures
        r is Ok ==> ws_writes(*final(w)) == ws_writes(*old(w)).push(SinkWrite::ColHidden { col }),
        r is Err ==> ws_writes(*final(w)) == ws_writes(*old(w)),
        ws_table_ranges(*final(w)) == ws_table_ranges(*old(w)),
        ws_tables_clean(*old(w)) ==> ws_tables_clean(*final(w)),
        r is Ok <==> col < COL_MAX,
{
    match w.set_column_hidden(col) {
        Ok(_) => Ok(()),
        Err(e) => Err(e),
    }
}

/// Relies on `Worksheet::write_string` / `store_string`: an empty string
/// with no format is ignored and succeeds; otherwise the write succeeds
/// exactly when the position is in bounds and the text within the sink's
/// character limit.
#[verifier::external_body]
pub(crate) fn ws_write_string(w: &mut rust_xlsxwriter::Worksheet, row: u32, col: u16, s: &str) -> (r: Result<(), rust_xlsxwriter::XlsxError>)
    ensures
        r is Ok ==> ws_writes(*final(w)) == ws_writes(*old(w)).push(SinkWrite::Text { row, col, text: s@, formatted: false }),
        r is Err ==> ws_writes(*final(w)) == ws_writes(*old(w)),
        ws_table_ranges(*final(w)) == ws_table_ranges(*old(w)),
        ws_tables_clean(*old(w)) ==> ws_tables_clean(*final(w)),
        r is Ok <==> (s@.len() == 0 || (row < ROW_MAX && col < COL_MAX && s@.len() <= TEXT_MAX)),
{
    match w.write_string(row, col, s) {
        Ok(_) => Ok(()),
        Err(e) => Err(e),
    }
}

/// Relies on `Worksheet::write_string_with_format` / `store_string`: an
/// empty string becomes a formatted blank; the write succeeds exactly when
/// the position is in bounds and the text within the character limit.
#[verifier::external_body]
pub(crate) fn ws_write_string_fmt(w: &mut rust_xlsxwriter::Worksheet, row: u32, col: u16, s: &str, f: &rust_xlsxwriter::Format) -> (r: Result<(), rust_xlsxwriter::XlsxError>)
    ensures
        r is Ok ==> ws_writes(*final(w)) == ws_writes(*old(w)).push(SinkWrite::Text { row, col, text: s@, formatted: true }),
        r is Err ==> ws_writes(*final(w)) == ws_writes(*old(w)),
        ws_table_ranges(*final(w)) == ws_table_ranges(*old(w)),
        ws_tables_clean(*old(w)) ==> ws_tables_clean(*final(w)),
        r is Ok <==> (row < ROW_MAX && col < COL_MAX && s@.len() <= TEXT_MAX),
{
    match w.write_string_with_format(row, col, s, f) {
        Ok(_) => Ok(()),
        Err(e) => Err(e),
    }
}

/// Relies on `Worksheet::write_number` / `store_number_type`: succeeds
/// exactly when the position is in bounds (an `i32` converts losslessly).
#[verifier::external_body]
pub(crate) fn ws_write_number(w: &mut rust_xlsxwriter::Worksheet, row: u32, col: u16, n: i32) -> (r: Result<(), rust_xlsxwriter::XlsxError>)
    ensures
        r is Ok ==> ws_writes(*final(w)) == ws_writes(*old(w)).push(SinkWrite::Number { row, col, number: n, formatted: false }),
        r is Err ==> ws_writes(*final(w)) == ws_writes(*old(w)),
        ws_table_ranges(*final(w)) == ws_table_ranges(*old(w)),
        ws_tables_clean(*old(w)) ==> ws_tables_clean(*final(w)),
        r is Ok <==> (row < ROW_MAX && col < COL_MAX),
{
    match w.write_number(row, col, n) {
        Ok(_) => Ok(()),
        Err(e) => Err(e),
    }
}

/// Relies on `Worksheet::write_number_with_format`: succeeds exactly when
/// the position is in bounds.
#[verifier::external_body]
pub(crate) fn ws_write_number_fmt(w: &mut rust_xlsxwriter::Worksheet, row: u32, col: u16, n: i32, f: &rust_xlsxwriter::Format) -> (r: Result<(), rust_xlsxwriter::XlsxError>)
    ensures
        r is Ok ==> ws_writes(*final(w)) == ws_writes(*old(w)).push(SinkWrite::Number { row, col, number: n, formatted: true }),
        r is Err ==> ws_writes(*final(w)) == ws_writes(*old(w)),
        ws_table_ranges(*final(w)) == ws_table_ranges(*old(w)),
        ws_tables_clean(*old(w)) ==> ws_tables_clean(*final(w)),
        r is Ok <==> (row < ROW_MAX && col < COL_MAX),
{
    match w.write_number_with_format(row, col, n, f) {
        Ok(_) => Ok(()),
        Err(e) => Err(e),
    }
}

/// Relies on `Worksheet::write_boolean` / `store_boolean`: succeeds exactly
/// when the position is in bounds.
#[verifier::external_body]
pub(crate) fn ws_write_boolean(w: &mut rust_xlsxwriter::Worksheet, row: u32, col: u16, b: bool) -> (r: Result<(), rust_xlsxwriter::XlsxError>)
    ensures
        r is Ok ==> ws_writes(*final(w)) == ws_writes(*old(w)).push(SinkWrite::Boolean { row, col, value: b, formatted: false }),
        r is Err ==> ws_writes(*final(w)) == ws_writes(*old(w)),
        ws_table_ranges(*final(w)) == ws_table_ranges(*old(w)),
        ws_tables_clean(*old(w)) ==> ws_tables_clean(*final(w)),
        r is Ok <==> (row < ROW_MAX && col < COL_MAX),
{
    match w.write_boolean(row, col, b) {
        Ok(_) => Ok(()),
        Err(e) => Err(e),
    }
}

/// Relies on `Worksheet::write_boolean_with_format`: succeeds exactly when
/// the position is in bounds.
#[verifier::external_body]
pub(crate) fn ws_write_boolean_fmt(w: &mut rust_xlsxwriter::Worksheet, row: u32, col: u16, b: bool, f: &rust_xlsxwriter::Format) -> (r: Result<(), rust_xlsxwriter::XlsxError>)
    ensures
        r is Ok ==> ws_writes(*final(w)) == ws_writes(*old(w)).push(SinkWrite::Boolean { row, col, value: b, formatted: true }),
        r is Err ==> ws_writes(*final(w)) == ws_writes(*old(w)),
        ws_table_ranges(*final(w)) == ws_table_ranges(*old(w)),
        ws_tables_clean(*old(w)) ==> ws_tables_clean(*final(w)),
        r is Ok <==> (row < ROW_MAX && col < COL_MAX),
{
    match w.write_boolean_with_format(row, col, b, f) {
        Ok(_) => Ok(()),
        Err(e) => Err(e),
    }
}

/// Relies on `Worksheet::write_formula` / `store_formula`: succeeds exactly
/// when the position is in bounds (a formula with a dynamic function is
/// stored as a one-cell dynamic array formula over the same position).
#[verifier::external_body]
pub(crate) fn ws_write_formula(w: &mut rust_xlsxwriter::Worksheet, row: u32, col: u16, formula: &str) -> (r: Result<(), rust_xlsxwriter::XlsxError>)
    ensures
        r is Ok ==> ws_writes(*final(w)) == ws_writes(*old(w)).push(SinkWrite::Formula { row, col, formula: formula@, formatted: false }),
        r is Err ==> ws_writes(*final(w)) == ws_writes(*old(w)),
        ws_table_ranges(*final(w)) == ws_table_ranges(*old(w)),
        ws_tables_clean(*old(w)) ==> ws_tables_clean(*final(w)),
        r is Ok <==> (row < ROW_MAX && col < COL_MAX),
{
    match w.write_formula(row, col, formula) {
        Ok(_) => Ok(()),
        Err(e) => Err(e),
    }
}

/// Relies on `Worksheet::write_formula_with_format`: succeeds exactly when
/// the position is in bounds.
#[verifier::external_body]
pub(crate) fn ws_write_formula_fmt(w: &mut rust_xlsxwriter::Worksheet, row: u32, col: u16, formula: &str, f: &rust_xlsxwriter::Format) -> (r: Result<(), rust_xlsxwriter::XlsxError>)
    ensures
        r is Ok ==> ws_writes(*final(w)) == ws_writes(*old(w)).push(SinkWrite::Formula { row, col, formula: formula@, formatted: true }),
        r is Err ==> ws_writes(*final(w)) == ws_writes(*old(w)),
        ws_table_ranges(*final(w)) == ws_table_ranges(*old(w)),
        ws_tables_clean(*old(w)) ==> ws_tables_clean(*final(w)),
        r is Ok <==> (row < ROW_MAX && col < COL_MAX),
{
    match w.write_formula_with_format(row, col, formula, f) {
        Ok(_) => Ok(()),
        Err(e) => Err(e),
    }
}

/// Relies on `Worksheet::write_blank` / `store_blank`: succeeds exactly when
/// the position is in bounds.
#[verifier::external_body]
pub(crate) fn ws_write_blank(w: &mut rust_xlsxwriter::Worksheet, row: u32, col: u16, f: &rust_xlsxwriter::Format) -> (r: Result<(), rust_xlsxwriter::XlsxError>)
    ensures
        r is Ok ==> ws_writes(*final(w)) == ws_writes(*old(w)).push(SinkWrite::Blank { row, col }),
        r is Err ==> ws_writes(*final(w)) == ws_writes(*old(w)),
        ws_table_ranges(*final(w)) == ws_table_ranges(*old(w)),
        ws_tables_clean(*old(w)) ==> ws_tables_clean(*final(w)),
        r is Ok <==> (row < ROW_MAX && col < COL_MAX),
{
    match w.write_blank(row, col, f) {
        Ok(_) => Ok(()),
        Err(e) => Err(e),
    }
}

/// Relies on `Worksheet::write_array_formula` / `store_array_formula`:
/// succeeds exactly when both corners are in bounds and the range ordered.
#[verifier::external_body]
pub(crate) fn ws_write_array_formula(w: &mut rust_xlsxwriter::Worksheet, first_row: u32, first_col: u16, last_row: u32, last_col: u16, formula: &str) -> (r: Result<(), rust_xlsxwriter::XlsxError>)
    ensures
        r is Ok ==> ws_writes(*final(w)) == ws_writes(*old(w)).push(SinkWrite::ArrayFormula { first_row, first_col, last_row, last_col, formula: formula@, dynamic: false, formatted: false }),
        r is Err ==> ws_writes(*final(w)) == ws_writes(*old(w)),
        ws_table_ranges(*final(w)) == ws_table_ranges(*old(w)),
        ws_tables_clean(*old(w)) ==> ws_tables_clean(*final(w)),
        r is Ok <==> range_ok(first_row, first_col, last_row, last_col),
{
    match w.write_array_formula(first_row, first_col, last_row, last_col, formula) {
        Ok(_) => Ok(()),
        Err(e) => Err(e),
    }
}

/// Relies on `Worksheet::write_array_formula_with_format`: succeeds exactly
/// when both corners are in bounds and the range ordered.
#[verifier::external_body]
pub(crate) fn ws_write_array_formula_fmt(w: &mut rust_xlsxwriter::Worksheet, first_row: u32, first_col: u16, last_row: u32, last_col: u16, formula: &str, f: &rust_xlsxwriter::Format) -> (r: Result<(), rust_xlsxwriter::XlsxError>)
    ensures
        r is Ok ==> ws_writes(*final(w)) == ws_writes(*old(w)).push(SinkWrite::ArrayFormula { first_row, first_col, last_row, last_col, formula: formula@, dynamic: false, formatted: true }),
        r is Err ==> ws_writes(*final(w)) == ws_writes(*old(w)),
        ws_table_ranges(*final(w)) == ws_table_ranges(*old(w)),
        ws_tables_clean(*old(w)) ==> ws_tables_clean(*final(w)),
        r is Ok <==> range_ok(first_row, first_col, last_row, last_col),
{
    match w.write_array_formula_with_format(first_row, first_col, last_row, last_col, formula, f) {
        Ok(_) => Ok(()),
        Err(e) => Err(e),
    }
}

/// Relies on `Worksheet::write_dynamic_array_formula`: succeeds exactly when
/// both corners are in bounds and the range ordered.
#[verifier::external_body]
pub(crate) fn ws_write_dynamic_array_formula(w: &mut rust_xlsxwriter::Worksheet, first_row: u32, first_col: u16, last_row: u32, last_col: u16, formula: &str) -> (r: Result<(), rust_xlsxwriter::XlsxError>)
    ensures
        r is Ok ==> ws_writes(*final(w)) == ws_writes(*old(w)).push(SinkWrite::ArrayFormula { first_row, first_col, last_row, last_col, formula: formula@, dynamic: true, formatted: false }),
        r is Err ==> ws_writes(*final(w)) == ws_writes(*old(w)),
        ws_table_ranges(*final(w)) == ws_table_ranges(*old(w)),
        ws_tables_clean(*old(w)) ==> ws_tables_clean(*final(w)),
        r is Ok <==> range_ok(first_row, first_col, last_row, last_col),
{
    match w.write_dynamic_array_formula(first_row, first_col, last_row, last_col, formula) {
        Ok(_) => Ok(()),
        Err(e) => Err(e),
    }
}

/// Relies on `Worksheet::write_dynamic_array_formula_with_format`: succeeds
/// exactly when both corners are in bounds and the range ordered.
#[verifier::external_body]
pub(crate) fn ws_write_dynamic_array_formula_fmt(w: &mut rust_xlsxwriter::Worksheet, first_row: u32, first_col: u16, last_row: u32, last_col: u16, formula: &str, f: &rust_xlsxwriter::Format) -> (r: Result<(), rust_xlsxwriter::XlsxError>)
    ensures
        r is Ok ==> ws_writes(*final(w)) == ws_writes(*old(w)).push(SinkWrite::ArrayFormula { first_row, first_col, last_row, last_col, formula: formula@, dynamic: true, formatted: true }),
        r is Err ==> ws_writes(*final(w)) == ws_writes(*old(w)),
        ws_table_ranges(*final(w)) == ws_table_ranges(*old(w)),
        ws_tables_clean(*old(w)) ==> ws_tables_clean(*final(w)),
        r is Ok <==> range_ok(first_row, first_col, last_row, last_col),
{
    match w.write_dynamic_array_formula_with_format(first_row, first_col, last_row, last_col, formula, f) {
        Ok(_) => Ok(()),
        Err(e) => Err(e),
    }
}

/// Relies on `Worksheet::add_table` with a default `Table` (no user columns,
/// no name, optional header row). On a clean worksheet the call succeeds
/// exactly when both corners are in bounds, the range is ordered, a shown
/// header row leaves at least one data row, and no cell of the range
/// belongs to a previously added table (the sink walks the range against
/// its table-cell registry and rejects the first collision). The default
/// column names are distinct, so column initialization cannot fail. A
/// successful call records the range; a failed one may leave the registry
/// dirty. The cleanliness precondition is load-bearing: on a dirty
/// worksheet a later `add_table` can hit a registry cell whose range index
/// was never pushed and panic on its lookup, so that state is excluded
/// rather than described.
#[verifier::external_body]
pub(crate) fn ws_add_table(w: &mut rust_xlsxwriter::Worksheet, first_row: u32, first_col: u16, last_row: u32, last_col: u16, header: bool) -> (r: Result<(), rust_xlsxwriter::XlsxError>)
    requires
        ws_tables_clean(*old(w)),
    ensures
        r is Ok ==> ws_writes(*final(w)) == ws_writes(*old(w)).push(SinkWrite::Table { first_row, first_col, last_row, last_col, header }),
        r is Err ==> ws_writes(*final(w)) == ws_writes(*old(w)),
        r is Ok <==> (range_ok(first_row, first_col, last_row, last_col)
            && (header ==> first_row < last_row)
            && range_free(ws_table_ranges(*old(w)), first_row, first_col, last_row, last_col)),
        r is Ok ==> ws_table_ranges(*final(w)) == ws_table_ranges(*old(w)).push(
            (first_row, first_col, last_row, last_col),
        ),
        r is Ok ==> ws_tables_clean(*final(w)),
{
    let table = rust_xlsxwriter::Table::new().set_header_row(header);
    match w.add_table(first_row, first_col, last_row, last_col, &table) {
        Ok(_) => Ok(()),
        Err(e) => Err(e),
    }
}

/// Relies on `Format::new`: a fresh default format.
#[verifier::external_body]
pub(crate) fn fmt_new() -> rust_xlsxwriter::Format {
    rust_xlsxwriter::Format::new()
}

/// Relies on `Format::set_bold`.
#[verifier::external_body]
pub(crate) fn fmt_bold(f: rust_xlsxwriter::Format) -> rust_xlsxwriter::Format {
    f.set_bold()
}

/// Relies on `Format::set_italic`.
#[verifier::external_body]
pub(crate) fn fmt_italic(f: rust_xlsxwriter::Format) -> rust_xlsxwriter::Format {
    f.set_italic()
}

/// Relies on `Format::set_font_color`, with `Color::from(u32)` giving an
/// RGB color.
#[verifier::external_body]
pub(crate) fn fmt_font_color(f: rust_xlsxwriter::Format, rgb: u32) -> rust_xlsxwriter::Format {
    f.set_font_color(rgb)
}

/// Relies on `Format::set_background_color`, with `Color::from(u32)` giving
/// an RGB color.
#[verifier::external_body]
pub(crate) fn fmt_background_color(f: rust_xlsxwriter::Format, rgb: u32) -> rust_xlsxwriter::Format {
    f.set_background_color(rgb)
}

/// Relies on `Format::set_num_format`.
#[verifier::external_body]
pub(crate) fn fmt_num_format(f: rust_xlsxwriter::Format, s: &str) -> rust_xlsxwriter::Format {
    f.set_num_format(s)
}

/// Relies on `Worksheet::add_conditional_format` with a
/// `ConditionalFormatCell` whose rule is `GreaterThan(v)`: the rule is set,
/// so validation passes and the call succeeds exactly when the range is in
/// bounds and ordered.
#[verifier::external_body]
pub(crate) fn ws_add_cf_cell_gt(w: &mut rust_xlsxwriter::Worksheet, first_row: u32, first_col: u16, last_row: u32, last_col: u16, v: i32, stop: bool, f: &rust_xlsxwriter::Format) -> (r: Result<(), rust_xlsxwriter::XlsxError>)
    ensures
        r is Ok ==> ws_writes(*final(w)) == ws_writes(*old(w)).push(SinkWrite::CondFormat { first_row, first_col, last_row, last_col, rule: CfRuleView::CellCompare { op: CfCellOp::GreaterThan, value: v }, stop_if_true: stop }),
        r is Err ==> ws_writes(*final(w)) == ws_writes(*old(w)),
        ws_table_ranges(*final(w)) == ws_table_ranges(*old(w)),
        ws_tables_clean(*old(w)) ==> ws_tables_clean(*final(w)),
        r is Ok <==> range_ok(first_row, first_col, last_row, last_col),
{
    let cf = rust_xlsxwriter::ConditionalFormatCell::new()
        .set_rule(rust_xlsxwriter::ConditionalFormatCellRule::GreaterThan(v))
        .set_format(f)
        .set_stop_if_true(stop);
    match w.add_conditional_format(first_row, first_col, last_row, last_col, &cf) {
        Ok(_) => Ok(()),
        Err(e) => Err(e),
    }
}

/// Relies on `add_conditional_format` with a `ConditionalFormatCell` rule
/// `LessThan(v)`; succeeds exactly when the range is in bounds and ordered.
#[verifier::external_body]
pub(crate) fn ws_add_cf_cell_lt(w: &mut rust_xlsxwriter::Worksheet, first_row: u32, first_col: u16, last_row: u32, last_col: u16, v: i32, stop: bool, f: &rust_xlsxwriter::Format) -> (r: Result<(), rust_xlsxwriter::XlsxError>)
    ensures
        r is Ok ==> ws_writes(*final(w)) == ws_writes(*old(w)).push(SinkWrite::CondFormat { first_row, first_col, last_row, last_col, rule: CfRuleView::CellCompare { op: CfCellOp::LessThan, value: v }, stop_if_true: stop }),
        r is Err ==> ws_writes(*final(w)) == ws_writes(*old(w)),
        ws_table_ranges(*final(w)) == ws_table_ranges(*old(w)),
        ws_tables_clean(*old(w)) ==> ws_tables_clean(*final(w)),
        r is Ok <==> range_ok(first_row, first_col, last_row, last_col),
{
    let cf = rust_xlsxwriter::ConditionalFormatCell::new()
        .set_rule(rust_xlsxwriter::ConditionalFormatCellRule::LessThan(v))
        .set_format(f)
        .set_stop_if_true(stop);
    match w.add_conditional_format(first_row, first_col, last_row, last_col, &cf) {
        Ok(_) => Ok(()),
        Err(e) => Err(e),
    }
}

/// Relies on `add_conditional_format` with a `ConditionalFormatCell` rule
/// `EqualTo(v)`; succeeds exactly when the range is in bounds and ordered.
#[verifier::external_body]
pub(crate) fn ws_add_cf_cell_eq(w: &mut rust_xlsxwriter::Worksheet, first_row: u32, first_col: u16, last_row: u32, last_col: u16, v: i32, stop: bool, f: &rust_xlsxwriter::Format) -> (r: Result<(), rust_xlsxwriter::XlsxError>)
    ensures
        r is Ok ==> ws_writes(*final(w)) == ws_writes(*old(w)).push(SinkWrite::CondFormat { first_row, first_col, last_row, last_col, rule: CfRuleView::CellCompare { op: CfCellOp::EqualTo, value: v }, stop_if_true: stop }),
        r is Err ==> ws_writes(*final(w)) == ws_writes(*old(w)),
        ws_table_ranges(*final(w)) == ws_table_ranges(*old(w)),
        ws_tables_clean(*old(w)) ==> ws_tables_clean(*final(w)),
        r is Ok <==> range_ok(first_row, first_col, last_row, last_col),
{
    let cf = rust_xlsxwriter::ConditionalFormatCell::new()
        .set_rule(rust_xlsxwriter::ConditionalFormatCellRule::EqualTo(v))
        .set_format(f)
        .set_stop_if_true(stop);
    match w.add_conditional_format(first_row, first_col, last_row, last_col, &cf) {
        Ok(_) => Ok(()),
        Err(e) => Err(e),
    }
}

/// Relies on `add_conditional_format` with a `ConditionalFormatCell` rule
/// `Between(lo, hi)`; succeeds exactly when the range is in bounds and
/// ordered.
#[verifier::external_body]
pub(crate) fn ws_add_cf_cell_between(w: &mut rust_xlsxwriter::Worksheet, first_row: u32, first_col: u16, last_row: u32, last_col: u16, lo: i32, hi: i32, stop: bool, f: &rust_xlsxwriter::Format) -> (r: Result<(), rust_xlsxwriter::XlsxError>)
    ensures
        r is Ok ==> ws_writes(*final(w)) == ws_writes(*old(w)).push(SinkWrite::CondFormat { first_row, first_col, last_row, last_col, rule: CfRuleView::CellBetween { low: lo, high: hi }, stop_if_true: stop }),
        r is Err ==> ws_writes(*final(w)) == ws_writes(*old(w)),
        ws_table_ranges(*final(w)) == ws_table_ranges(*old(w)),
        ws_tables_clean(*old(w)) ==> ws_tables_clean(*final(w)),
        r is Ok <==> range_ok(first_row, first_col, last_row, last_col),
{
    let cf = rust_xlsxwriter::ConditionalFormatCell::new()
        .set_rule(rust_xlsxwriter::ConditionalFormatCellRule::Between(lo, hi))
        .set_format(f)
        .set_stop_if_true(stop);
    match w.add_conditional_format(first_row, first_col, last_row, last_col, &cf) {
        Ok(_) => Ok(()),
        Err(e) => Err(e),
    }
}

/// Relies on `add_conditional_format` with a `ConditionalFormatFormula`:
/// `Formula::new` strips one leading `{`, one leading `=` and one trailing
/// `}`, and the rule's validation wants the stripped text nonempty, so the
/// call succeeds exactly when the range is in bounds and ordered and
/// something is left after stripping.
#[verifier::external_body]
pub(crate) fn ws_add_cf_formula(w: &mut rust_xlsxwriter::Worksheet, first_row: u32, first_col: u16, last_row: u32, last_col: u16, formula: &str, stop: bool, f: &rust_xlsxwriter::Format) -> (r: Result<(), rust_xlsxwriter::XlsxError>)
    ensures
        r is Ok ==> ws_writes(*final(w)) == ws_writes(*old(w)).push(SinkWrite::CondFormat { first_row, first_col, last_row, last_col, rule: CfRuleView::FormulaRule { formula: formula@ }, stop_if_true: stop }),
        r is Err ==> ws_writes(*final(w)) == ws_writes(*old(w)),
        ws_table_ranges(*final(w)) == ws_table_ranges(*old(w)),
        ws_tables_clean(*old(w)) ==> ws_tables_clean(*final(w)),
        r is Ok <==> (range_ok(first_row, first_col, last_row, last_col) && crate::cond_format::spec_strip_formula_marks(formula@).len() > 0),
{
    let cf = rust_xlsxwriter::ConditionalFormatFormula::new()
        .set_rule(formula)
        .set_format(f)
        .set_stop_if_true(stop);
    match w.add_conditional_format(first_row, first_col, last_row, last_col, &cf) {
        Ok(_) => Ok(()),
        Err(e) => Err(e),
    }
}

/// Relies on `add_conditional_format` with a `ConditionalFormatTop` rule
/// `Top(v)` (or `Bottom(v)`): its validation wants `v` in `1..=1000`, so the
/// call succeeds exactly when the range is valid and `v` in that range.
#[verifier::external_body]
pub(crate) fn ws_add_cf_top(w: &mut rust_xlsxwriter::Worksheet, first_row: u32, first_col: u16, last_row: u32, last_col: u16, bottom: bool, v: u16, stop: bool, f: &rust_xlsxwriter::Format) -> (r: Result<(), rust_xlsxwriter::XlsxError>)
    ensures
        r is Ok ==> ws_writes(*final(w)) == ws_writes(*old(w)).push(SinkWrite::CondFormat { first_row, first_col, last_row, last_col, rule: CfRuleView::TopBottom { bottom, percent: false, value: v }, stop_if_true: stop }),
        r is Err ==> ws_writes(*final(w)) == ws_writes(*old(w)),
        ws_table_ranges(*final(w)) == ws_table_ranges(*old(w)),
        ws_tables_clean(*old(w)) ==> ws_tables_clean(*final(w)),
        r is Ok <==> (range_ok(first_row, first_col, last_row, last_col) && 1 <= v <= 1000),
{
    let rule = if bottom {
        rust_xlsxwriter::ConditionalFormatTopRule::Bottom(v)
    } else {
        rust_xlsxwriter::ConditionalFormatTopRule::Top(v)
    };
    let cf = rust_xlsxwriter::ConditionalFormatTop::new().set_rule(rule).set_format(f)
        .set_stop_if_true(stop);
    match w.add_conditional_format(first_row, first_col, last_row, last_col, &cf) {
        Ok(_) => Ok(()),
        Err(e) => Err(e),
    }
}

/// Relies on `add_conditional_format` with a `ConditionalFormatTop` rule
/// `TopPercent(v)` (or `BottomPercent(v)`): its validation wants `v` in
/// `1..=100`, so the call succeeds exactly when the range is valid and `v`
/// in that range.
#[verifier::external_body]
pub(crate) fn ws_add_cf_top_percent(w: &mut rust_xlsxwriter::Worksheet, first_row: u32, first_col: u16, last_row: u32, last_col: u16, bottom: bool, v: u16, stop: bool, f: &rust_xlsxwriter::Format) -> (r: Result<(), rust_xlsxwriter::XlsxError>)
    ensures
        r is Ok ==> ws_writes(*final(w)) == ws_writes(*old(w)).push(SinkWrite::CondFormat { first_row, first_col, last_row, last_col, rule: CfRuleView::TopBottom { bottom, percent: true, value: v }, stop_if_true: stop }),
        r is Err ==> ws_writes(*final(w)) == ws_writes(*old(w)),
        ws_table_ranges(*final(w)) == ws_table_ranges(*old(w)),
        ws_tables_clean(*old(w)) ==> ws_tables_clean(*final(w)),
        r is Ok <==> (range_ok(first_row, first_col, last_row, last_col) && 1 <= v <= 100),
{
    let rule = if bottom {
        rust_xlsxwriter::ConditionalFormatTopRule::BottomPercent(v)
    } else {
        rust_xlsxwriter::ConditionalFormatTopRule::TopPercent(v)
    };
    let cf = rust_xlsxwriter::ConditionalFormatTop::new().set_rule(rule).set_format(f)
        .set_stop_if_true(stop);
    match w.add_conditional_format(first_row, first_col, last_row, last_col, &cf) {
        Ok(_) => Ok(()),
        Err(e) => Err(e),
    }
}

/// Relies on `add_conditional_format` with a `ConditionalFormatDuplicate`,
/// inverted for unique values; its validation always passes, so the call
/// succeeds exactly when the range is in bounds and ordered.
#[verifier::external_body]
pub(crate) fn ws_add_cf_duplicate(w: &mut rust_xlsxwriter::Worksheet, first_row: u32, first_col: u16, last_row: u32, last_col: u16, unique: bool, stop: bool, f: &rust_xlsxwriter::Format) -> (r: Result<(), rust_xlsxwriter::XlsxError>)
    ensures
        r is Ok ==> ws_writes(*final(w)) == ws_writes(*old(w)).push(SinkWrite::CondFormat { first_row, first_col, last_row, last_col, rule: CfRuleView::DuplicateRule { unique }, stop_if_true: stop }),
        r is Err ==> ws_writes(*final(w)) == ws_writes(*old(w)),
        ws_table_ranges(*final(w)) == ws_table_ranges(*old(w)),
        ws_tables_clean(*old(w)) ==> ws_tables_clean(*final(w)),
        r is Ok <==> range_ok(first_row, first_col, last_row, last_col),
{
    let mut cf = rust_xlsxwriter::ConditionalFormatDuplicate::new()
        .set_format(f)
        .set_stop_if_true(stop);
    if unique {
        cf = cf.invert();
    }
    match w.add_conditional_format(first_row, first_col, last_row, last_col, &cf) {
        Ok(_) => Ok(()),
        Err(e) => Err(e),
    }
}

/// Relies on `add_conditional_format` with a `ConditionalFormatText` rule
/// `Contains(text)`: the rule is set, so the call succeeds exactly when the
/// range is in bounds and ordered.
#[verifier::external_body]
pub(crate) fn ws_add_cf_text_contains(w: &mut rust_xlsxwriter::Worksheet, first_row: u32, first_col: u16, last_row: u32, last_col: u16, text: &str, stop: bool, f: &rust_xlsxwriter::Format) -> (r: Result<(), rust_xlsxwriter::XlsxError>)
    ensures
        r is Ok ==> ws_writes(*final(w)) == ws_writes(*old(w)).push(SinkWrite::CondFormat { first_row, first_col, last_row, last_col, rule: CfRuleView::TextContains { text: text@ }, stop_if_true: stop }),
        r is Err ==> ws_writes(*final(w)) == ws_writes(*old(w)),
        ws_table_ranges(*final(w)) == ws_table_ranges(*old(w)),
        ws_tables_clean(*old(w)) ==> ws_tables_clean(*final(w)),
        r is Ok <==> range_ok(first_row, first_col, last_row, last_col),
{
    let cf = rust_xlsxwriter::ConditionalFormatText::new()
        .set_rule(rust_xlsxwriter::ConditionalFormatTextRule::Contains(text.to_string()))
        .set_format(f)
        .set_stop_if_true(stop);
    match w.add_conditional_format(first_row, first_col, last_row, last_col, &cf) {
        Ok(_) => Ok(()),
        Err(e) => Err(e),
    }
}

/// Relies on `add_conditional_format` with a `ConditionalFormatDate` rule
/// `Yesterday`; succeeds exactly when the range is in bounds and ordered.
#[verifier::external_body]
pub(crate) fn ws_add_cf_date_yesterday(w: &mut rust_xlsxwriter::Worksheet, first_row: u32, first_col: u16, last_row: u32, last_col: u16, stop: bool, f: &rust_xlsxwriter::Format) -> (r: Result<(), rust_xlsxwriter::XlsxError>)
    ensures
        r is Ok ==> ws_writes(*final(w)) == ws_writes(*old(w)).push(SinkWrite::CondFormat { first_row, first_col, last_row, last_col, rule: CfRuleView::DateRule { period: CfDatePeriod::Yesterday }, stop_if_true: stop }),
        r is Err ==> ws_writes(*final(w)) == ws_writes(*old(w)),
        ws_table_ranges(*final(w)) == ws_table_ranges(*old(w)),
        ws_tables_clean(*old(w)) ==> ws_tables_clean(*final(w)),
        r is Ok <==> range_ok(first_row, first_col, last_row, last_col),
{
    let cf = rust_xlsxwriter::ConditionalFormatDate::new()
        .set_rule(rust_xlsxwriter::ConditionalFormatDateRule::Yesterday)
        .set_format(f)
        .set_stop_if_true(stop);
    match w.add_conditional_format(first_row, first_col, last_row, last_col, &cf) {
        Ok(_) => Ok(()),
        Err(e) => Err(e),
    }
}

/// Relies on `add_conditional_format` with a `ConditionalFormatDate` rule
/// `Today`; succeeds exactly when the range is in bounds and ordered.
#[verifier::external_body]
pub(crate) fn ws_add_cf_date_today(w: &mut rust_xlsxwriter::Worksheet, first_row: u32, first_col: u16, last_row: u32, last_col: u16, stop: bool, f: &rust_xlsxwriter::Format) -> (r: Result<(), rust_xlsxwriter::XlsxError>)
    ensures
        r is Ok ==> ws_writes(*final(w)) == ws_writes(*old(w)).push(SinkWrite::CondFormat { first_row, first_col, last_row, last_col, rule: CfRuleView::DateRule { period: CfDatePeriod::Today }, stop_if_true: stop }),
        r is Err ==> ws_writes(*final(w)) == ws_writes(*old(w)),
        ws_table_ranges(*final(w)) == ws_table_ranges(*old(w)),
        ws_tables_clean(*old(w)) ==> ws_tables_clean(*final(w)),
        r is Ok <==> range_ok(first_row, first_col, last_row, last_col),
{
    let cf = rust_xlsxwriter::ConditionalFormatDate::new()
        .set_rule(rust_xlsxwriter::ConditionalFormatDateRule::Today)
        .set_format(f)
        .set_stop_if_true(stop);
    match w.add_conditional_format(first_row, first_col, last_row, last_col, &cf) {
        Ok(_) => Ok(()),
        Err(e) => Err(e),
    }
}

/// Relies on `add_conditional_format` with a `ConditionalFormatDate` rule
/// `Tomorrow`; succeeds exactly when the range is in bounds and ordered.
#[verifier::external_body]
pub(crate) fn ws_add_cf_date_tomorrow(w: &mut rust_xlsxwriter::Worksheet, first_row: u32, first_col: u16, last_row: u32, last_col: u16, stop: bool, f: &rust_xlsxwriter::Format) -> (r: Result<(), rust_xlsxwriter::XlsxError>)
    ensures
        r is Ok ==> ws_writes(*final(w)) == ws_writes(*old(w)).push(SinkWrite::CondFormat { first_row, first_col, last_row, last_col, rule: CfRuleView::DateRule { period: CfDatePeriod::Tomorrow }, stop_if_true: stop }),
        r is Err ==> ws_writes(*final(w)) == ws_writes(*old(w)),
        ws_table_ranges(*final(w)) == ws_table_ranges(*old(w)),
        ws_tables_clean(*old(w)) ==> ws_tables_clean(*final(w)),
        r is Ok <==> range_ok(first_row, first_col, last_row, last_col),
{
    let cf = rust_xlsxwriter::ConditionalFormatDate::new()
        .set_rule(rust_xlsxwriter::ConditionalFormatDateRule::Tomorrow)
        .set_format(f)
        .set_stop_if_true(stop);
    match w.add_conditional_format(first_row, first_col, last_row, last_col, &cf) {
        Ok(_) => Ok(()),
        Err(e) => Err(e),
    }
}

/// Relies on `add_conditional_format` with a `ConditionalFormatBlank`,
/// inverted for non-blank cells; succeeds exactly when the range is in
/// bounds and ordered.
#[verifier::external_body]
pub(crate) fn ws_add_cf_blank(w: &mut rust_xlsxwriter::Worksheet, first_row: u32, first_col: u16, last_row: u32, last_col: u16, negated: bool, stop: bool, f: &rust_xlsxwriter::Format) -> (r: Result<(), rust_xlsxwriter::XlsxError>)
    ensures
        r is Ok ==> ws_writes(*final(w)) == ws_writes(*old(w)).push(SinkWrite::CondFormat { first_row, first_col, last_row, last_col, rule: CfRuleView::BlankRule { negated }, stop_if_true: stop }),
        r is Err ==> ws_writes(*final(w)) == ws_writes(*old(w)),
        ws_table_ranges(*final(w)) == ws_table_ranges(*old(w)),
        ws_tables_clean(*old(w)) ==> ws_tables_clean(*final(w)),
        r is Ok <==> range_ok(first_row, first_col, last_row, last_col),
{
    let mut cf = rust_xlsxwriter::ConditionalFormatBlank::new()
        .set_format(f)
        .set_stop_if_true(stop);
    if negated {
        cf = cf.invert();
    }
    match w.add_conditional_format(first_row, first_col, last_row, last_col, &cf) {
        Ok(_) => Ok(()),
        Err(e) => Err(e),
    }
}

/// Relies on `add_conditional_format` with a `ConditionalFormatError`,
/// inverted for non-error cells; succeeds exactly when the range is in
/// bounds and ordered.
#[verifier::external_body]
pub(crate) fn ws_add_cf_error(w: &mut rust_xlsxwriter::Worksheet, first_row: u32, first_col: u16, last_row: u32, last_col: u16, negated: bool, stop: bool, f: &rust_xlsxwriter::Format) -> (r: Result<(), rust_xlsxwriter::XlsxError>)
    ensures
        r is Ok ==> ws_writes(*final(w)) == ws_writes(*old(w)).push(SinkWrite::CondFormat { first_row, first_col, last_row, last_col, rule: CfRuleView::ErrorRule { negated }, stop_if_true: stop }),
        r is Err ==> ws_writes(*final(w)) == ws_writes(*old(w)),
        ws_table_ranges(*final(w)) == ws_table_ranges(*old(w)),
        ws_tables_clean(*old(w)) ==> ws_tables_clean(*final(w)),
        r is Ok <==> range_ok(first_row, first_col, last_row, last_col),
{
    let mut cf = rust_xlsxwriter::ConditionalFormatError::new()
        .set_format(f)
        .set_stop_if_true(stop);
    if negated {
        cf = cf.invert();
    }
    match w.add_conditional_format(first_row, first_col, last_row, last_col, &cf) {
        Ok(_) => Ok(()),
        Err(e) => Err(e),
    }
}

/// Relies on `add_conditional_format` with a default
/// `ConditionalFormat2ColorScale`; its validation always passes, so the call
/// succeeds exactly when the range is in bounds and ordered.
#[verifier::external_body]
pub(crate) fn ws_add_cf_color_scale(w: &mut rust_xlsxwriter::Worksheet, first_row: u32, first_col: u16, last_row: u32, last_col: u16, stop: bool) -> (r: Result<(), rust_xlsxwriter::XlsxError>)
    ensures
        r is Ok ==> ws_writes(*final(w)) == ws_writes(*old(w)).push(SinkWrite::CondFormat { first_row, first_col, last_row, last_col, rule: CfRuleView::ColorScale, stop_if_true: stop }),
        r is Err ==> ws_writes(*final(w)) == ws_writes(*old(w)),
        ws_table_ranges(*final(w)) == ws_table_ranges(*old(w)),
        ws_tables_clean(*old(w)) ==> ws_tables_clean(*final(w)),
        r is Ok <==> range_ok(first_row, first_col, last_row, last_col),
{
    let cf = rust_xlsxwriter::ConditionalFormat2ColorScale::new().set_stop_if_true(stop);
    match w.add_conditional_format(first_row, first_col, last_row, last_col, &cf) {
        Ok(_) => Ok(()),
        Err(e) => Err(e),
    }
}

/// Relies on `add_conditional_format` with a default
/// `ConditionalFormatDataBar`; its validation always passes, so the call
/// succeeds exactly when the range is in bounds and ordered.
#[verifier::external_body]
pub(crate) fn ws_add_cf_data_bar(w: &mut rust_xlsxwriter::Worksheet, first_row: u32, first_col: u16, last_row: u32, last_col: u16, stop: bool) -> (r: Result<(), rust_xlsxwriter::XlsxError>)
    ensures
        r is Ok ==> ws_writes(*final(w)) == ws_writes(*old(w)).push(SinkWrite::CondFormat { first_row, first_col, last_row, last_col, rule: CfRuleView::DataBar, stop_if_true: stop }),
        r is Err ==> ws_writes(*final(w)) == ws_writes(*old(w)),
        ws_table_ranges(*final(w)) == ws_table_ranges(*old(w)),
        ws_tables_clean(*old(w)) ==> ws_tables_clean(*final(w)),
        r is Ok <==> range_ok(first_row, first_col, last_row, last_col),
{
    let cf = rust_xlsxwriter::ConditionalFormatDataBar::new().set_stop_if_true(stop);
    match w.add_conditional_format(first_row, first_col, last_row, last_col, &cf) {
        Ok(_) => Ok(()),
        Err(e) => Err(e),
    }
}

/// Relies on `add_conditional_format` with a `ConditionalFormatIconSet`
/// whose icon type is set (`set_icon_type` installs the matching three
/// default icon rules, so validation passes); succeeds exactly when the
/// range is in bounds and ordered.
#[verifier::external_body]
pub(crate) fn ws_add_cf_icon_set(w: &mut rust_xlsxwriter::Worksheet, first_row: u32, first_col: u16, last_row: u32, last_col: u16, stop: bool) -> (r: Result<(), rust_xlsxwriter::XlsxError>)
    ensures
        r is Ok ==> ws_writes(*final(w)) == ws_writes(*old(w)).push(SinkWrite::CondFormat { first_row, first_col, last_row, last_col, rule: CfRuleView::IconSet, stop_if_true: stop }),
        r is Err ==> ws_writes(*final(w)) == ws_writes(*old(w)),
        ws_table_ranges(*final(w)) == ws_table_ranges(*old(w)),
        ws_tables_clean(*old(w)) ==> ws_tables_clean(*final(w)),
        r is Ok <==> range_ok(first_row, first_col, last_row, last_col),
{
    let cf = rust_xlsxwriter::ConditionalFormatIconSet::new()
        .set_icon_type(rust_xlsxwriter::ConditionalFormatIconType::ThreeTrafficLights)
        .set_stop_if_true(stop);
    match w.add_conditional_format(first_row, first_col, last_row, last_col, &cf) {
        Ok(_) => Ok(()),
        Err(e) => Err(e),
    }
}

} // verus!
