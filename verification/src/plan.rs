//! The emission plan: the exact, ordered sequence of sink writes that a
//! sheet stands for.
//!
//! The writes are materialized as plain values so that the fixed order and
//! the per-feature write-variant selection are stated and checked once, apart
//! from the sink itself. The order is a protocol invariant of the target
//! format: name first, then row overrides, column overrides, conditional
//! formats, array formulas, cells, and tables last; the sink's
//! last-write-wins rule makes swapping two steps change which feature wins on
//! overlapping ranges.

use vstd::prelude::*;
use crate::error::SheetError;
use crate::style::Style;
use crate::cell::{Cell, CellValue};
use crate::array_formula::ArrayFormula;
use crate::cond_format::{CfEntry, CfRule, CfRuleView, view_of_rule};
use crate::table_spec::TableSpec;
use crate::config::{RowColumnConfig, Axis};
use crate::sheet::{Sheet, SheetModel};
use crate::bounds::{ROW_MAX, COL_MAX, TEXT_MAX};

verus! {

/// One write into the worksheet sink.
#[derive(Debug, Clone, PartialEq)]
pub enum EmitOp {
    SetName { name: String },
    RowHeight { row: u32, height: u32 },
    RowFormat { row: u32, format: Style },
    RowHidden { row: u32 },
    ColWidth { col: u16, width: u32 },
    ColFormat { col: u16, format: Style },
    ColHidden { col: u16 },
    CondFormat { first_row: u32, first_col: u16, last_row: u32, last_col: u16, rule: CfRule, format: Option<Style>, stop_if_true: bool },
    StaticFormula { first_row: u32, first_col: u16, last_row: u32, last_col: u16, formula: String },
    StaticFormulaFmt { first_row: u32, first_col: u16, last_row: u32, last_col: u16, formula: String, format: Style },
    DynamicFormula { first_row: u32, first_col: u16, last_row: u32, last_col: u16, formula: String },
    DynamicFormulaFmt { first_row: u32, first_col: u16, last_row: u32, last_col: u16, formula: String, format: Style },
    CellText { row: u32, col: u16, text: String },
    CellTextFmt { row: u32, col: u16, text: String, format: Style },
    CellNumber { row: u32, col: u16, number: i32 },
    CellNumberFmt { row: u32, col: u16, number: i32, format: Style },
    CellBool { row: u32, col: u16, value: bool },
    CellBoolFmt { row: u32, col: u16, value: bool, format: Style },
    CellFormula { row: u32, col: u16, formula: String },
    CellFormulaFmt { row: u32, col: u16, formula: String, format: Style },
    CellBlank { row: u32, col: u16, format: Style },
    TableAdd { first_row: u32, first_col: u16, last_row: u32, last_col: u16, header: bool },
}

/// The ops one overridden index of a row/column span stands for: size
/// first, then the whole-axis format, then the hidden flag.
pub open spec fn spec_index_ops(c: RowColumnConfig, format: Option<Style>, idx: u32) -> Seq<EmitOp> {
    (match c.size {
        Some(s) => if c.axis is Row {
            seq![EmitOp::RowHeight { row: idx, height: s }]
        } else {
            seq![EmitOp::ColWidth { col: idx as u16, width: s }]
        },
        None => Seq::empty(),
    }) + (match format {
        Some(f) => if c.axis is Row {
            seq![EmitOp::RowFormat { row: idx, format: f }]
        } else {
            seq![EmitOp::ColFormat { col: idx as u16, format: f }]
        },
        None => Seq::empty(),
    }) + (if c.hidden {
        if c.axis is Row {
            seq![EmitOp::RowHidden { row: idx }]
        } else {
            seq![EmitOp::ColHidden { col: idx as u16 }]
        }
    } else {
        Seq::empty()
    })
}

/// The ops of a span's tail, from `idx` up to the span's last index.
pub open spec fn spec_span_ops(c: RowColumnConfig, format: Option<Style>, idx: int) -> Seq<EmitOp>
    decreases c.last_index + 1 - idx,
{
    if idx < 0 || idx > c.last_index as int {
        Seq::empty()
    } else {
        spec_index_ops(c, format, idx as u32) + spec_span_ops(c, format, idx + 1)
    }
}

/// One successful write call as the sink's call log records it: the call
/// made and its plain arguments, with strings as character sequences and a
/// supplied format noted by a flag (the format object itself is opaque).
pub ghost enum SinkWrite {
    Name { name: Seq<char> },
    RowHeight { row: u32, height: u32 },
    RowFormat { row: u32 },
    RowHidden { row: u32 },
    ColWidth { col: u16, width: u32 },
    ColFormat { col: u16 },
    ColHidden { col: u16 },
    CondFormat { first_row: u32, first_col: u16, last_row: u32, last_col: u16, rule: CfRuleView, stop_if_true: bool },
    ArrayFormula { first_row: u32, first_col: u16, last_row: u32, last_col: u16, formula: Seq<char>, dynamic: bool, formatted: bool },
    Text { row: u32, col: u16, text: Seq<char>, formatted: bool },
    Number { row: u32, col: u16, number: i32, formatted: bool },
    Boolean { row: u32, col: u16, value: bool, formatted: bool },
    Formula { row: u32, col: u16, formula: Seq<char>, formatted: bool },
    Blank { row: u32, col: u16 },
    Table { first_row: u32, first_col: u16, last_row: u32, last_col: u16, header: bool },
}

/// The sink call a planned write performs, argument for argument.
pub open spec fn write_of_op(op: EmitOp) -> SinkWrite {
    match op {
        EmitOp::SetName { name } => SinkWrite::Name { name: name@ },
        EmitOp::RowHeight { row, height } => SinkWrite::RowHeight { row, height },
        EmitOp::RowFormat { row, format } => SinkWrite::RowFormat { row },
        EmitOp::RowHidden { row } => SinkWrite::RowHidden { row },
        EmitOp::ColWidth { col, width } => SinkWrite::ColWidth { col, width },
        EmitOp::ColFormat { col, format } => SinkWrite::ColFormat { col },
        EmitOp::ColHidden { col } => SinkWrite::ColHidden { col },
        EmitOp::CondFormat { first_row, first_col, last_row, last_col, rule, format, stop_if_true } =>
            SinkWrite::CondFormat { first_row, first_col, last_row, last_col, rule: view_of_rule(rule), stop_if_true },
        EmitOp::StaticFormula { first_row, first_col, last_row, last_col, formula } =>
            SinkWrite::ArrayFormula { first_row, first_col, last_row, last_col, formula: formula@, dynamic: false, formatted: false },
        EmitOp::StaticFormulaFmt { first_row, first_col, last_row, last_col, formula, format } =>
            SinkWrite::ArrayFormula { first_row, first_col, last_row, last_col, formula: formula@, dynamic: false, formatted: true },
        EmitOp::DynamicFormula { first_row, first_col, last_row, last_col, formula } =>
            SinkWrite::ArrayFormula { first_row, first_col, last_row, last_col, formula: formula@, dynamic: true, formatted: false },
        EmitOp::DynamicFormulaFmt { first_row, first_col, last_row, last_col, formula, format } =>
            SinkWrite::ArrayFormula { first_row, first_col, last_row, last_col, formula: formula@, dynamic: true, formatted: true },
        EmitOp::CellText { row, col, text } => SinkWrite::Text { row, col, text: text@, formatted: false },
        EmitOp::CellTextFmt { row, col, text, format } => SinkWrite::Text { row, col, text: text@, formatted: true },
        EmitOp::CellNumber { row, col, number } => SinkWrite::Number { row, col, number, formatted: false },
        EmitOp::CellNumberFmt { row, col, number, format } => SinkWrite::Number { row, col, number, formatted: true },
        EmitOp::CellBool { row, col, value } => SinkWrite::Boolean { row, col, value, formatted: false },
        EmitOp::CellBoolFmt { row, col, value, format } => SinkWrite::Boolean { row, col, value, formatted: true },
        EmitOp::CellFormula { row, col, formula } => SinkWrite::Formula { row, col, formula: formula@, formatted: false },
        EmitOp::CellFormulaFmt { row, col, formula, format } => SinkWrite::Formula { row, col, formula: formula@, formatted: true },
        EmitOp::CellBlank { row, col, format } => SinkWrite::Blank { row, col },
        EmitOp::TableAdd { first_row, first_col, last_row, last_col, header } =>
            SinkWrite::Table { first_row, first_col, last_row, last_col, header },
    }
}

/// The ordered sink calls a whole plan performs.
pub open spec fn writes_of_ops(ops: Seq<EmitOp>) -> Seq<SinkWrite> {
    Seq::new(ops.len(), |i: int| write_of_op(ops[i]))
}

/// The ops a row/column override stands for, once its style is resolved:
/// every index of its span in turn.
pub open spec fn spec_config_ops_with(c: RowColumnConfig, format: Option<Style>) -> Seq<EmitOp> {
    spec_span_ops(c, format, c.first_index as int)
}

/// Resolves a row/column override against the style table.
pub open spec fn spec_config_ops(c: RowColumnConfig, styles: Seq<Style>) -> Result<Seq<EmitOp>, SheetError> {
    match c.style {
        Some(k) => if k < styles.len() {
            Ok(spec_config_ops_with(c, Some(styles[k as int])))
        } else {
            Err(SheetError::DanglingReference)
        },
        None => Ok(spec_config_ops_with(c, None)),
    }
}

/// The single op an array formula stands for.
///
/// The two orthogonal booleans `dynamic` and `style.is_some()` select one of
/// the sink's four write variants; this is the one place that selection is
/// made.
pub open spec fn spec_af_op(af: ArrayFormula, styles: Seq<Style>) -> Result<EmitOp, SheetError> {
    match af.style {
        Some(k) => if k < styles.len() {
            Ok(
                if af.dynamic {
                    EmitOp::DynamicFormulaFmt {
                        first_row: af.first_row,
                        first_col: af.first_col,
                        last_row: af.last_row,
                        last_col: af.last_col,
                        formula: af.formula,
                        format: styles[k as int],
                    }
                } else {
                    EmitOp::StaticFormulaFmt {
                        first_row: af.first_row,
                        first_col: af.first_col,
                        last_row: af.last_row,
                        last_col: af.last_col,
                        formula: af.formula,
                        format: styles[k as int],
                    }
                },
            )
        } else {
            Err(SheetError::DanglingReference)
        },
        None => Ok(
            if af.dynamic {
                EmitOp::DynamicFormula {
                    first_row: af.first_row,
                    first_col: af.first_col,
                    last_row: af.last_row,
                    last_col: af.last_col,
                    formula: af.formula,
                }
            } else {
                EmitOp::StaticFormula {
                    first_row: af.first_row,
                    first_col: af.first_col,
                    last_row: af.last_row,
                    last_col: af.last_col,
                    formula: af.formula,
                }
            },
        ),
    }
}

/// The ops a cell stands for once its style is resolved. A blank cell with
/// no style writes nothing: the sink stores nothing for it.
pub open spec fn spec_cell_ops_with(c: Cell, format: Option<Style>) -> Seq<EmitOp> {
    match c.value {
        CellValue::Text(t) => match format {
            Some(f) => seq![EmitOp::CellTextFmt { row: c.row, col: c.col, text: t, format: f }],
            None => seq![EmitOp::CellText { row: c.row, col: c.col, text: t }],
        },
        CellValue::Number(n) => match format {
            Some(f) => seq![EmitOp::CellNumberFmt { row: c.row, col: c.col, number: n, format: f }],
            None => seq![EmitOp::CellNumber { row: c.row, col: c.col, number: n }],
        },
        CellValue::Boolean(b) => match format {
            Some(f) => seq![EmitOp::CellBoolFmt { row: c.row, col: c.col, value: b, format: f }],
            None => seq![EmitOp::CellBool { row: c.row, col: c.col, value: b }],
        },
        CellValue::Formula(x) => match format {
            Some(f) => seq![EmitOp::CellFormulaFmt { row: c.row, col: c.col, formula: x, format: f }],
            None => seq![EmitOp::CellFormula { row: c.row, col: c.col, formula: x }],
        },
        CellValue::Blank => match format {
            Some(f) => seq![EmitOp::CellBlank { row: c.row, col: c.col, format: f }],
            None => Seq::empty(),
        },
    }
}

/// Resolves a cell against the style table.
pub open spec fn spec_cell_ops1(c: Cell, styles: Seq<Style>) -> Result<Seq<EmitOp>, SheetError> {
    match c.style {
        Some(k) => if k < styles.len() {
            Ok(spec_cell_ops_with(c, Some(styles[k as int])))
        } else {
            Err(SheetError::DanglingReference)
        },
        None => Ok(spec_cell_ops_with(c, None)),
    }
}

/// The single op a conditional-format entry stands for: both its rule key
/// and its optional style key must resolve.
pub open spec fn spec_cf_op(e: CfEntry, styles: Seq<Style>, rules: Seq<CfRule>) -> Result<EmitOp, SheetError> {
    if e.rule >= rules.len() {
        Err(SheetError::DanglingReference)
    } else {
        match e.style {
            Some(k) => if k < styles.len() {
                Ok(EmitOp::CondFormat {
                    first_row: e.first_row,
                    first_col: e.first_col,
                    last_row: e.last_row,
                    last_col: e.last_col,
                    rule: rules[e.rule as int],
                    format: Some(styles[k as int]),
                    stop_if_true: e.stop_if_true,
                })
            } else {
                Err(SheetError::DanglingReference)
            },
            None => Ok(EmitOp::CondFormat {
                first_row: e.first_row,
                first_col: e.first_col,
                last_row: e.last_row,
                last_col: e.last_col,
                rule: rules[e.rule as int],
                format: None,
                stop_if_true: e.stop_if_true,
            }),
        }
    }
}

/// The single op a table stands for.
pub open spec fn spec_table_op(t: TableSpec) -> EmitOp {
    EmitOp::TableAdd {
        first_row: t.first_row,
        first_col: t.first_col,
        last_row: t.last_row,
        last_col: t.last_col,
        header: t.header,
    }
}

/// Whether two rectangular table ranges share any cell.
pub open spec fn tables_overlap(a: TableSpec, b: TableSpec) -> bool {
    a.first_row <= b.last_row && b.first_row <= a.last_row && a.first_col <= b.last_col
        && b.first_col <= a.last_col
}

/// No two tables of the sheet share a cell; the sink rejects the second
/// write of an overlapping pair.
pub open spec fn tables_disjoint(ts: Seq<TableSpec>) -> bool {
    forall|p: int, q: int| 0 <= p < q < ts.len() ==> !tables_overlap(#[trigger] ts[p], #[trigger] ts[q])
}

/// Whether two table ranges, as the sink records them, share any cell.
pub open spec fn ranges_overlap(a: (u32, u16, u32, u16), b: (u32, u16, u32, u16)) -> bool {
    a.0 <= b.2 && b.0 <= a.2 && a.1 <= b.3 && b.1 <= a.3
}

/// A range that shares no cell with any recorded table range.
pub open spec fn range_free(rs: Seq<(u32, u16, u32, u16)>, first_row: u32, first_col: u16, last_row: u32, last_col: u16) -> bool {
    forall|m: int| 0 <= m < rs.len() ==> !ranges_overlap(#[trigger] rs[m], (first_row, first_col, last_row, last_col))
}

/// The table ranges a sequence of planned writes adds, in order.
pub open spec fn planned_tables(ops: Seq<EmitOp>) -> Seq<(u32, u16, u32, u16)>
    decreases ops.len(),
{
    if ops.len() == 0 {
        Seq::empty()
    } else {
        match ops[0] {
            EmitOp::TableAdd { first_row, first_col, last_row, last_col, header } =>
                seq![(first_row, first_col, last_row, last_col)] + planned_tables(ops.drop_first()),
            _ => planned_tables(ops.drop_first()),
        }
    }
}

/// Appending one write extends the planned table ranges exactly when the
/// write is a table write.
pub proof fn lemma_planned_tables_push(s: Seq<EmitOp>, op: EmitOp)
    ensures
        planned_tables(s.push(op)) == (match op {
            EmitOp::TableAdd { first_row, first_col, last_row, last_col, header } =>
                planned_tables(s).push((first_row, first_col, last_row, last_col)),
            _ => planned_tables(s),
        }),
    decreases s.len(),
{
    if s.len() == 0 {
        assert(s.push(op)[0] == op);
        assert(s.push(op).drop_first() =~= Seq::<EmitOp>::empty());
        assert(planned_tables(Seq::<EmitOp>::empty()) =~= Seq::<(u32, u16, u32, u16)>::empty());
        match op {
            EmitOp::TableAdd { first_row, first_col, last_row, last_col, header } => {
                assert(planned_tables(s.push(op)) =~= planned_tables(s).push(
                    (first_row, first_col, last_row, last_col),
                ));
            },
            _ => {},
        }
    } else {
        assert(s.push(op)[0] == s[0]);
        assert(s.push(op).drop_first() =~= s.drop_first().push(op));
        lemma_planned_tables_push(s.drop_first(), op);
        match op {
            EmitOp::TableAdd { first_row, first_col, last_row, last_col, header } => {
                assert(planned_tables(s.push(op)) =~= planned_tables(s).push(
                    (first_row, first_col, last_row, last_col),
                ));
            },
            _ => {},
        }
    }
}

/// A table write a worksheet in a given table state accepts: its range is
/// free of every recorded table range. Writes of any other kind carry no
/// such condition.
pub open spec fn table_add_allowed(op: EmitOp, rs: Seq<(u32, u16, u32, u16)>) -> bool {
    op matches EmitOp::TableAdd { first_row, first_col, last_row, last_col, header }
        ==> range_free(rs, first_row, first_col, last_row, last_col)
}

/// Every table write of a plan lands on cells free of every earlier table
/// write; plans the planner returns always satisfy this, since it refuses a
/// sheet with overlapping tables.
pub open spec fn ops_tables_ok(ops: Seq<EmitOp>) -> bool {
    forall|i: int| 0 <= i < ops.len() ==> ((#[trigger] ops[i]) matches EmitOp::TableAdd { first_row, first_col, last_row, last_col, header }
        ==> range_free(planned_tables(ops.take(i)), first_row, first_col, last_row, last_col))
}

/// Folds [`spec_config_ops`] over a collection, first error aborting.
pub open spec fn spec_configs_ops(cs: Seq<RowColumnConfig>, styles: Seq<Style>) -> Result<Seq<EmitOp>, SheetError>
    decreases cs.len(),
{
    if cs.len() == 0 {
        Ok(Seq::empty())
    } else {
        match spec_config_ops(cs[0], styles) {
            Ok(o) => match spec_configs_ops(cs.drop_first(), styles) {
                Ok(os) => Ok(o + os),
                Err(e) => Err(e),
            },
            Err(e) => Err(e),
        }
    }
}

/// Folds [`spec_cf_op`] over the conditional-format entries.
pub open spec fn spec_cfs_ops(es: Seq<CfEntry>, styles: Seq<Style>, rules: Seq<CfRule>) -> Result<Seq<EmitOp>, SheetError>
    decreases es.len(),
{
    if es.len() == 0 {
        Ok(Seq::empty())
    } else {
        match spec_cf_op(es[0], styles, rules) {
            Ok(o) => match spec_cfs_ops(es.drop_first(), styles, rules) {
                Ok(os) => Ok(seq![o] + os),
                Err(e) => Err(e),
            },
            Err(e) => Err(e),
        }
    }
}

/// Folds [`spec_af_op`] over the array formulas.
pub open spec fn spec_afs_ops(afs: Seq<ArrayFormula>, styles: Seq<Style>) -> Result<Seq<EmitOp>, SheetError>
    decreases afs.len(),
{
    if afs.len() == 0 {
        Ok(Seq::empty())
    } else {
        match spec_af_op(afs[0], styles) {
            Ok(o) => match spec_afs_ops(afs.drop_first(), styles) {
                Ok(os) => Ok(seq![o] + os),
                Err(e) => Err(e),
            },
            Err(e) => Err(e),
        }
    }
}

/// Folds [`spec_cell_ops1`] over the cells.
pub open spec fn spec_cells_ops(cs: Seq<Cell>, styles: Seq<Style>) -> Result<Seq<EmitOp>, SheetError>
    decreases cs.len(),
{
    if cs.len() == 0 {
        Ok(Seq::empty())
    } else {
        match spec_cell_ops1(cs[0], styles) {
            Ok(o) => match spec_cells_ops(cs.drop_first(), styles) {
                Ok(os) => Ok(o + os),
                Err(e) => Err(e),
            },
            Err(e) => Err(e),
        }
    }
}

/// Maps [`spec_table_op`] over the tables; tables reference nothing, so this
/// fold cannot fail.
pub open spec fn spec_tables_ops(ts: Seq<TableSpec>) -> Seq<EmitOp>
    decreases ts.len(),
{
    if ts.len() == 0 {
        Seq::empty()
    } else {
        seq![spec_table_op(ts[0])] + spec_tables_ops(ts.drop_first())
    }
}

/// Every feature write of a sheet, in the fixed emission order; the name
/// write is prepended by [`spec_plan`]. A sheet whose tables overlap is
/// refused with the emission error before anything is planned: the sink
/// would reject the second table of such a pair, and refusing up front
/// keeps the worksheet free of a half-written table registry.
pub open spec fn spec_feature_ops(m: SheetModel) -> Result<Seq<EmitOp>, SheetError> {
    match spec_configs_ops(m.row_configs, m.styles) {
        Err(e) => Err(e),
        Ok(rows) => match spec_configs_ops(m.column_configs, m.styles) {
            Err(e) => Err(e),
            Ok(cols) => match spec_cfs_ops(m.conditional_formats, m.styles, m.rules) {
                Err(e) => Err(e),
                Ok(cfs) => match spec_afs_ops(m.array_formulas, m.styles) {
                    Err(e) => Err(e),
                    Ok(afs) => match spec_cells_ops(m.cells, m.styles) {
                        Err(e) => Err(e),
                        Ok(cells) => if !tables_disjoint(m.tables) {
                            Err(SheetError::Emission)
                        } else {
                            Ok(rows + cols + cfs + afs + cells + spec_tables_ops(m.tables))
                        },
                    },
                },
            },
        },
    }
}

/// What `plan` returns: the name write first, then every feature write in
/// the fixed order, or the first dangling reference found.
pub open spec fn spec_plan(s: Sheet) -> Result<Seq<EmitOp>, SheetError> {
    match spec_feature_ops(s@) {
        Ok(ops) => Ok(seq![EmitOp::SetName { name: s.name }] + ops),
        Err(e) => Err(e),
    }
}

/// A character the sink refuses anywhere in a sheet name.
pub open spec fn banned_name_char(c: char) -> bool {
    c == '*' || c == '?' || c == ':' || c == '[' || c == ']' || c == '\\' || c == '/'
}

/// The names the sink accepts: nonempty, at most 31 characters, no banned
/// character, and no leading or trailing apostrophe.
pub open spec fn valid_sheet_name(s: Seq<char>) -> bool {
    &&& 1 <= s.len() <= 31
    &&& forall|i: int| 0 <= i < s.len() ==> !banned_name_char(s[i])
    &&& s[0] != '\''
    &&& s[s.len() - 1] != '\''
}

/// The rules the sink accepts: a formula rule needs text left after the
/// sink strips its array-formula marks, a top/bottom rule a count in
/// `1..=1000` or a percent in `1..=100`. Rules built by the builder always
/// satisfy this; a hand-assembled sheet may not.
pub open spec fn rule_ok(rule: CfRule) -> bool {
    match rule {
        CfRule::FormulaRule { formula } => crate::cond_format::spec_strip_formula_marks(formula@).len() > 0,
        CfRule::TopBottom { bottom, percent, value } => if percent {
            1 <= value <= 100
        } else {
            1 <= value <= 1000
        },
        _ => true,
    }
}

/// A rectangular range the sink accepts: ordered and inside the sheet.
pub open spec fn range_ok(first_row: u32, first_col: u16, last_row: u32, last_col: u16) -> bool {
    first_row <= last_row < ROW_MAX && first_col <= last_col < COL_MAX
}

/// The per-write conditions under which the matching sink call returns
/// success. For every write but a table write these are exact; a table
/// write additionally needs its range free of every table already recorded
/// in the worksheet (see [`ops_tables_ok`]).
pub open spec fn op_ok(op: EmitOp) -> bool {
    match op {
        EmitOp::SetName { name } => valid_sheet_name(name@),
        EmitOp::RowHeight { row, height } => row < ROW_MAX,
        EmitOp::RowFormat { row, format } => row < ROW_MAX,
        EmitOp::RowHidden { row } => row < ROW_MAX,
        EmitOp::ColWidth { col, width } => col < COL_MAX,
        EmitOp::ColFormat { col, format } => col < COL_MAX,
        EmitOp::ColHidden { col } => col < COL_MAX,
        EmitOp::CondFormat { first_row, first_col, last_row, last_col, rule, format, stop_if_true } =>
            range_ok(first_row, first_col, last_row, last_col) && rule_ok(rule),
        EmitOp::StaticFormula { first_row, first_col, last_row, last_col, formula } =>
            range_ok(first_row, first_col, last_row, last_col),
        EmitOp::StaticFormulaFmt { first_row, first_col, last_row, last_col, formula, format } =>
            range_ok(first_row, first_col, last_row, last_col),
        EmitOp::DynamicFormula { first_row, first_col, last_row, last_col, formula } =>
            range_ok(first_row, first_col, last_row, last_col),
        EmitOp::DynamicFormulaFmt { first_row, first_col, last_row, last_col, formula, format } =>
            range_ok(first_row, first_col, last_row, last_col),
        EmitOp::CellText { row, col, text } => row < ROW_MAX && col < COL_MAX && text@.len() <= TEXT_MAX,
        EmitOp::CellTextFmt { row, col, text, format } => row < ROW_MAX && col < COL_MAX && text@.len() <= TEXT_MAX,
        EmitOp::CellNumber { row, col, number } => row < ROW_MAX && col < COL_MAX,
        EmitOp::CellNumberFmt { row, col, number, format } => row < ROW_MAX && col < COL_MAX,
        EmitOp::CellBool { row, col, value } => row < ROW_MAX && col < COL_MAX,
        EmitOp::CellBoolFmt { row, col, value, format } => row < ROW_MAX && col < COL_MAX,
        EmitOp::CellFormula { row, col, formula } => row < ROW_MAX && col < COL_MAX,
        EmitOp::CellFormulaFmt { row, col, formula, format } => row < ROW_MAX && col < COL_MAX,
        EmitOp::CellBlank { row, col, format } => row < ROW_MAX && col < COL_MAX,
        EmitOp::TableAdd { first_row, first_col, last_row, last_col, header } =>
            range_ok(first_row, first_col, last_row, last_col) && (header ==> first_row < last_row),
    }
}

/// Every op of a plan is one the sink accepts.
pub open spec fn all_ops_ok(ops: Seq<EmitOp>) -> bool {
    forall|i: int| 0 <= i < ops.len() ==> op_ok(#[trigger] ops[i])
}

#[verifier::loop_isolation(false)]
#[verifier::rlimit(60)]
fn push_config_ops(c: &RowColumnConfig, styles: &crate::interner::StyleInterner, ops: &mut Vec<EmitOp>) -> (r: Result<(), SheetError>)
    ensures
        match spec_config_ops(*c, styles@) {
            Ok(o) => r matches Ok(u) && final(ops)@ == old(ops)@ + o,
            Err(e) => r matches Err(e2) && e2 == e && final(ops)@ == old(ops)@,
        },
{
    let format: Option<Style> = match c.style {
        Some(k) => match styles.resolve(k) {
            Some(f) => Some(f.duplicate()),
            None => {
                return Err(SheetError::DanglingReference);
            },
        },
        None => None,
    };
    let ghost base = ops@;
    let ghost gformat = format;
    let mut idx: u64 = c.first_index as u64;
    let last: u64 = c.last_index as u64;
    while idx <= last
        invariant
            idx <= last + 1 || idx == c.first_index as u64,
            last == c.last_index as u64,
            base + spec_config_ops_with(*c, gformat) == ops@ + spec_span_ops(*c, gformat, idx as int),
        decreases last + 1 - idx,
    {
        let here: u32 = idx as u32;
        let ghost pre = ops@;
        match c.size {
            Some(s) => {
                match c.axis {
                    Axis::Row => {
                        ops.push(EmitOp::RowHeight { row: here, height: s });
                    },
                    Axis::Column => {
                        ops.push(EmitOp::ColWidth { col: here as u16, width: s });
                    },
                }
            },
            None => {},
        }
        match &format {
            Some(f) => {
                match c.axis {
                    Axis::Row => {
                        ops.push(EmitOp::RowFormat { row: here, format: f.duplicate() });
                    },
                    Axis::Column => {
                        ops.push(EmitOp::ColFormat { col: here as u16, format: f.duplicate() });
                    },
                }
            },
            None => {},
        }
        if c.hidden {
            match c.axis {
                Axis::Row => {
                    ops.push(EmitOp::RowHidden { row: here });
                },
                Axis::Column => {
                    ops.push(EmitOp::ColHidden { col: here as u16 });
                },
            }
        }
        proof {
            assert(ops@ =~= pre + spec_index_ops(*c, gformat, here));
            assert((pre + spec_index_ops(*c, gformat, here)) + spec_span_ops(*c, gformat, idx as int + 1)
                =~= pre + (spec_index_ops(*c, gformat, here) + spec_span_ops(*c, gformat, idx as int + 1)));
        }
        idx = idx + 1;
    }
    Ok(())
}

fn push_af_op(af: &ArrayFormula, styles: &crate::interner::StyleInterner, ops: &mut Vec<EmitOp>) -> (r: Result<(), SheetError>)
    ensures
        match spec_af_op(*af, styles@) {
            Ok(o) => r matches Ok(u) && final(ops)@ == old(ops)@ + seq![o],
            Err(e) => r matches Err(e2) && e2 == e && final(ops)@ == old(ops)@,
        },
{
    let format: Option<Style> = match af.style {
        Some(k) => match styles.resolve(k) {
            Some(f) => Some(f.duplicate()),
            None => {
                return Err(SheetError::DanglingReference);
            },
        },
        None => None,
    };
    let ghost base = ops@;
    match format {
        Some(f) => {
            if af.dynamic {
                ops.push(EmitOp::DynamicFormulaFmt {
                    first_row: af.first_row,
                    first_col: af.first_col,
                    last_row: af.last_row,
                    last_col: af.last_col,
                    formula: af.formula.clone(),
                    format: f,
                });
            } else {
                ops.push(EmitOp::StaticFormulaFmt {
                    first_row: af.first_row,
                    first_col: af.first_col,
                    last_row: af.last_row,
                    last_col: af.last_col,
                    formula: af.formula.clone(),
                    format: f,
                });
            }
        },
        None => {
            if af.dynamic {
                ops.push(EmitOp::DynamicFormula {
                    first_row: af.first_row,
                    first_col: af.first_col,
                    last_row: af.last_row,
                    last_col: af.last_col,
                    formula: af.formula.clone(),
                });
            } else {
                ops.push(EmitOp::StaticFormula {
                    first_row: af.first_row,
                    first_col: af.first_col,
                    last_row: af.last_row,
                    last_col: af.last_col,
                    formula: af.formula.clone(),
                });
            }
        },
    }
    proof {
        assert(ops@ =~= base + seq![spec_af_op(*af, styles@)->Ok_0]);
    }
    Ok(())
}

fn push_cell_ops(c: &Cell, styles: &crate::interner::StyleInterner, ops: &mut Vec<EmitOp>) -> (r: Result<(), SheetError>)
    ensures
        match spec_cell_ops1(*c, styles@) {
            Ok(o) => r matches Ok(u) && final(ops)@ == old(ops)@ + o,
            Err(e) => r matches Err(e2) && e2 == e && final(ops)@ == old(ops)@,
        },
{
    let format: Option<Style> = match c.style {
        Some(k) => match styles.resolve(k) {
            Some(f) => Some(f.duplicate()),
            None => {
                return Err(SheetError::DanglingReference);
            },
        },
        None => None,
    };
    let ghost base = ops@;
    let ghost gformat = format;
    match &c.value {
        CellValue::Text(t) => match format {
            Some(f) => {
                ops.push(EmitOp::CellTextFmt { row: c.row, col: c.col, text: t.clone(), format: f });
            },
            None => {
                ops.push(EmitOp::CellText { row: c.row, col: c.col, text: t.clone() });
            },
        },
        CellValue::Number(n) => match format {
            Some(f) => {
                ops.push(EmitOp::CellNumberFmt { row: c.row, col: c.col, number: *n, format: f });
            },
            None => {
                ops.push(EmitOp::CellNumber { row: c.row, col: c.col, number: *n });
            },
        },
        CellValue::Boolean(b) => match format {
            Some(f) => {
                ops.push(EmitOp::CellBoolFmt { row: c.row, col: c.col, value: *b, format: f });
            },
            None => {
                ops.push(EmitOp::CellBool { row: c.row, col: c.col, value: *b });
            },
        },
        CellValue::Formula(x) => match format {
            Some(f) => {
                ops.push(EmitOp::CellFormulaFmt { row: c.row, col: c.col, formula: x.clone(), format: f });
            },
            None => {
                ops.push(EmitOp::CellFormula { row: c.row, col: c.col, formula: x.clone() });
            },
        },
        CellValue::Blank => match format {
            Some(f) => {
                ops.push(EmitOp::CellBlank { row: c.row, col: c.col, format: f });
            },
            None => {},
        },
    }
    proof {
        assert(ops@ =~= base + spec_cell_ops_with(*c, gformat));
    }
    Ok(())
}

fn push_cf_op(e: &CfEntry, styles: &crate::interner::StyleInterner, rules: &crate::interner::CfInterner, ops: &mut Vec<EmitOp>) -> (r: Result<(), SheetError>)
    ensures
        match spec_cf_op(*e, styles@, rules@) {
            Ok(o) => r matches Ok(u) && final(ops)@ == old(ops)@ + seq![o],
            Err(err) => r matches Err(e2) && e2 == err && final(ops)@ == old(ops)@,
        },
{
    let rule = match rules.resolve(e.rule) {
        Some(rule) => rule.duplicate(),
        None => {
            return Err(SheetError::DanglingReference);
        },
    };
    let format: Option<Style> = match e.style {
        Some(k) => match styles.resolve(k) {
            Some(f) => Some(f.duplicate()),
            None => {
                return Err(SheetError::DanglingReference);
            },
        },
        None => None,
    };
    let ghost base = ops@;
    ops.push(EmitOp::CondFormat {
        first_row: e.first_row,
        first_col: e.first_col,
        last_row: e.last_row,
        last_col: e.last_col,
        rule,
        format,
        stop_if_true: e.stop_if_true,
    });
    proof {
        assert(ops@ =~= base + seq![spec_cf_op(*e, styles@, rules@)->Ok_0]);
    }
    Ok(())
}

fn push_table_op(t: &TableSpec, ops: &mut Vec<EmitOp>)
    ensures
        final(ops)@ == old(ops)@ + seq![spec_table_op(*t)],
{
    let ghost base = ops@;
    ops.push(EmitOp::TableAdd {
        first_row: t.first_row,
        first_col: t.first_col,
        last_row: t.last_row,
        last_col: t.last_col,
        header: t.header,
    });
    proof {
        assert(ops@ =~= base + seq![spec_table_op(*t)]);
    }
}

fn specs_overlap(a: &TableSpec, b: &TableSpec) -> (r: bool)
    ensures
        r == tables_overlap(*a, *b),
{
    a.first_row <= b.last_row && b.first_row <= a.last_row && a.first_col <= b.last_col
        && b.first_col <= a.last_col
}

/// Materializes the whole emission plan of a sheet: the name write first,
/// then every feature write in the fixed order, resolving every interned
/// key; the first dangling reference aborts with no further ops.
#[verifier::loop_isolation(false)]
#[verifier::rlimit(80)]
pub fn plan(s: &Sheet) -> (r: Result<Vec<EmitOp>, SheetError>)
    ensures
        match spec_plan(*s) {
            Ok(ops) => r matches Ok(v) && v@ == ops,
            Err(e) => r matches Err(e2) && e2 == e,
        },
{
    let mut ops: Vec<EmitOp> = Vec::new();
    ops.push(EmitOp::SetName { name: s.name.clone() });
    let ghost base0 = ops@;

    let mut i: usize = 0;
    proof {
        assert(s.row_configs@.skip(0) =~= s.row_configs@);
    }
    while i < s.row_configs.len()
        invariant
            i <= s.row_configs.len(),
            match spec_configs_ops(s.row_configs@.skip(i as int), s.styles@) {
                Ok(os) => spec_configs_ops(s.row_configs@, s.styles@) matches Ok(fo) && base0 + fo == ops@ + os,
                Err(e) => spec_configs_ops(s.row_configs@, s.styles@) == Err::<Seq<EmitOp>, SheetError>(e),
            },
        decreases s.row_configs.len() - i,
    {
        proof {
            assert(s.row_configs@.skip(i as int)[0] == s.row_configs@[i as int]);
            assert(s.row_configs@.skip(i as int).drop_first() =~= s.row_configs@.skip(i as int + 1));
        }
        let ghost pre = ops@;
        match push_config_ops(&s.row_configs[i], &s.styles, &mut ops) {
            Ok(_) => {
                proof {
                    match spec_configs_ops(s.row_configs@.skip(i as int + 1), s.styles@) {
                        Ok(os2) => {
                            assert((pre + spec_config_ops(s.row_configs@[i as int], s.styles@)->Ok_0) + os2
                                =~= pre + (spec_config_ops(s.row_configs@[i as int], s.styles@)->Ok_0 + os2));
                        },
                        Err(_) => {},
                    }
                }
            },
            Err(e) => {
                return Err(e);
            },
        }
        i = i + 1;
    }
    let ghost rows_ops = spec_configs_ops(s.row_configs@, s.styles@)->Ok_0;
    let ghost base1 = ops@;
    proof {
        assert(s.row_configs@.skip(s.row_configs@.len() as int) =~= Seq::<RowColumnConfig>::empty());
        assert(base1 =~= base0 + rows_ops);
    }

    let mut i: usize = 0;
    proof {
        assert(s.column_configs@.skip(0) =~= s.column_configs@);
    }
    while i < s.column_configs.len()
        invariant
            i <= s.column_configs.len(),
            match spec_configs_ops(s.column_configs@.skip(i as int), s.styles@) {
                Ok(os) => spec_configs_ops(s.column_configs@, s.styles@) matches Ok(fo) && base1 + fo == ops@ + os,
                Err(e) => spec_configs_ops(s.column_configs@, s.styles@) == Err::<Seq<EmitOp>, SheetError>(e),
            },
        decreases s.column_configs.len() - i,
    {
        proof {
            assert(s.column_configs@.skip(i as int)[0] == s.column_configs@[i as int]);
            assert(s.column_configs@.skip(i as int).drop_first() =~= s.column_configs@.skip(i as int + 1));
        }
        let ghost pre = ops@;
        match push_config_ops(&s.column_configs[i], &s.styles, &mut ops) {
            Ok(_) => {
                proof {
                    match spec_configs_ops(s.column_configs@.skip(i as int + 1), s.styles@) {
                        Ok(os2) => {
                            assert((pre + spec_config_ops(s.column_configs@[i as int], s.styles@)->Ok_0) + os2
                                =~= pre + (spec_config_ops(s.column_configs@[i as int], s.styles@)->Ok_0 + os2));
                        },
                        Err(_) => {},
                    }
                }
            },
            Err(e) => {
                return Err(e);
            },
        }
        i = i + 1;
    }
    let ghost cols_ops = spec_configs_ops(s.column_configs@, s.styles@)->Ok_0;
    let ghost base2 = ops@;
    proof {
        assert(s.column_configs@.skip(s.column_configs@.len() as int) =~= Seq::<RowColumnConfig>::empty());
        assert(base2 =~= base1 + cols_ops);
    }

    let mut i: usize = 0;
    proof {
        assert(s.conditional_formats@.skip(0) =~= s.conditional_formats@);
    }
    while i < s.conditional_formats.len()
        invariant
            i <= s.conditional_formats.len(),
            match spec_cfs_ops(s.conditional_formats@.skip(i as int), s.styles@, s.rules@) {
                Ok(os) => spec_cfs_ops(s.conditional_formats@, s.styles@, s.rules@) matches Ok(fo) && base2 + fo == ops@ + os,
                Err(e) => spec_cfs_ops(s.conditional_formats@, s.styles@, s.rules@) == Err::<Seq<EmitOp>, SheetError>(e),
            },
        decreases s.conditional_formats.len() - i,
    {
        proof {
            assert(s.conditional_formats@.skip(i as int)[0] == s.conditional_formats@[i as int]);
            assert(s.conditional_formats@.skip(i as int).drop_first() =~= s.conditional_formats@.skip(i as int + 1));
        }
        let ghost pre = ops@;
        match push_cf_op(&s.conditional_formats[i], &s.styles, &s.rules, &mut ops) {
            Ok(_) => {
                proof {
                    match spec_cfs_ops(s.conditional_formats@.skip(i as int + 1), s.styles@, s.rules@) {
                        Ok(os2) => {
                            assert((pre + seq![spec_cf_op(s.conditional_formats@[i as int], s.styles@, s.rules@)->Ok_0]) + os2
                                =~= pre + (seq![spec_cf_op(s.conditional_formats@[i as int], s.styles@, s.rules@)->Ok_0] + os2));
                        },
                        Err(_) => {},
                    }
                }
            },
            Err(e) => {
                return Err(e);
            },
        }
        i = i + 1;
    }
    let ghost cfs_ops = spec_cfs_ops(s.conditional_formats@, s.styles@, s.rules@)->Ok_0;
    let ghost base3 = ops@;
    proof {
        assert(s.conditional_formats@.skip(s.conditional_formats@.len() as int) =~= Seq::<CfEntry>::empty());
        assert(base3 =~= base2 + cfs_ops);
    }

    let mut i: usize = 0;
    proof {
        assert(s.array_formulas@.skip(0) =~= s.array_formulas@);
    }
    while i < s.array_formulas.len()
        invariant
            i <= s.array_formulas.len(),
            match spec_afs_ops(s.array_formulas@.skip(i as int), s.styles@) {
                Ok(os) => spec_afs_ops(s.array_formulas@, s.styles@) matches Ok(fo) && base3 + fo == ops@ + os,
                Err(e) => spec_afs_ops(s.array_formulas@, s.styles@) == Err::<Seq<EmitOp>, SheetError>(e),
            },
        decreases s.array_formulas.len() - i,
    {
        proof {
            assert(s.array_formulas@.skip(i as int)[0] == s.array_formulas@[i as int]);
            assert(s.array_formulas@.skip(i as int).drop_first() =~= s.array_formulas@.skip(i as int + 1));
        }
        let ghost pre = ops@;
        match push_af_op(&s.array_formulas[i], &s.styles, &mut ops) {
            Ok(_) => {
                proof {
                    match spec_afs_ops(s.array_formulas@.skip(i as int + 1), s.styles@) {
                        Ok(os2) => {
                            assert((pre + seq![spec_af_op(s.array_formulas@[i as int], s.styles@)->Ok_0]) + os2
                                =~= pre + (seq![spec_af_op(s.array_formulas@[i as int], s.styles@)->Ok_0] + os2));
                        },
                        Err(_) => {},
                    }
                }
            },
            Err(e) => {
                return Err(e);
            },
        }
        i = i + 1;
    }
    let ghost afs_ops = spec_afs_ops(s.array_formulas@, s.styles@)->Ok_0;
    let ghost base4 = ops@;
    proof {
        assert(s.array_formulas@.skip(s.array_formulas@.len() as int) =~= Seq::<ArrayFormula>::empty());
        assert(base4 =~= base3 + afs_ops);
    }

    let mut i: usize = 0;
    proof {
        assert(s.cells@.skip(0) =~= s.cells@);
    }
    while i < s.cells.len()
        invariant
            i <= s.cells.len(),
            match spec_cells_ops(s.cells@.skip(i as int), s.styles@) {
                Ok(os) => spec_cells_ops(s.cells@, s.styles@) matches Ok(fo) && base4 + fo == ops@ + os,
                Err(e) => spec_cells_ops(s.cells@, s.styles@) == Err::<Seq<EmitOp>, SheetError>(e),
            },
        decreases s.cells.len() - i,
    {
        proof {
            assert(s.cells@.skip(i as int)[0] == s.cells@[i as int]);
            assert(s.cells@.skip(i as int).drop_first() =~= s.cells@.skip(i as int + 1));
        }
        let ghost pre = ops@;
        match push_cell_ops(&s.cells[i], &s.styles, &mut ops) {
            Ok(_) => {
                proof {
                    match spec_cells_ops(s.cells@.skip(i as int + 1), s.styles@) {
                        Ok(os2) => {
                            assert((pre + spec_cell_ops1(s.cells@[i as int], s.styles@)->Ok_0) + os2
                                =~= pre + (spec_cell_ops1(s.cells@[i as int], s.styles@)->Ok_0 + os2));
                        },
                        Err(_) => {},
                    }
                }
            },
            Err(e) => {
                return Err(e);
            },
        }
        i = i + 1;
    }
    let ghost cells_ops = spec_cells_ops(s.cells@, s.styles@)->Ok_0;
    let ghost base5 = ops@;
    proof {
        assert(s.cells@.skip(s.cells@.len() as int) =~= Seq::<Cell>::empty());
        assert(base5 =~= base4 + cells_ops);
    }

    let mut i: usize = 0;
    while i < s.tables.len()
        invariant
            i <= s.tables.len(),
            forall|p: int, q: int| 0 <= p < q < s.tables@.len() && p < i ==> !tables_overlap(
                #[trigger] s.tables@[p],
                #[trigger] s.tables@[q],
            ),
        decreases s.tables.len() - i,
    {
        let mut j: usize = i + 1;
        while j < s.tables.len()
            invariant
                i < j <= s.tables.len(),
                forall|q: int| i < q < j ==> !tables_overlap(s.tables@[i as int], #[trigger] s.tables@[q]),
            decreases s.tables.len() - j,
        {
            if specs_overlap(&s.tables[i], &s.tables[j]) {
                return Err(SheetError::Emission);
            }
            j = j + 1;
        }
        i = i + 1;
    }
    assert(tables_disjoint(s.tables@));

    let mut i: usize = 0;
    proof {
        assert(s.tables@.skip(0) =~= s.tables@);
    }
    while i < s.tables.len()
        invariant
            i <= s.tables.len(),
            base5 + spec_tables_ops(s.tables@) == ops@ + spec_tables_ops(s.tables@.skip(i as int)),
        decreases s.tables.len() - i,
    {
        proof {
            assert(s.tables@.skip(i as int)[0] == s.tables@[i as int]);
            assert(s.tables@.skip(i as int).drop_first() =~= s.tables@.skip(i as int + 1));
        }
        let ghost pre = ops@;
        push_table_op(&s.tables[i], &mut ops);
        proof {
            assert((pre + seq![spec_table_op(s.tables@[i as int])]) + spec_tables_ops(s.tables@.skip(i as int + 1))
                =~= pre + (seq![spec_table_op(s.tables@[i as int])] + spec_tables_ops(s.tables@.skip(i as int + 1))));
        }
        i = i + 1;
    }
    proof {
        assert(s.tables@.skip(s.tables@.len() as int) =~= Seq::<TableSpec>::empty());
        assert(ops@ + Seq::<EmitOp>::empty() =~= ops@);
        assert(ops@ =~= base5 + spec_tables_ops(s.tables@));
        assert(base0 =~= seq![EmitOp::SetName { name: s.name }]);
        assert(ops@ =~= seq![EmitOp::SetName { name: s.name }]
            + (rows_ops + cols_ops + cfs_ops + afs_ops + cells_ops + spec_tables_ops(s.tables@)));
    }
    Ok(ops)
}

} // verus!
