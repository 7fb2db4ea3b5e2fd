//! The sheet emitter: one ordered pass that writes a built sheet into the
//! worksheet sink.
//!
//! Emission first materializes the plan (resolving every interned key, so a
//! dangling reference is reported before anything is written), then performs
//! each write in order. A sink rejection surfaces as an `Emission` error and
//! leaves the partially written sink behind; callers discard it.

use vstd::prelude::*;
use crate::error::SheetError;
use crate::style::Style;
use crate::cond_format::CfRule;
use crate::sheet::Sheet;
use crate::plan::{EmitOp, spec_plan, plan, op_ok, all_ops_ok, table_add_allowed, planned_tables, lemma_planned_tables_push, SinkWrite, write_of_op, writes_of_ops};
use crate::sink::{ws_table_ranges, ws_tables_clean, ws_writes};
use crate::sink::{
    ws_new, ws_set_name, ws_set_row_height, ws_set_row_format, ws_set_row_hidden,
    ws_set_col_width, ws_set_col_format, ws_set_col_hidden, ws_write_string,
    ws_write_string_fmt, ws_write_number, ws_write_number_fmt, ws_write_boolean,
    ws_write_boolean_fmt, ws_write_formula, ws_write_formula_fmt, ws_write_blank,
    ws_write_array_formula, ws_write_array_formula_fmt, ws_write_dynamic_array_formula,
    ws_write_dynamic_array_formula_fmt, ws_add_table, fmt_new, fmt_bold, fmt_italic,
    fmt_font_color, fmt_background_color, fmt_num_format, ws_add_cf_cell_gt,
    ws_add_cf_cell_lt, ws_add_cf_cell_eq, ws_add_cf_cell_between, ws_add_cf_formula,
    ws_add_cf_top, ws_add_cf_top_percent, ws_add_cf_duplicate, ws_add_cf_text_contains,
    ws_add_cf_date_yesterday, ws_add_cf_date_today, ws_add_cf_date_tomorrow,
    ws_add_cf_blank, ws_add_cf_error, ws_add_cf_color_scale, ws_add_cf_data_bar,
    ws_add_cf_icon_set,
};
use crate::cond_format::{CfCellOp, CfDatePeriod};

verus! {

/// Builds the sink-side format object a resolved style stands for. The sink
/// format is opaque to the verifier; each attribute is applied through its
/// own trusted call.
fn to_sink_format(s: &Style) -> rust_xlsxwriter::Format {
    let mut f = fmt_new();
    if s.bold {
        f = fmt_bold(f);
    }
    if s.italic {
        f = fmt_italic(f);
    }
    match s.font_color {
        Some(c) => {
            f = fmt_font_color(f, c);
        },
        None => {},
    }
    match s.background_color {
        Some(c) => {
            f = fmt_background_color(f, c);
        },
        None => {},
    }
    match &s.num_format {
        Some(nf) => {
            f = fmt_num_format(f, nf.as_str());
        },
        None => {},
    }
    f
}

/// Performs one planned write: exactly the one sink call the op stands for,
/// appended to the worksheet's call log on success. A write the sink
/// accepts — [`op_ok`], and for a table write a range free of every table
/// already recorded — cannot fail; a rejected write surfaces as `Emission`.
fn apply_op(op: &EmitOp, w: &mut rust_xlsxwriter::Worksheet) -> (r: Result<(), SheetError>)
    requires
        ws_tables_clean(*old(w)),
    ensures
        (op_ok(*op) && table_add_allowed(*op, ws_table_ranges(*old(w)))) ==> r is Ok,
        r is Err ==> r == Err::<(), SheetError>(SheetError::Emission),
        r is Ok ==> ws_writes(*final(w)) == ws_writes(*old(w)).push(write_of_op(*op)),
        r is Err ==> ws_writes(*final(w)) == ws_writes(*old(w)),
        !(*op is TableAdd) ==> ws_table_ranges(*final(w)) == ws_table_ranges(*old(w)),
        *op matches EmitOp::TableAdd { first_row, first_col, last_row, last_col, header }
            ==> (r is Ok ==> ws_table_ranges(*final(w)) == ws_table_ranges(*old(w)).push(
                (first_row, first_col, last_row, last_col),
            )),
        (r is Ok || !(*op is TableAdd)) ==> ws_tables_clean(*final(w)),
{
    let outcome = match op {
        EmitOp::SetName { name } => ws_set_name(w, name.as_str()),
        EmitOp::RowHeight { row, height } => ws_set_row_height(w, *row, *height),
        EmitOp::RowFormat { row, format } => {
            let f = to_sink_format(format);
            ws_set_row_format(w, *row, &f)
        },
        EmitOp::RowHidden { row } => ws_set_row_hidden(w, *row),
        EmitOp::ColWidth { col, width } => ws_set_col_width(w, *col, *width),
        EmitOp::ColFormat { col, format } => {
            let f = to_sink_format(format);
            ws_set_col_format(w, *col, &f)
        },
        EmitOp::ColHidden { col } => ws_set_col_hidden(w, *col),
        EmitOp::CondFormat { first_row, first_col, last_row, last_col, rule, format, stop_if_true } => {
            let f = match format {
                Some(s) => to_sink_format(s),
                None => fmt_new(),
            };
            match rule {
                CfRule::CellCompare { op: cmp, value } => match cmp {
                    CfCellOp::GreaterThan => ws_add_cf_cell_gt(w, *first_row, *first_col, *last_row, *last_col, *value, *stop_if_true, &f),
                    CfCellOp::LessThan => ws_add_cf_cell_lt(w, *first_row, *first_col, *last_row, *last_col, *value, *stop_if_true, &f),
                    CfCellOp::EqualTo => ws_add_cf_cell_eq(w, *first_row, *first_col, *last_row, *last_col, *value, *stop_if_true, &f),
                },
                CfRule::CellBetween { low, high } => ws_add_cf_cell_between(w, *first_row, *first_col, *last_row, *last_col, *low, *high, *stop_if_true, &f),
                CfRule::FormulaRule { formula } => ws_add_cf_formula(w, *first_row, *first_col, *last_row, *last_col, formula.as_str(), *stop_if_true, &f),
                CfRule::TopBottom { bottom, percent, value } => {
                    if *percent {
                        ws_add_cf_top_percent(w, *first_row, *first_col, *last_row, *last_col, *bottom, *value, *stop_if_true, &f)
                    } else {
                        ws_add_cf_top(w, *first_row, *first_col, *last_row, *last_col, *bottom, *value, *stop_if_true, &f)
                    }
                },
                CfRule::DuplicateRule { unique } => ws_add_cf_duplicate(w, *first_row, *first_col, *last_row, *last_col, *unique, *stop_if_true, &f),
                CfRule::TextContains { text } => ws_add_cf_text_contains(w, *first_row, *first_col, *last_row, *last_col, text.as_str(), *stop_if_true, &f),
                CfRule::DateRule { period } => match period {
                    CfDatePeriod::Yesterday => ws_add_cf_date_yesterday(w, *first_row, *first_col, *last_row, *last_col, *stop_if_true, &f),
                    CfDatePeriod::Today => ws_add_cf_date_today(w, *first_row, *first_col, *last_row, *last_col, *stop_if_true, &f),
                    CfDatePeriod::Tomorrow => ws_add_cf_date_tomorrow(w, *first_row, *first_col, *last_row, *last_col, *stop_if_true, &f),
                },
                CfRule::BlankRule { negated } => ws_add_cf_blank(w, *first_row, *first_col, *last_row, *last_col, *negated, *stop_if_true, &f),
                CfRule::ErrorRule { negated } => ws_add_cf_error(w, *first_row, *first_col, *last_row, *last_col, *negated, *stop_if_true, &f),
                CfRule::ColorScale => ws_add_cf_color_scale(w, *first_row, *first_col, *last_row, *last_col, *stop_if_true),
                CfRule::DataBar => ws_add_cf_data_bar(w, *first_row, *first_col, *last_row, *last_col, *stop_if_true),
                CfRule::IconSet => ws_add_cf_icon_set(w, *first_row, *first_col, *last_row, *last_col, *stop_if_true),
            }
        },
        EmitOp::StaticFormula { first_row, first_col, last_row, last_col, formula } =>
            ws_write_array_formula(w, *first_row, *first_col, *last_row, *last_col, formula.as_str()),
        EmitOp::StaticFormulaFmt { first_row, first_col, last_row, last_col, formula, format } => {
            let f = to_sink_format(format);
            ws_write_array_formula_fmt(w, *first_row, *first_col, *last_row, *last_col, formula.as_str(), &f)
        },
        EmitOp::DynamicFormula { first_row, first_col, last_row, last_col, formula } =>
            ws_write_dynamic_array_formula(w, *first_row, *first_col, *last_row, *last_col, formula.as_str()),
        EmitOp::DynamicFormulaFmt { first_row, first_col, last_row, last_col, formula, format } => {
            let f = to_sink_format(format);
            ws_write_dynamic_array_formula_fmt(w, *first_row, *first_col, *last_row, *last_col, formula.as_str(), &f)
        },
        EmitOp::CellText { row, col, text } => ws_write_string(w, *row, *col, text.as_str()),
        EmitOp::CellTextFmt { row, col, text, format } => {
            let f = to_sink_format(format);
            ws_write_string_fmt(w, *row, *col, text.as_str(), &f)
        },
        EmitOp::CellNumber { row, col, number } => ws_write_number(w, *row, *col, *number),
        EmitOp::CellNumberFmt { row, col, number, format } => {
            let f = to_sink_format(format);
            ws_write_number_fmt(w, *row, *col, *number, &f)
        },
        EmitOp::CellBool { row, col, value } => ws_write_boolean(w, *row, *col, *value),
        EmitOp::CellBoolFmt { row, col, value, format } => {
            let f = to_sink_format(format);
            ws_write_boolean_fmt(w, *row, *col, *value, &f)
        },
        EmitOp::CellFormula { row, col, formula } => ws_write_formula(w, *row, *col, formula.as_str()),
        EmitOp::CellFormulaFmt { row, col, formula, format } => {
            let f = to_sink_format(format);
            ws_write_formula_fmt(w, *row, *col, formula.as_str(), &f)
        },
        EmitOp::CellBlank { row, col, format } => {
            let f = to_sink_format(format);
            ws_write_blank(w, *row, *col, &f)
        },
        EmitOp::TableAdd { first_row, first_col, last_row, last_col, header } =>
            ws_add_table(w, *first_row, *first_col, *last_row, *last_col, *header),
    };
    match outcome {
        Ok(u) => Ok(u),
        Err(_) => Err(SheetError::Emission),
    }
}

/// Consumes a built sheet and writes it into a fresh worksheet sink, in the
/// fixed order its plan states.
///
/// A dangling style or rule reference is reported before anything is
/// written; a sheet whose plan the sink accepts throughout (see
/// [`all_ops_ok`]) emits completely and returns the populated sink; a write
/// the sink rejects aborts with `Emission`, and the partial sink is
/// discarded. On success the returned worksheet's call log is exactly the
/// plan's writes, in the plan's order — the positional round trip into the
/// sink — and its recorded table ranges are exactly the planned ones.
#[verifier::loop_isolation(false)]
pub fn emit(sheet: Sheet) -> (r: Result<rust_xlsxwriter::Worksheet, SheetError>)
    ensures
        match spec_plan(sheet) {
            Err(e) => r matches Err(e2) && e2 == e,
            Ok(ops) => (all_ops_ok(ops) ==> r is Ok) && (r is Err ==> r->Err_0 == SheetError::Emission)
                && (r matches Ok(w) ==> ws_writes(w) == writes_of_ops(ops)
                    && ws_tables_clean(w)
                    && ws_table_ranges(w) == planned_tables(ops)),
        },
{
    let ops = match plan(&sheet) {
        Ok(v) => v,
        Err(e) => {
            return Err(e);
        },
    };
    proof {
        crate::laws::lemma_plan_tables_ok(sheet);
    }
    let mut w = ws_new();
    let mut i: usize = 0;
    proof {
        assert(ops@.take(0) =~= Seq::<EmitOp>::empty());
        assert(planned_tables(Seq::<EmitOp>::empty()) =~= Seq::<(u32, u16, u32, u16)>::empty());
        assert(writes_of_ops(ops@.take(0)) =~= Seq::<SinkWrite>::empty());
    }
    while i < ops.len()
        invariant
            i <= ops.len(),
            ws_tables_clean(w),
            ws_table_ranges(w) == planned_tables(ops@.take(i as int)),
            ws_writes(w) == writes_of_ops(ops@.take(i as int)),
        decreases ops.len() - i,
    {
        proof {
            assert(ops@.take(i as int + 1) =~= ops@.take(i as int).push(ops@[i as int]));
            lemma_planned_tables_push(ops@.take(i as int), ops@[i as int]);
            assert(writes_of_ops(ops@.take(i as int + 1))
                =~= writes_of_ops(ops@.take(i as int)).push(write_of_op(ops@[i as int])));
        }
        match apply_op(&ops[i], &mut w) {
            Ok(_) => {},
            Err(e) => {
                return Err(e);
            },
        }
        i = i + 1;
    }
    proof {
        assert(ops@.take(ops@.len() as int) =~= ops@);
    }
    Ok(w)
}

} // verus!
