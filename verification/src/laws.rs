//! The properties the pipeline guarantees, stated and proved once over the
//! spec functions that the builder, planner and emitter are contracted to.

use vstd::prelude::*;
use crate::record::{FieldName, RecValue};
use crate::error::SheetError;
use crate::style::Style;
use crate::cell::{Cell, CellValue, spec_parse_cell};
use crate::array_formula::{ArrayFormula, spec_parse_array_formula};
use crate::cond_format::{CfEntry, CfRule, spec_parse_entry};
use crate::table_spec::{TableSpec, spec_parse_table};
use crate::config::{RowColumnConfig, Axis, spec_parse_config};
use crate::sheet::{Sheet, SheetModel, spec_build, spec_collection, spec_parse_cells, spec_parse_afs, spec_parse_entries, spec_parse_tables, spec_parse_configs};
use crate::plan::{EmitOp, spec_plan, spec_feature_ops, spec_af_op, spec_config_ops, spec_index_ops, spec_span_ops, spec_configs_ops, spec_cells_ops, spec_afs_ops, spec_cfs_ops, spec_tables_ops, spec_table_op, op_ok, all_ops_ok, rule_ok, range_ok, valid_sheet_name, tables_disjoint, tables_overlap, ranges_overlap, range_free, planned_tables, ops_tables_ok, lemma_planned_tables_push};
use crate::bounds::{ROW_MAX, COL_MAX, TEXT_MAX};

verus! {

/// A cell the sink accepts, with every style key inside the table.
pub open spec fn cell_wf(c: Cell, nstyles: int) -> bool {
    &&& c.row < ROW_MAX
    &&& c.col < COL_MAX
    &&& (c.value matches CellValue::Text(t) ==> t@.len() <= TEXT_MAX)
    &&& (c.style matches Some(k) ==> k < nstyles)
}

/// An array formula the sink accepts.
pub open spec fn af_wf(af: ArrayFormula, nstyles: int) -> bool {
    &&& range_ok(af.first_row, af.first_col, af.last_row, af.last_col)
    &&& (af.style matches Some(k) ==> k < nstyles)
}

/// A conditional-format entry whose range and keys are in order.
pub open spec fn cfe_wf(e: CfEntry, nstyles: int, nrules: int) -> bool {
    &&& range_ok(e.first_row, e.first_col, e.last_row, e.last_col)
    &&& e.rule < nrules
    &&& (e.style matches Some(k) ==> k < nstyles)
}

/// A table the sink accepts.
pub open spec fn table_wf(t: TableSpec) -> bool {
    &&& range_ok(t.first_row, t.first_col, t.last_row, t.last_col)
    &&& (t.header ==> t.first_row < t.last_row)
}

/// A row/column override whose span and style key are in order.
pub open spec fn config_wf(c: RowColumnConfig, nstyles: int) -> bool {
    &&& c.first_index <= c.last_index
    &&& (c.axis is Row ==> c.last_index < ROW_MAX)
    &&& (c.axis is Column ==> c.last_index < COL_MAX)
    &&& (c.style matches Some(k) ==> k < nstyles)
}

/// A sheet model as the builder delivers it: every feature within the
/// sink's bounds, every interned key resolvable, every rule valid.
pub open spec fn model_wf(m: SheetModel) -> bool {
    &&& forall|i: int| 0 <= i < m.cells.len() ==> cell_wf(#[trigger] m.cells[i], m.styles.len() as int)
    &&& forall|i: int| 0 <= i < m.array_formulas.len() ==> af_wf(#[trigger] m.array_formulas[i], m.styles.len() as int)
    &&& forall|i: int| 0 <= i < m.conditional_formats.len() ==> cfe_wf(#[trigger] m.conditional_formats[i], m.styles.len() as int, m.rules.len() as int)
    &&& forall|i: int| 0 <= i < m.tables.len() ==> table_wf(#[trigger] m.tables[i])
    &&& forall|i: int| 0 <= i < m.row_configs.len() ==> config_wf(#[trigger] m.row_configs[i], m.styles.len() as int) && m.row_configs[i].axis is Row
    &&& forall|i: int| 0 <= i < m.column_configs.len() ==> config_wf(#[trigger] m.column_configs[i], m.styles.len() as int) && m.column_configs[i].axis is Column
    &&& forall|i: int| 0 <= i < m.rules.len() ==> rule_ok(#[trigger] m.rules[i])
}

proof fn lemma_parse_cells_wf(items: Seq<RecValue>, s0: Seq<Style>)
    requires
        spec_parse_cells(items, s0) is Ok,
    ensures
        ({
            let (cs, s1) = spec_parse_cells(items, s0)->Ok_0;
            s0.len() <= s1.len() && forall|i: int| 0 <= i < cs.len() ==> cell_wf(#[trigger] cs[i], s1.len() as int)
        }),
    decreases items.len(),
{
    if items.len() == 0 {
    } else {
        let fields = items[0]->Rec_0;
        let (c, s2) = spec_parse_cell(fields@, s0)->Ok_0;
        lemma_parse_cells_wf(items.drop_first(), s2);
    }
}

proof fn lemma_parse_afs_wf(items: Seq<RecValue>, s0: Seq<Style>)
    requires
        spec_parse_afs(items, s0) is Ok,
    ensures
        ({
            let (afs, s1) = spec_parse_afs(items, s0)->Ok_0;
            s0.len() <= s1.len() && forall|i: int| 0 <= i < afs.len() ==> af_wf(#[trigger] afs[i], s1.len() as int)
        }),
    decreases items.len(),
{
    if items.len() == 0 {
    } else {
        let fields = items[0]->Rec_0;
        let (af, s2) = spec_parse_array_formula(fields@, s0)->Ok_0;
        lemma_parse_afs_wf(items.drop_first(), s2);
    }
}

proof fn lemma_parse_entries_wf(items: Seq<RecValue>, s0: Seq<Style>, ru0: Seq<CfRule>)
    requires
        spec_parse_entries(items, s0, ru0) is Ok,
        forall|i: int| 0 <= i < ru0.len() ==> rule_ok(#[trigger] ru0[i]),
    ensures
        ({
            let (es, s1, ru1) = spec_parse_entries(items, s0, ru0)->Ok_0;
            &&& s0.len() <= s1.len()
            &&& ru0.len() <= ru1.len()
            &&& forall|i: int| 0 <= i < es.len() ==> cfe_wf(#[trigger] es[i], s1.len() as int, ru1.len() as int)
            &&& forall|i: int| 0 <= i < ru1.len() ==> rule_ok(#[trigger] ru1[i])
        }),
    decreases items.len(),
{
    if items.len() == 0 {
    } else {
        let fields = items[0]->Rec_0;
        let (e, s2, ru2) = spec_parse_entry(fields@, s0, ru0)->Ok_0;
        assert(forall|i: int| 0 <= i < ru2.len() ==> rule_ok(#[trigger] ru2[i]));
        lemma_parse_entries_wf(items.drop_first(), s2, ru2);
    }
}

proof fn lemma_parse_tables_wf(items: Seq<RecValue>)
    requires
        spec_parse_tables(items) is Ok,
    ensures
        forall|i: int| 0 <= i < spec_parse_tables(items)->Ok_0.len() ==> table_wf(#[trigger] spec_parse_tables(items)->Ok_0[i]),
    decreases items.len(),
{
    if items.len() == 0 {
    } else {
        lemma_parse_tables_wf(items.drop_first());
    }
}

proof fn lemma_parse_configs_wf(items: Seq<RecValue>, s0: Seq<Style>, axis: Axis)
    requires
        spec_parse_configs(items, s0, axis) is Ok,
    ensures
        ({
            let (cs, s1) = spec_parse_configs(items, s0, axis)->Ok_0;
            s0.len() <= s1.len() && forall|i: int| 0 <= i < cs.len() ==> config_wf(#[trigger] cs[i], s1.len() as int) && cs[i].axis == axis
        }),
    decreases items.len(),
{
    if items.len() == 0 {
    } else {
        let fields = items[0]->Rec_0;
        let (c, s2) = spec_parse_config(fields@, s0, axis)->Ok_0;
        lemma_parse_configs_wf(items.drop_first(), s2, axis);
    }
}

/// A sheet the builder delivers is well formed: every position within the
/// sink's bounds, every interned key resolvable against the final tables,
/// every interned rule valid.
pub proof fn lemma_build_wf(fields: Seq<(FieldName, RecValue)>, m: SheetModel)
    requires
        spec_build(fields) == Ok::<SheetModel, SheetError>(m),
    ensures
        model_wf(m),
{
    let row_items = spec_collection(fields, FieldName::RowConfigs)->Ok_0;
    let (rows, s1) = spec_parse_configs(row_items, Seq::empty(), Axis::Row)->Ok_0;
    lemma_parse_configs_wf(row_items, Seq::empty(), Axis::Row);
    let col_items = spec_collection(fields, FieldName::ColumnConfigs)->Ok_0;
    let (cols, s2) = spec_parse_configs(col_items, s1, Axis::Column)->Ok_0;
    lemma_parse_configs_wf(col_items, s1, Axis::Column);
    let af_items = spec_collection(fields, FieldName::ArrayFormulas)->Ok_0;
    let (afs, s3) = spec_parse_afs(af_items, s2)->Ok_0;
    lemma_parse_afs_wf(af_items, s2);
    let cell_items = spec_collection(fields, FieldName::Cells)->Ok_0;
    let (cells, s4) = spec_parse_cells(cell_items, s3)->Ok_0;
    lemma_parse_cells_wf(cell_items, s3);
    let cf_items = spec_collection(fields, FieldName::ConditionalFormats)->Ok_0;
    let (cfs, s5, rules) = spec_parse_entries(cf_items, s4, Seq::empty())->Ok_0;
    lemma_parse_entries_wf(cf_items, s4, Seq::empty());
    let table_items = spec_collection(fields, FieldName::Tables)->Ok_0;
    lemma_parse_tables_wf(table_items);
}

/// A row/column write.
pub open spec fn is_rowcol_op(op: EmitOp) -> bool {
    op is RowHeight || op is RowFormat || op is RowHidden || op is ColWidth || op is ColFormat
        || op is ColHidden
}

/// One of the four array-formula writes.
pub open spec fn is_af_op(op: EmitOp) -> bool {
    op is StaticFormula || op is StaticFormulaFmt || op is DynamicFormula || op is DynamicFormulaFmt
}

/// A plain cell write.
pub open spec fn is_cell_op(op: EmitOp) -> bool {
    op is CellText || op is CellTextFmt || op is CellNumber || op is CellNumberFmt || op is CellBool
        || op is CellBoolFmt || op is CellFormula || op is CellFormulaFmt || op is CellBlank
}

proof fn lemma_span_ops_kinds(c: RowColumnConfig, format: Option<Style>, idx: int)
    ensures
        forall|i: int| 0 <= i < spec_span_ops(c, format, idx).len() ==> is_rowcol_op(#[trigger] spec_span_ops(c, format, idx)[i]),
    decreases c.last_index + 1 - idx,
{
    if idx < 0 || idx > c.last_index as int {
    } else {
        lemma_span_ops_kinds(c, format, idx + 1);
        let head = spec_index_ops(c, format, idx as u32);
        assert forall|i: int| 0 <= i < spec_span_ops(c, format, idx).len() implies is_rowcol_op(#[trigger] spec_span_ops(c, format, idx)[i]) by {
            if i < head.len() {
                assert(spec_span_ops(c, format, idx)[i] == head[i]);
            } else {
                assert(spec_span_ops(c, format, idx)[i] == spec_span_ops(c, format, idx + 1)[i - head.len()]);
            }
        }
    }
}

proof fn lemma_span_ops_ok(c: RowColumnConfig, format: Option<Style>, idx: int)
    requires
        c.axis is Row ==> c.last_index < ROW_MAX,
        c.axis is Column ==> c.last_index < COL_MAX,
    ensures
        forall|i: int| 0 <= i < spec_span_ops(c, format, idx).len() ==> op_ok(#[trigger] spec_span_ops(c, format, idx)[i]),
    decreases c.last_index + 1 - idx,
{
    if idx < 0 || idx > c.last_index as int {
    } else {
        lemma_span_ops_ok(c, format, idx + 1);
        let head = spec_index_ops(c, format, idx as u32);
        assert forall|i: int| 0 <= i < spec_span_ops(c, format, idx).len() implies op_ok(#[trigger] spec_span_ops(c, format, idx)[i]) by {
            if i < head.len() {
                assert(spec_span_ops(c, format, idx)[i] == head[i]);
            } else {
                assert(spec_span_ops(c, format, idx)[i] == spec_span_ops(c, format, idx + 1)[i - head.len()]);
            }
        }
    }
}

proof fn lemma_config_item_kinds(c: RowColumnConfig, styles: Seq<Style>)
    ensures
        spec_config_ops(c, styles) matches Ok(o) ==> (forall|i: int| 0 <= i < o.len() ==> is_rowcol_op(#[trigger] o[i])),
{
    match c.style {
        Some(k) => {
            if k < styles.len() {
                lemma_span_ops_kinds(c, Some(styles[k as int]), c.first_index as int);
            }
        },
        None => {
            lemma_span_ops_kinds(c, None, c.first_index as int);
        },
    }
}

proof fn lemma_config_item_ok(c: RowColumnConfig, styles: Seq<Style>)
    requires
        config_wf(c, styles.len() as int),
    ensures
        spec_config_ops(c, styles) matches Ok(o) && (forall|i: int| 0 <= i < o.len() ==> op_ok(#[trigger] o[i])),
{
    match c.style {
        Some(k) => {
            lemma_span_ops_ok(c, Some(styles[k as int]), c.first_index as int);
        },
        None => {
            lemma_span_ops_ok(c, None, c.first_index as int);
        },
    }
}

proof fn lemma_configs_ops_shape(cs: Seq<RowColumnConfig>, styles: Seq<Style>)
    ensures
        spec_configs_ops(cs, styles) matches Ok(ops) ==> (forall|i: int| 0 <= i < ops.len() ==> is_rowcol_op(#[trigger] ops[i])),
        spec_configs_ops(cs, styles) matches Err(e) ==> e == SheetError::DanglingReference,
        spec_configs_ops(cs, styles) is Ok ==> (forall|i: int| 0 <= i < cs.len() ==> ((#[trigger] cs[i]).style matches Some(k) ==> k < styles.len())),
    decreases cs.len(),
{
    if cs.len() == 0 {
    } else {
        lemma_configs_ops_shape(cs.drop_first(), styles);
        lemma_config_item_kinds(cs[0], styles);
        match spec_config_ops(cs[0], styles) {
            Ok(o) => match spec_configs_ops(cs.drop_first(), styles) {
                Ok(os) => {
                    assert forall|i: int| 0 <= i < (o + os).len() implies is_rowcol_op(#[trigger] (o + os)[i]) by {
                        if i < o.len() {
                            assert((o + os)[i] == o[i]);
                        } else {
                            assert((o + os)[i] == os[i - o.len()]);
                        }
                    }
                },
                Err(_) => {},
            },
            Err(_) => {},
        }
        if spec_configs_ops(cs, styles) is Ok {
            assert forall|i: int| 0 <= i < cs.len() implies ((#[trigger] cs[i]).style matches Some(k) ==> k < styles.len()) by {
                if i > 0 {
                    assert(cs[i] == cs.drop_first()[i - 1]);
                }
            }
        }
    }
}

proof fn lemma_cells_ops_shape(cs: Seq<Cell>, styles: Seq<Style>)
    ensures
        spec_cells_ops(cs, styles) matches Ok(ops) ==> (forall|i: int| 0 <= i < ops.len() ==> is_cell_op(#[trigger] ops[i])),
        spec_cells_ops(cs, styles) matches Err(e) ==> e == SheetError::DanglingReference,
        spec_cells_ops(cs, styles) is Ok ==> (forall|i: int| 0 <= i < cs.len() ==> ((#[trigger] cs[i]).style matches Some(k) ==> k < styles.len())),
    decreases cs.len(),
{
    if cs.len() == 0 {
    } else {
        lemma_cells_ops_shape(cs.drop_first(), styles);
        if spec_cells_ops(cs, styles) is Ok {
            assert forall|i: int| 0 <= i < cs.len() implies ((#[trigger] cs[i]).style matches Some(k) ==> k < styles.len()) by {
                if i > 0 {
                    assert(cs[i] == cs.drop_first()[i - 1]);
                }
            }
        }
    }
}

proof fn lemma_afs_ops_shape(afs: Seq<ArrayFormula>, styles: Seq<Style>)
    ensures
        spec_afs_ops(afs, styles) matches Ok(ops) ==> (forall|i: int| 0 <= i < ops.len() ==> is_af_op(#[trigger] ops[i])),
        spec_afs_ops(afs, styles) matches Err(e) ==> e == SheetError::DanglingReference,
        spec_afs_ops(afs, styles) is Ok ==> (forall|i: int| 0 <= i < afs.len() ==> ((#[trigger] afs[i]).style matches Some(k) ==> k < styles.len())),
    decreases afs.len(),
{
    if afs.len() == 0 {
    } else {
        lemma_afs_ops_shape(afs.drop_first(), styles);
        if spec_afs_ops(afs, styles) is Ok {
            assert forall|i: int| 0 <= i < afs.len() implies ((#[trigger] afs[i]).style matches Some(k) ==> k < styles.len()) by {
                if i > 0 {
                    assert(afs[i] == afs.drop_first()[i - 1]);
                }
            }
        }
    }
}

proof fn lemma_cfs_ops_shape(es: Seq<CfEntry>, styles: Seq<Style>, rules: Seq<CfRule>)
    ensures
        spec_cfs_ops(es, styles, rules) matches Ok(ops) ==> (forall|i: int| 0 <= i < ops.len() ==> (#[trigger] ops[i]) is CondFormat),
        spec_cfs_ops(es, styles, rules) matches Err(e) ==> e == SheetError::DanglingReference,
        spec_cfs_ops(es, styles, rules) is Ok ==> (forall|i: int| 0 <= i < es.len()
            ==> (#[trigger] es[i]).rule < rules.len() && (es[i].style matches Some(k) ==> k < styles.len())),
    decreases es.len(),
{
    if es.len() == 0 {
    } else {
        lemma_cfs_ops_shape(es.drop_first(), styles, rules);
        if spec_cfs_ops(es, styles, rules) is Ok {
            assert forall|i: int| 0 <= i < es.len() implies (#[trigger] es[i]).rule < rules.len()
                && (es[i].style matches Some(k) ==> k < styles.len()) by {
                if i > 0 {
                    assert(es[i] == es.drop_first()[i - 1]);
                }
            }
        }
    }
}

proof fn lemma_tables_ops_shape(ts: Seq<TableSpec>)
    ensures
        forall|i: int| 0 <= i < spec_tables_ops(ts).len() ==> (#[trigger] spec_tables_ops(ts)[i]) is TableAdd,
    decreases ts.len(),
{
    if ts.len() == 0 {
    } else {
        lemma_tables_ops_shape(ts.drop_first());
    }
}

proof fn lemma_configs_ops_ok(cs: Seq<RowColumnConfig>, styles: Seq<Style>)
    requires
        forall|i: int| 0 <= i < cs.len() ==> config_wf(#[trigger] cs[i], styles.len() as int),
    ensures
        spec_configs_ops(cs, styles) matches Ok(ops) && (forall|i: int| 0 <= i < ops.len() ==> op_ok(#[trigger] ops[i])),
    decreases cs.len(),
{
    if cs.len() == 0 {
    } else {
        assert forall|i: int| 0 <= i < cs.drop_first().len() implies config_wf(#[trigger] cs.drop_first()[i], styles.len() as int) by {
            assert(cs.drop_first()[i] == cs[i + 1]);
        }
        lemma_configs_ops_ok(cs.drop_first(), styles);
        lemma_config_item_ok(cs[0], styles);
        let o = spec_config_ops(cs[0], styles)->Ok_0;
        let os = spec_configs_ops(cs.drop_first(), styles)->Ok_0;
        assert forall|i: int| 0 <= i < (o + os).len() implies op_ok(#[trigger] (o + os)[i]) by {
            if i < o.len() {
                assert((o + os)[i] == o[i]);
            } else {
                assert((o + os)[i] == os[i - o.len()]);
            }
        }
    }
}

proof fn lemma_cells_ops_ok(cs: Seq<Cell>, styles: Seq<Style>)
    requires
        forall|i: int| 0 <= i < cs.len() ==> cell_wf(#[trigger] cs[i], styles.len() as int),
    ensures
        spec_cells_ops(cs, styles) matches Ok(ops) && (forall|i: int| 0 <= i < ops.len() ==> op_ok(#[trigger] ops[i])),
    decreases cs.len(),
{
    if cs.len() == 0 {
    } else {
        lemma_cells_ops_ok(cs.drop_first(), styles);
    }
}

proof fn lemma_afs_ops_ok(afs: Seq<ArrayFormula>, styles: Seq<Style>)
    requires
        forall|i: int| 0 <= i < afs.len() ==> af_wf(#[trigger] afs[i], styles.len() as int),
    ensures
        spec_afs_ops(afs, styles) matches Ok(ops) && (forall|i: int| 0 <= i < ops.len() ==> op_ok(#[trigger] ops[i])),
    decreases afs.len(),
{
    if afs.len() == 0 {
    } else {
        lemma_afs_ops_ok(afs.drop_first(), styles);
    }
}

proof fn lemma_cfs_ops_ok(es: Seq<CfEntry>, styles: Seq<Style>, rules: Seq<CfRule>)
    requires
        forall|i: int| 0 <= i < es.len() ==> cfe_wf(#[trigger] es[i], styles.len() as int, rules.len() as int),
        forall|i: int| 0 <= i < rules.len() ==> rule_ok(#[trigger] rules[i]),
    ensures
        spec_cfs_ops(es, styles, rules) matches Ok(ops) && (forall|i: int| 0 <= i < ops.len() ==> op_ok(#[trigger] ops[i])),
    decreases es.len(),
{
    if es.len() == 0 {
    } else {
        lemma_cfs_ops_ok(es.drop_first(), styles, rules);
    }
}

proof fn lemma_tables_ops_ok(ts: Seq<TableSpec>)
    requires
        forall|i: int| 0 <= i < ts.len() ==> table_wf(#[trigger] ts[i]),
    ensures
        forall|i: int| 0 <= i < spec_tables_ops(ts).len() ==> op_ok(#[trigger] spec_tables_ops(ts)[i]),
    decreases ts.len(),
{
    if ts.len() == 0 {
    } else {
        assert forall|i: int| 0 <= i < ts.drop_first().len() implies table_wf(#[trigger] ts.drop_first()[i]) by {
            assert(ts.drop_first()[i] == ts[i + 1]);
        }
        lemma_tables_ops_ok(ts.drop_first());
        assert forall|i: int| 0 <= i < spec_tables_ops(ts).len() implies op_ok(#[trigger] spec_tables_ops(ts)[i]) by {
            if i > 0 {
                assert(spec_tables_ops(ts)[i] == spec_tables_ops(ts.drop_first())[i - 1]);
            }
        }
    }
}

/// A well-formed sheet with a valid name and pairwise-disjoint table
/// ranges plans completely, and the sink accepts every planned write.
pub proof fn lemma_wf_plan_ok(s: Sheet)
    requires
        model_wf(s@),
        valid_sheet_name(s.name@),
        tables_disjoint(s@.tables),
    ensures
        spec_plan(s) matches Ok(ops) && all_ops_ok(ops),
{
    let m = s@;
    lemma_configs_ops_ok(m.row_configs, m.styles);
    lemma_configs_ops_ok(m.column_configs, m.styles);
    lemma_cfs_ops_ok(m.conditional_formats, m.styles, m.rules);
    lemma_afs_ops_ok(m.array_formulas, m.styles);
    lemma_cells_ops_ok(m.cells, m.styles);
    lemma_tables_ops_ok(m.tables);
    let rows = spec_configs_ops(m.row_configs, m.styles)->Ok_0;
    let cols = spec_configs_ops(m.column_configs, m.styles)->Ok_0;
    let cfs = spec_cfs_ops(m.conditional_formats, m.styles, m.rules)->Ok_0;
    let afs = spec_afs_ops(m.array_formulas, m.styles)->Ok_0;
    let cells = spec_cells_ops(m.cells, m.styles)->Ok_0;
    let tabs = spec_tables_ops(m.tables);
    let feature = rows + cols + cfs + afs + cells + tabs;
    let ops = spec_plan(s)->Ok_0;
    assert(ops == seq![EmitOp::SetName { name: s.name }] + feature);
    assert forall|i: int| 0 <= i < ops.len() implies op_ok(#[trigger] ops[i]) by {
        if i == 0 {
            assert(ops[0] == EmitOp::SetName { name: s.name });
        } else {
            let j = i - 1;
            assert(ops[i] == feature[j]);
        }
    }
}

/// Building a valid sheet record and emitting it succeeds end to end:
/// `build` delivers a sheet whose plan resolves completely, with every
/// write one the sink accepts, so `emit` returns the populated sink. The
/// plan also carries every described feature at its exact position, in the
/// fixed order, by definition of `spec_plan`. A record whose tables overlap
/// pairwise is excluded: the sink rejects the second table of such a pair,
/// and the planner refuses the sheet with a `Range` error instead.
pub proof fn lemma_valid_record_emits(fields: Seq<(FieldName, RecValue)>, s: Sheet)
    requires
        spec_build(fields) == Ok::<SheetModel, SheetError>(s@),
        valid_sheet_name(s.name@),
        tables_disjoint(s@.tables),
    ensures
        spec_plan(s) matches Ok(ops) && all_ops_ok(ops),
{
    lemma_build_wf(fields, s@);
    lemma_wf_plan_ok(s);
}

/// Two equal style descriptions, interned independently, resolve to equal
/// style values at emission, whatever keys they were stored under.
pub proof fn lemma_equal_descriptions_equal_styles(
    desc1: Seq<(FieldName, RecValue)>,
    desc2: Seq<(FieldName, RecValue)>,
    s0: Seq<Style>,
)
    requires
        desc1 == desc2,
        crate::style::spec_parse_format(desc1) is Ok,
    ensures
        ({
            let f1 = crate::style::spec_parse_format(desc1)->Ok_0;
            let s1 = s0.push(f1);
            let f2 = crate::style::spec_parse_format(desc2)->Ok_0;
            let s2 = s1.push(f2);
            s2[s0.len() as int] == s2[s1.len() as int]
        }),
{
}

/// A style or rule key that no interner handed out is dangling somewhere in
/// the sheet.
pub open spec fn has_dangling_ref(m: SheetModel) -> bool {
    ||| exists|i: int| 0 <= i < m.cells.len() && ((#[trigger] m.cells[i]).style matches Some(k) && k >= m.styles.len())
    ||| exists|i: int| 0 <= i < m.array_formulas.len() && ((#[trigger] m.array_formulas[i]).style matches Some(k) && k >= m.styles.len())
    ||| exists|i: int| 0 <= i < m.row_configs.len() && ((#[trigger] m.row_configs[i]).style matches Some(k) && k >= m.styles.len())
    ||| exists|i: int| 0 <= i < m.column_configs.len() && ((#[trigger] m.column_configs[i]).style matches Some(k) && k >= m.styles.len())
    ||| exists|i: int| 0 <= i < m.conditional_formats.len() && ((#[trigger] m.conditional_formats[i]).rule >= m.rules.len()
            || (m.conditional_formats[i].style matches Some(k) && k >= m.styles.len()))
}

/// A sheet holding a key that was never handed out fails to emit with a
/// dangling-reference error, before anything is written; it never resolves
/// to a silent default.
pub proof fn lemma_dangling_reference_fails(s: Sheet)
    requires
        has_dangling_ref(s@),
    ensures
        spec_plan(s) == Err::<Seq<EmitOp>, SheetError>(SheetError::DanglingReference),
{
    let m = s@;
    lemma_configs_ops_shape(m.row_configs, m.styles);
    lemma_configs_ops_shape(m.column_configs, m.styles);
    lemma_cfs_ops_shape(m.conditional_formats, m.styles, m.rules);
    lemma_afs_ops_shape(m.array_formulas, m.styles);
    lemma_cells_ops_shape(m.cells, m.styles);
    if spec_feature_ops(m) is Ok {
        assert(false);
    }
}

/// Emission selects the array-formula write variant from the two orthogonal
/// flags alone: static and unformatted, static and formatted, dynamic and
/// unformatted, dynamic and formatted each route to their own sink call.
pub proof fn lemma_af_variant_selection(af: ArrayFormula, styles: Seq<Style>)
    requires
        af.style matches Some(k) ==> k < styles.len(),
    ensures
        spec_af_op(af, styles) matches Ok(op) && ({
            &&& (!af.dynamic && af.style is None <==> op is StaticFormula)
            &&& (!af.dynamic && af.style is Some <==> op is StaticFormulaFmt)
            &&& (af.dynamic && af.style is None <==> op is DynamicFormula)
            &&& (af.dynamic && af.style is Some <==> op is DynamicFormulaFmt)
        }),
{
}

/// An ill-ordered range fails the build with a `Range` error — it never
/// reaches the emitter. Stated for array formulas and tables over any
/// record whose range fields parse.
pub proof fn lemma_ill_ordered_range_rejected(fields: Seq<(FieldName, RecValue)>, styles: Seq<Style>)
    requires
        crate::bounds::spec_parse_row(fields, FieldName::FirstRow) is Ok,
        crate::bounds::spec_parse_col(fields, FieldName::FirstColumn) is Ok,
        crate::bounds::spec_parse_row(fields, FieldName::LastRow) is Ok,
        crate::bounds::spec_parse_col(fields, FieldName::LastColumn) is Ok,
        crate::bounds::spec_parse_row(fields, FieldName::FirstRow)->Ok_0
            > crate::bounds::spec_parse_row(fields, FieldName::LastRow)->Ok_0,
    ensures
        spec_parse_array_formula(fields, styles) == Err::<(ArrayFormula, Seq<Style>), SheetError>(SheetError::Range),
        crate::style::spec_parse_flag_default(fields, FieldName::Header, true) is Ok
            ==> spec_parse_table(fields) == Err::<TableSpec, SheetError>(SheetError::Range),
{
}

/// In every complete plan the cells are written after every array formula;
/// with `emit`'s guarantee that the returned worksheet's call log is exactly
/// the plan, the sink receives the cell write after the formula write, and
/// its last-write-wins rule makes the plain cell value the final state on an
/// overlapping position.
pub proof fn lemma_cells_written_after_array_formulas(s: Sheet)
    requires
        spec_plan(s) matches Ok(ops),
    ensures
        spec_plan(s) matches Ok(ops) ==> (forall|i: int, j: int|
            0 <= i < ops.len() && 0 <= j < ops.len() && is_af_op(ops[i]) && is_cell_op(ops[j]) ==> i < j),
{
    let m = s@;
    let ops = spec_plan(s)->Ok_0;
    lemma_configs_ops_shape(m.row_configs, m.styles);
    lemma_configs_ops_shape(m.column_configs, m.styles);
    lemma_cfs_ops_shape(m.conditional_formats, m.styles, m.rules);
    lemma_afs_ops_shape(m.array_formulas, m.styles);
    lemma_cells_ops_shape(m.cells, m.styles);
    lemma_tables_ops_shape(m.tables);
    let rows = spec_configs_ops(m.row_configs, m.styles)->Ok_0;
    let cols = spec_configs_ops(m.column_configs, m.styles)->Ok_0;
    let cfs = spec_cfs_ops(m.conditional_formats, m.styles, m.rules)->Ok_0;
    let afs = spec_afs_ops(m.array_formulas, m.styles)->Ok_0;
    let cells = spec_cells_ops(m.cells, m.styles)->Ok_0;
    let tabs = spec_tables_ops(m.tables);
    let start_afs = 1 + rows.len() + cols.len() + cfs.len();
    let start_cells = start_afs + afs.len();
    assert(ops == seq![EmitOp::SetName { name: s.name }] + (rows + cols + cfs + afs + cells + tabs));
    assert forall|i: int, j: int|
        0 <= i < ops.len() && 0 <= j < ops.len() && is_af_op(ops[i]) && is_cell_op(ops[j]) implies i < j by {
        assert(start_afs <= i < start_cells) by {
            if i == 0 {
            } else if i < 1 + rows.len() {
                assert(ops[i] == rows[i - 1]);
            } else if i < 1 + rows.len() + cols.len() {
                assert(ops[i] == cols[i - 1 - rows.len()]);
            } else if i < start_afs {
                assert(ops[i] == cfs[i - 1 - rows.len() - cols.len()]);
            } else if i < start_cells {
            } else if i < start_cells + cells.len() {
                assert(ops[i] == cells[i - start_cells]);
            } else {
                assert(ops[i] == tabs[i - start_cells - cells.len()]);
            }
        }
        assert(start_cells <= j) by {
            if j == 0 {
            } else if j < 1 + rows.len() {
                assert(ops[j] == rows[j - 1]);
            } else if j < 1 + rows.len() + cols.len() {
                assert(ops[j] == cols[j - 1 - rows.len()]);
            } else if j < start_afs {
                assert(ops[j] == cfs[j - 1 - rows.len() - cols.len()]);
            } else if j < start_cells {
                assert(ops[j] == afs[j - start_afs]);
            } else {
            }
        }
    }
}

proof fn lemma_planned_none(s: Seq<EmitOp>)
    requires
        forall|i: int| 0 <= i < s.len() ==> !((#[trigger] s[i]) is TableAdd),
    ensures
        planned_tables(s) == Seq::<(u32, u16, u32, u16)>::empty(),
    decreases s.len(),
{
    if s.len() == 0 {
        assert(planned_tables(s) =~= Seq::<(u32, u16, u32, u16)>::empty());
    } else {
        assert forall|i: int| 0 <= i < s.drop_first().len() implies !((#[trigger] s.drop_first()[i]) is TableAdd) by {
            assert(s.drop_first()[i] == s[i + 1]);
        }
        lemma_planned_none(s.drop_first());
    }
}

proof fn lemma_tables_ops_elems(ts: Seq<TableSpec>)
    ensures
        spec_tables_ops(ts).len() == ts.len(),
        forall|k: int| 0 <= k < ts.len() ==> spec_tables_ops(ts)[k] == spec_table_op(#[trigger] ts[k]),
    decreases ts.len(),
{
    if ts.len() == 0 {
    } else {
        lemma_tables_ops_elems(ts.drop_first());
        assert forall|k: int| 0 <= k < ts.len() implies spec_tables_ops(ts)[k] == spec_table_op(#[trigger] ts[k]) by {
            if k > 0 {
                assert(spec_tables_ops(ts)[k] == spec_tables_ops(ts.drop_first())[k - 1]);
                assert(ts.drop_first()[k - 1] == ts[k]);
            }
        }
    }
}

proof fn lemma_planned_prefix_of_tables(ts: Seq<TableSpec>, k: int)
    requires
        0 <= k <= ts.len(),
    ensures
        planned_tables(spec_tables_ops(ts).take(k)).len() == k,
        forall|m: int| 0 <= m < k ==> planned_tables(spec_tables_ops(ts).take(k))[m]
            == ((#[trigger] ts[m]).first_row, ts[m].first_col, ts[m].last_row, ts[m].last_col),
    decreases k,
{
    lemma_tables_ops_elems(ts);
    if k == 0 {
        assert(spec_tables_ops(ts).take(0) =~= Seq::<EmitOp>::empty());
        assert(planned_tables(Seq::<EmitOp>::empty()) =~= Seq::<(u32, u16, u32, u16)>::empty());
    } else {
        lemma_planned_prefix_of_tables(ts, k - 1);
        let tops = spec_tables_ops(ts);
        assert(tops.take(k) =~= tops.take(k - 1).push(tops[k - 1]));
        assert(tops[k - 1] == spec_table_op(ts[k - 1]));
        lemma_planned_tables_push(tops.take(k - 1), tops[k - 1]);
        assert(planned_tables(tops.take(k)) == planned_tables(tops.take(k - 1)).push(
            (ts[k - 1].first_row, ts[k - 1].first_col, ts[k - 1].last_row, ts[k - 1].last_col),
        ));
        assert forall|m: int| 0 <= m < k implies planned_tables(tops.take(k))[m]
            == ((#[trigger] ts[m]).first_row, ts[m].first_col, ts[m].last_row, ts[m].last_col) by {
            if m < k - 1 {
                assert(planned_tables(tops.take(k))[m] == planned_tables(tops.take(k - 1))[m]);
            }
        }
    }
}

/// In every plan the planner returns, each table write lands on cells free
/// of every earlier table write: the planner refuses a sheet whose tables
/// overlap before planning anything.
pub proof fn lemma_plan_tables_ok(s: Sheet)
    requires
        spec_plan(s) is Ok,
    ensures
        ops_tables_ok(spec_plan(s)->Ok_0),
{
    let m = s@;
    let ops = spec_plan(s)->Ok_0;
    lemma_configs_ops_shape(m.row_configs, m.styles);
    lemma_configs_ops_shape(m.column_configs, m.styles);
    lemma_cfs_ops_shape(m.conditional_formats, m.styles, m.rules);
    lemma_afs_ops_shape(m.array_formulas, m.styles);
    lemma_cells_ops_shape(m.cells, m.styles);
    lemma_tables_ops_elems(m.tables);
    let rows = spec_configs_ops(m.row_configs, m.styles)->Ok_0;
    let cols = spec_configs_ops(m.column_configs, m.styles)->Ok_0;
    let cfs = spec_cfs_ops(m.conditional_formats, m.styles, m.rules)->Ok_0;
    let afs = spec_afs_ops(m.array_formulas, m.styles)->Ok_0;
    let cells = spec_cells_ops(m.cells, m.styles)->Ok_0;
    let tabs = spec_tables_ops(m.tables);
    let prefix = seq![EmitOp::SetName { name: s.name }] + rows + cols + cfs + afs + cells;
    assert(ops =~= prefix + tabs);
    assert forall|i: int| 0 <= i < prefix.len() implies !((#[trigger] prefix[i]) is TableAdd) by {
        if i == 0 {
        } else if i < 1 + rows.len() {
            assert(prefix[i] == rows[i - 1]);
        } else if i < 1 + rows.len() + cols.len() {
            assert(prefix[i] == cols[i - 1 - rows.len()]);
        } else if i < 1 + rows.len() + cols.len() + cfs.len() {
            assert(prefix[i] == cfs[i - 1 - rows.len() - cols.len()]);
        } else if i < 1 + rows.len() + cols.len() + cfs.len() + afs.len() {
            assert(prefix[i] == afs[i - 1 - rows.len() - cols.len() - cfs.len()]);
        } else {
            assert(prefix[i] == cells[i - 1 - rows.len() - cols.len() - cfs.len() - afs.len()]);
        }
    }
    lemma_planned_none(prefix);
    assert forall|i: int| 0 <= i < ops.len() implies ((#[trigger] ops[i]) matches EmitOp::TableAdd { first_row, first_col, last_row, last_col, header }
        ==> range_free(planned_tables(ops.take(i)), first_row, first_col, last_row, last_col)) by {
        match ops[i] {
            EmitOp::TableAdd { first_row, first_col, last_row, last_col, header } => {
                assert(i >= prefix.len());
                let k = i - prefix.len();
                assert(ops[i] == tabs[k]);
                assert(ops.take(i) =~= prefix + tabs.take(k));
                lemma_planned_concat(prefix, tabs.take(k));
                lemma_planned_prefix_of_tables(m.tables, k);
                let planned = planned_tables(ops.take(i));
                assert(planned =~= planned_tables(tabs.take(k)));
                assert forall|m2: int| 0 <= m2 < planned.len() implies !ranges_overlap(
                    #[trigger] planned[m2],
                    (first_row, first_col, last_row, last_col),
                ) by {
                    assert(!tables_overlap(m.tables[m2], m.tables[k]));
                    assert(spec_tables_ops(m.tables)[k] == spec_table_op(m.tables[k]));
                }
            },
            _ => {},
        }
    }
}

/// A complete plan is exactly the name write followed by the six feature
/// segments in the fixed order, each feature mapped to its writes with
/// positions and ranges carried unchanged; in particular every table of
/// the sheet appears as exactly one table write over its exact range, in
/// order. With [`lemma_valid_record_emits`] and `emit`'s guarantee that the
/// returned worksheet's call log is exactly the plan's writes, this is the
/// positional round-trip from a valid record into the sink: each described
/// feature reaches the sink exactly once, in the fixed order, and nothing
/// else is written.
pub proof fn lemma_plan_decomposition(s: Sheet)
    requires
        spec_plan(s) is Ok,
    ensures
        ({
            let m = s@;
            &&& spec_configs_ops(m.row_configs, m.styles) is Ok
            &&& spec_configs_ops(m.column_configs, m.styles) is Ok
            &&& spec_cfs_ops(m.conditional_formats, m.styles, m.rules) is Ok
            &&& spec_afs_ops(m.array_formulas, m.styles) is Ok
            &&& spec_cells_ops(m.cells, m.styles) is Ok
            &&& spec_plan(s)->Ok_0 == seq![EmitOp::SetName { name: s.name }]
                + (spec_configs_ops(m.row_configs, m.styles)->Ok_0
                + spec_configs_ops(m.column_configs, m.styles)->Ok_0
                + spec_cfs_ops(m.conditional_formats, m.styles, m.rules)->Ok_0
                + spec_afs_ops(m.array_formulas, m.styles)->Ok_0
                + spec_cells_ops(m.cells, m.styles)->Ok_0
                + spec_tables_ops(m.tables))
            &&& spec_tables_ops(m.tables).len() == m.tables.len()
            &&& forall|k: int| 0 <= k < m.tables.len() ==> spec_tables_ops(m.tables)[k]
                == spec_table_op(#[trigger] m.tables[k])
        }),
{
    lemma_tables_ops_elems(s@.tables);
}

proof fn lemma_planned_concat(a: Seq<EmitOp>, b: Seq<EmitOp>)
    ensures
        planned_tables(a + b) == planned_tables(a) + planned_tables(b),
    decreases a.len(),
{
    if a.len() == 0 {
        assert(a + b =~= b);
        assert(planned_tables(a) =~= Seq::<(u32, u16, u32, u16)>::empty());
        assert(planned_tables(a) + planned_tables(b) =~= planned_tables(b));
    } else {
        assert((a + b)[0] == a[0]);
        assert((a + b).drop_first() =~= a.drop_first() + b);
        lemma_planned_concat(a.drop_first(), b);
        match a[0] {
            EmitOp::TableAdd { first_row, first_col, last_row, last_col, header } => {
                assert(seq![(first_row, first_col, last_row, last_col)] + (planned_tables(a.drop_first()) + planned_tables(b))
                    =~= (seq![(first_row, first_col, last_row, last_col)] + planned_tables(a.drop_first())) + planned_tables(b));
            },
            _ => {},
        }
    }
}

/// A sheet record whose table collection is absent and one whose table
/// collection is present but empty both build with zero tables, and a sheet
/// with zero tables plans zero table writes.
pub proof fn lemma_zero_tables(fields: Seq<(FieldName, RecValue)>, s: Sheet)
    requires
        spec_collection(fields, FieldName::Tables) == Ok::<Seq<RecValue>, SheetError>(Seq::<RecValue>::empty()),
        spec_build(fields) == Ok::<SheetModel, SheetError>(s@),
    ensures
        s@.tables.len() == 0,
        spec_plan(s) matches Ok(ops) ==> (forall|i: int| 0 <= i < ops.len() ==> !((#[trigger] ops[i]) is TableAdd)),
{
    let m = s@;
    if spec_plan(s) is Ok {
        let ops = spec_plan(s)->Ok_0;
        lemma_configs_ops_shape(m.row_configs, m.styles);
        lemma_configs_ops_shape(m.column_configs, m.styles);
        lemma_cfs_ops_shape(m.conditional_formats, m.styles, m.rules);
        lemma_afs_ops_shape(m.array_formulas, m.styles);
        lemma_cells_ops_shape(m.cells, m.styles);
        let rows = spec_configs_ops(m.row_configs, m.styles)->Ok_0;
        let cols = spec_configs_ops(m.column_configs, m.styles)->Ok_0;
        let cfs = spec_cfs_ops(m.conditional_formats, m.styles, m.rules)->Ok_0;
        let afs = spec_afs_ops(m.array_formulas, m.styles)->Ok_0;
        let cells = spec_cells_ops(m.cells, m.styles)->Ok_0;
        let tabs = spec_tables_ops(m.tables);
        assert(tabs.len() == 0);
        assert(ops == seq![EmitOp::SetName { name: s.name }] + (rows + cols + cfs + afs + cells + tabs));
        assert forall|i: int| 0 <= i < ops.len() implies !((#[trigger] ops[i]) is TableAdd) by {
            if i == 0 {
            } else if i < 1 + rows.len() {
                assert(ops[i] == rows[i - 1]);
            } else if i < 1 + rows.len() + cols.len() {
                assert(ops[i] == cols[i - 1 - rows.len()]);
            } else if i < 1 + rows.len() + cols.len() + cfs.len() {
                assert(ops[i] == cfs[i - 1 - rows.len() - cols.len()]);
            } else if i < 1 + rows.len() + cols.len() + cfs.len() + afs.len() {
                assert(ops[i] == afs[i - 1 - rows.len() - cols.len() - cfs.len()]);
            } else {
                assert(ops[i] == cells[i - 1 - rows.len() - cols.len() - cfs.len() - afs.len()]);
            }
        }
    }
}

} // verus!
