//! The sheet builder: one atomic pass from the weakly typed input tree to a
//! fully validated sheet with both interning tables populated.

use vstd::prelude::*;
use crate::record::{FieldName, RecValue, spec_get_field, get_field};
use crate::error::{SheetError, ValueKind};
use crate::style::Style;
use crate::interner::{StyleInterner, CfInterner};
use crate::cell::{Cell, spec_parse_cell, parse_cell};
use crate::array_formula::{ArrayFormula, spec_parse_array_formula, parse_array_formula};
use crate::cond_format::{CfEntry, CfRule, spec_parse_entry, parse_entry};
use crate::table_spec::{TableSpec, spec_parse_table, parse_table};
use crate::config::{RowColumnConfig, Axis, spec_parse_config, parse_config};

verus! {

/// A fully validated sheet, ready for one emission pass.
///
/// The sheet owns every feature collection and both interning tables. Every
/// style or rule key stored in a feature is expected to resolve against the
/// matching table; the emitter checks this and reports a dangling reference
/// rather than writing anything for such a sheet.
#[derive(Debug)]
pub struct Sheet {
    pub name: String,
    pub cells: Vec<Cell>,
    pub conditional_formats: Vec<CfEntry>,
    pub array_formulas: Vec<ArrayFormula>,
    pub row_configs: Vec<RowColumnConfig>,
    pub column_configs: Vec<RowColumnConfig>,
    pub tables: Vec<TableSpec>,
    pub styles: StyleInterner,
    pub rules: CfInterner,
}

/// The mathematical model of a sheet.
pub ghost struct SheetModel {
    pub name: Seq<char>,
    pub cells: Seq<Cell>,
    pub conditional_formats: Seq<CfEntry>,
    pub array_formulas: Seq<ArrayFormula>,
    pub row_configs: Seq<RowColumnConfig>,
    pub column_configs: Seq<RowColumnConfig>,
    pub tables: Seq<TableSpec>,
    pub styles: Seq<Style>,
    pub rules: Seq<CfRule>,
}

impl View for Sheet {
    type V = SheetModel;

    open spec fn view(&self) -> SheetModel {
        SheetModel {
            name: self.name@,
            cells: self.cells@,
            conditional_formats: self.conditional_formats@,
            array_formulas: self.array_formulas@,
            row_configs: self.row_configs@,
            column_configs: self.column_configs@,
            tables: self.tables@,
            styles: self.styles@,
            rules: self.rules@,
        }
    }
}

/// An optional feature collection: absent and present-but-empty are both the
/// empty sequence; any other shape than a list is a mismatch.
pub open spec fn spec_collection(fields: Seq<(FieldName, RecValue)>, name: FieldName) -> Result<Seq<RecValue>, SheetError> {
    match spec_get_field(fields, name) {
        None => Ok(Seq::empty()),
        Some(RecValue::List(items)) => Ok(items@),
        Some(_) => Err(SheetError::TypeMismatch(name, ValueKind::List)),
    }
}

fn get_collection<'a>(fields: &'a Vec<(FieldName, RecValue)>, name: FieldName) -> (r: Result<Option<&'a Vec<RecValue>>, SheetError>)
    ensures
        match r {
            Ok(o) => spec_collection(fields@, name) == Ok::<Seq<RecValue>, SheetError>(opt_items(o)),
            Err(e) => spec_collection(fields@, name) == Err::<Seq<RecValue>, SheetError>(e),
        },
{
    match get_field(fields, name) {
        None => Ok(None),
        Some(RecValue::List(items)) => Ok(Some(items)),
        Some(_) => Err(SheetError::TypeMismatch(name, ValueKind::List)),
    }
}

/// The sequence an optional collection stands for.
pub open spec fn opt_items(o: Option<&Vec<RecValue>>) -> Seq<RecValue> {
    match o {
        Some(v) => v@,
        None => Seq::empty(),
    }
}

/// Folds the cell converter over a collection, threading the interner;
/// the first failing item aborts the fold.
pub open spec fn spec_parse_cells(items: Seq<RecValue>, styles: Seq<Style>) -> Result<(Seq<Cell>, Seq<Style>), SheetError>
    decreases items.len(),
{
    if items.len() == 0 {
        Ok((Seq::empty(), styles))
    } else {
        match items[0] {
            RecValue::Rec(f) => match spec_parse_cell(f@, styles) {
                Ok((c, s2)) => match spec_parse_cells(items.drop_first(), s2) {
                    Ok((cs, s3)) => Ok((seq![c] + cs, s3)),
                    Err(e) => Err(e),
                },
                Err(e) => Err(e),
            },
            _ => Err(SheetError::TypeMismatch(FieldName::Cells, ValueKind::Rec)),
        }
    }
}

#[verifier::loop_isolation(false)]
fn parse_cells(items: Option<&Vec<RecValue>>, styles: &mut StyleInterner) -> (r: Result<Vec<Cell>, SheetError>)
    ensures
        match spec_parse_cells(opt_items(items), old(styles)@) {
            Ok((cs, s)) => r matches Ok(v) && v@ == cs && final(styles)@ == s,
            Err(e) => r matches Err(e2) && e2 == e,
        },
{
    let mut out: Vec<Cell> = Vec::new();
    let items = match items {
        Some(v) => v,
        None => {
            return Ok(out);
        },
    };
    let ghost styles0 = styles@;
    let mut i: usize = 0;
    proof {
        assert(items@.skip(0) =~= items@);
    }
    while i < items.len()
        invariant
            i <= items.len(),
            match spec_parse_cells(items@.skip(i as int), styles@) {
                Ok((cs, s)) => spec_parse_cells(items@, styles0) == Ok::<(Seq<Cell>, Seq<Style>), SheetError>((out@ + cs, s)),
                Err(e) => spec_parse_cells(items@, styles0) == Err::<(Seq<Cell>, Seq<Style>), SheetError>(e),
            },
        decreases items.len() - i,
    {
        proof {
            assert(items@.skip(i as int).len() == items@.len() - i);
            assert(items@.skip(i as int)[0] == items@[i as int]);
            assert(items@.skip(i as int).drop_first() =~= items@.skip(i as int + 1));
        }
        match &items[i] {
            RecValue::Rec(f) => {
                match parse_cell(f, styles) {
                    Ok(c) => {
                        let ghost gc = c;
                        let ghost gout = out@;
                        out.push(c);
                        proof {
                            assert(out@ =~= gout + seq![gc]);
                            match spec_parse_cells(items@.skip(i as int + 1), styles@) {
                                Ok((cs2, s2)) => {
                                    assert(gout + (seq![gc] + cs2) =~= (gout + seq![gc]) + cs2);
                                },
                                Err(_) => {},
                            }
                        }
                    },
                    Err(e) => {
                        return Err(e);
                    },
                }
            },
            _ => {
                return Err(SheetError::TypeMismatch(FieldName::Cells, ValueKind::Rec));
            },
        }
        i = i + 1;
    }
    proof {
        assert(items@.skip(items@.len() as int) =~= Seq::<RecValue>::empty());
        match spec_parse_cells(items@, styles0) {
            Ok((cs, s)) => {
                assert(out@ + Seq::<Cell>::empty() =~= out@);
            },
            Err(_) => {},
        }
    }
    Ok(out)
}

/// Folds the array-formula converter over a collection.
pub open spec fn spec_parse_afs(items: Seq<RecValue>, styles: Seq<Style>) -> Result<(Seq<ArrayFormula>, Seq<Style>), SheetError>
    decreases items.len(),
{
    if items.len() == 0 {
        Ok((Seq::empty(), styles))
    } else {
        match items[0] {
            RecValue::Rec(f) => match spec_parse_array_formula(f@, styles) {
                Ok((af, s2)) => match spec_parse_afs(items.drop_first(), s2) {
                    Ok((afs, s3)) => Ok((seq![af] + afs, s3)),
                    Err(e) => Err(e),
                },
                Err(e) => Err(e),
            },
            _ => Err(SheetError::TypeMismatch(FieldName::ArrayFormulas, ValueKind::Rec)),
        }
    }
}

#[verifier::loop_isolation(false)]
fn parse_afs(items: Option<&Vec<RecValue>>, styles: &mut StyleInterner) -> (r: Result<Vec<ArrayFormula>, SheetError>)
    ensures
        match spec_parse_afs(opt_items(items), old(styles)@) {
            Ok((afs, s)) => r matches Ok(v) && v@ == afs && final(styles)@ == s,
            Err(e) => r matches Err(e2) && e2 == e,
        },
{
    let mut out: Vec<ArrayFormula> = Vec::new();
    let items = match items {
        Some(v) => v,
        None => {
            return Ok(out);
        },
    };
    let ghost styles0 = styles@;
    let mut i: usize = 0;
    proof {
        assert(items@.skip(0) =~= items@);
    }
    while i < items.len()
        invariant
            i <= items.len(),
            match spec_parse_afs(items@.skip(i as int), styles@) {
                Ok((afs, s)) => spec_parse_afs(items@, styles0) == Ok::<(Seq<ArrayFormula>, Seq<Style>), SheetError>((out@ + afs, s)),
                Err(e) => spec_parse_afs(items@, styles0) == Err::<(Seq<ArrayFormula>, Seq<Style>), SheetError>(e),
            },
        decreases items.len() - i,
    {
        proof {
            assert(items@.skip(i as int)[0] == items@[i as int]);
            assert(items@.skip(i as int).drop_first() =~= items@.skip(i as int + 1));
        }
        match &items[i] {
            RecValue::Rec(f) => {
                match parse_array_formula(f, styles) {
                    Ok(af) => {
                        let ghost gaf = af;
                        let ghost gout = out@;
                        out.push(af);
                        proof {
                            assert(out@ =~= gout + seq![gaf]);
                            match spec_parse_afs(items@.skip(i as int + 1), styles@) {
                                Ok((afs2, s2)) => {
                                    assert(gout + (seq![gaf] + afs2) =~= (gout + seq![gaf]) + afs2);
                                },
                                Err(_) => {},
                            }
                        }
                    },
                    Err(e) => {
                        return Err(e);
                    },
                }
            },
            _ => {
                return Err(SheetError::TypeMismatch(FieldName::ArrayFormulas, ValueKind::Rec));
            },
        }
        i = i + 1;
    }
    proof {
        assert(items@.skip(items@.len() as int) =~= Seq::<RecValue>::empty());
        match spec_parse_afs(items@, styles0) {
            Ok((afs, s)) => {
                assert(out@ + Seq::<ArrayFormula>::empty() =~= out@);
            },
            Err(_) => {},
        }
    }
    Ok(out)
}

/// Folds the conditional-format converter over a collection, threading both
/// interners.
pub open spec fn spec_parse_entries(items: Seq<RecValue>, styles: Seq<Style>, rules: Seq<CfRule>) -> Result<(Seq<CfEntry>, Seq<Style>, Seq<CfRule>), SheetError>
    decreases items.len(),
{
    if items.len() == 0 {
        Ok((Seq::empty(), styles, rules))
    } else {
        match items[0] {
            RecValue::Rec(f) => match spec_parse_entry(f@, styles, rules) {
                Ok((e, s2, ru2)) => match spec_parse_entries(items.drop_first(), s2, ru2) {
                    Ok((es, s3, ru3)) => Ok((seq![e] + es, s3, ru3)),
                    Err(err) => Err(err),
                },
                Err(err) => Err(err),
            },
            _ => Err(SheetError::TypeMismatch(FieldName::ConditionalFormats, ValueKind::Rec)),
        }
    }
}

#[verifier::loop_isolation(false)]
fn parse_entries(items: Option<&Vec<RecValue>>, styles: &mut StyleInterner, rules: &mut CfInterner) -> (r: Result<Vec<CfEntry>, SheetError>)
    ensures
        match spec_parse_entries(opt_items(items), old(styles)@, old(rules)@) {
            Ok((es, s, ru)) => r matches Ok(v) && v@ == es && final(styles)@ == s && final(rules)@ == ru,
            Err(e) => r matches Err(e2) && e2 == e,
        },
{
    let mut out: Vec<CfEntry> = Vec::new();
    let items = match items {
        Some(v) => v,
        None => {
            return Ok(out);
        },
    };
    let ghost styles0 = styles@;
    let ghost rules0 = rules@;
    let mut i: usize = 0;
    proof {
        assert(items@.skip(0) =~= items@);
    }
    while i < items.len()
        invariant
            i <= items.len(),
            match spec_parse_entries(items@.skip(i as int), styles@, rules@) {
                Ok((es, s, ru)) => spec_parse_entries(items@, styles0, rules0) == Ok::<(Seq<CfEntry>, Seq<Style>, Seq<CfRule>), SheetError>((out@ + es, s, ru)),
                Err(e) => spec_parse_entries(items@, styles0, rules0) == Err::<(Seq<CfEntry>, Seq<Style>, Seq<CfRule>), SheetError>(e),
            },
        decreases items.len() - i,
    {
        proof {
            assert(items@.skip(i as int)[0] == items@[i as int]);
            assert(items@.skip(i as int).drop_first() =~= items@.skip(i as int + 1));
        }
        match &items[i] {
            RecValue::Rec(f) => {
                match parse_entry(f, styles, rules) {
                    Ok(e) => {
                        let ghost ge = e;
                        let ghost gout = out@;
                        out.push(e);
                        proof {
                            assert(out@ =~= gout + seq![ge]);
                            match spec_parse_entries(items@.skip(i as int + 1), styles@, rules@) {
                                Ok((es2, s2, ru2)) => {
                                    assert(gout + (seq![ge] + es2) =~= (gout + seq![ge]) + es2);
                                },
                                Err(_) => {},
                            }
                        }
                    },
                    Err(e) => {
                        return Err(e);
                    },
                }
            },
            _ => {
                return Err(SheetError::TypeMismatch(FieldName::ConditionalFormats, ValueKind::Rec));
            },
        }
        i = i + 1;
    }
    proof {
        assert(items@.skip(items@.len() as int) =~= Seq::<RecValue>::empty());
        match spec_parse_entries(items@, styles0, rules0) {
            Ok((es, s, ru)) => {
                assert(out@ + Seq::<CfEntry>::empty() =~= out@);
            },
            Err(_) => {},
        }
    }
    Ok(out)
}

/// Folds the table converter over a collection; tables touch no interner.
pub open spec fn spec_parse_tables(items: Seq<RecValue>) -> Result<Seq<TableSpec>, SheetError>
    decreases items.len(),
{
    if items.len() == 0 {
        Ok(Seq::empty())
    } else {
        match items[0] {
            RecValue::Rec(f) => match spec_parse_table(f@) {
                Ok(t) => match spec_parse_tables(items.drop_first()) {
                    Ok(ts) => Ok(seq![t] + ts),
                    Err(e) => Err(e),
                },
                Err(e) => Err(e),
            },
            _ => Err(SheetError::TypeMismatch(FieldName::Tables, ValueKind::Rec)),
        }
    }
}

#[verifier::loop_isolation(false)]
fn parse_tables(items: Option<&Vec<RecValue>>) -> (r: Result<Vec<TableSpec>, SheetError>)
    ensures
        match spec_parse_tables(opt_items(items)) {
            Ok(ts) => r matches Ok(v) && v@ == ts,
            Err(e) => r matches Err(e2) && e2 == e,
        },
{
    let mut out: Vec<TableSpec> = Vec::new();
    let items = match items {
        Some(v) => v,
        None => {
            return Ok(out);
        },
    };
    let mut i: usize = 0;
    proof {
        assert(items@.skip(0) =~= items@);
    }
    while i < items.len()
        invariant
            i <= items.len(),
            match spec_parse_tables(items@.skip(i as int)) {
                Ok(ts) => spec_parse_tables(items@) == Ok::<Seq<TableSpec>, SheetError>(out@ + ts),
                Err(e) => spec_parse_tables(items@) == Err::<Seq<TableSpec>, SheetError>(e),
            },
        decreases items.len() - i,
    {
        proof {
            assert(items@.skip(i as int)[0] == items@[i as int]);
            assert(items@.skip(i as int).drop_first() =~= items@.skip(i as int + 1));
        }
        match &items[i] {
            RecValue::Rec(f) => {
                match parse_table(f) {
                    Ok(t) => {
                        let ghost gt = t;
                        let ghost gout = out@;
                        out.push(t);
                        proof {
                            assert(out@ =~= gout + seq![gt]);
                            match spec_parse_tables(items@.skip(i as int + 1)) {
                                Ok(ts2) => {
                                    assert(gout + (seq![gt] + ts2) =~= (gout + seq![gt]) + ts2);
                                },
                                Err(_) => {},
                            }
                        }
                    },
                    Err(e) => {
                        return Err(e);
                    },
                }
            },
            _ => {
                return Err(SheetError::TypeMismatch(FieldName::Tables, ValueKind::Rec));
            },
        }
        i = i + 1;
    }
    proof {
        assert(items@.skip(items@.len() as int) =~= Seq::<RecValue>::empty());
        match spec_parse_tables(items@) {
            Ok(ts) => {
                assert(out@ + Seq::<TableSpec>::empty() =~= out@);
            },
            Err(_) => {},
        }
    }
    Ok(out)
}

/// Folds the row/column converter over a collection for one axis.
pub open spec fn spec_parse_configs(items: Seq<RecValue>, styles: Seq<Style>, axis: Axis) -> Result<(Seq<RowColumnConfig>, Seq<Style>), SheetError>
    decreases items.len(),
{
    if items.len() == 0 {
        Ok((Seq::empty(), styles))
    } else {
        match items[0] {
            RecValue::Rec(f) => match spec_parse_config(f@, styles, axis) {
                Ok((c, s2)) => match spec_parse_configs(items.drop_first(), s2, axis) {
                    Ok((cs, s3)) => Ok((seq![c] + cs, s3)),
                    Err(e) => Err(e),
                },
                Err(e) => Err(e),
            },
            _ => Err(SheetError::TypeMismatch(
                if axis is Row { FieldName::RowConfigs } else { FieldName::ColumnConfigs },
                ValueKind::Rec,
            )),
        }
    }
}

#[verifier::loop_isolation(false)]
fn parse_configs(items: Option<&Vec<RecValue>>, styles: &mut StyleInterner, axis: Axis) -> (r: Result<Vec<RowColumnConfig>, SheetError>)
    ensures
        match spec_parse_configs(opt_items(items), old(styles)@, axis) {
            Ok((cs, s)) => r matches Ok(v) && v@ == cs && final(styles)@ == s,
            Err(e) => r matches Err(e2) && e2 == e,
        },
{
    let mut out: Vec<RowColumnConfig> = Vec::new();
    let items = match items {
        Some(v) => v,
        None => {
            return Ok(out);
        },
    };
    let ghost styles0 = styles@;
    let mut i: usize = 0;
    proof {
        assert(items@.skip(0) =~= items@);
    }
    while i < items.len()
        invariant
            i <= items.len(),
            match spec_parse_configs(items@.skip(i as int), styles@, axis) {
                Ok((cs, s)) => spec_parse_configs(items@, styles0, axis) == Ok::<(Seq<RowColumnConfig>, Seq<Style>), SheetError>((out@ + cs, s)),
                Err(e) => spec_parse_configs(items@, styles0, axis) == Err::<(Seq<RowColumnConfig>, Seq<Style>), SheetError>(e),
            },
        decreases items.len() - i,
    {
        proof {
            assert(items@.skip(i as int)[0] == items@[i as int]);
            assert(items@.skip(i as int).drop_first() =~= items@.skip(i as int + 1));
        }
        match &items[i] {
            RecValue::Rec(f) => {
                match parse_config(f, styles, axis) {
                    Ok(c) => {
                        let ghost gc = c;
                        let ghost gout = out@;
                        out.push(c);
                        proof {
                            assert(out@ =~= gout + seq![gc]);
                            match spec_parse_configs(items@.skip(i as int + 1), styles@, axis) {
                                Ok((cs2, s2)) => {
                                    assert(gout + (seq![gc] + cs2) =~= (gout + seq![gc]) + cs2);
                                },
                                Err(_) => {},
                            }
                        }
                    },
                    Err(e) => {
                        return Err(e);
                    },
                }
            },
            _ => {
                return Err(SheetError::TypeMismatch(
                    if axis == Axis::Row { FieldName::RowConfigs } else { FieldName::ColumnConfigs },
                    ValueKind::Rec,
                ));
            },
        }
        i = i + 1;
    }
    proof {
        assert(items@.skip(items@.len() as int) =~= Seq::<RecValue>::empty());
        match spec_parse_configs(items@, styles0, axis) {
            Ok((cs, s)) => {
                assert(out@ + Seq::<RowColumnConfig>::empty() =~= out@);
            },
            Err(_) => {},
        }
    }
    Ok(out)
}

/// What `build` returns for a given input tree: the direct statement of the
/// whole sheet schema.
///
/// `Name` is the one required field. Each feature collection is optional and
/// defaults to empty; its items run through the matching converter in a fixed
/// parse order (row configs, column configs, array formulas, cells,
/// conditional formats, tables), populating the two interning tables. The
/// first failure anywhere aborts the build with that error.
pub open spec fn spec_build(fields: Seq<(FieldName, RecValue)>) -> Result<SheetModel, SheetError> {
    match spec_get_field(fields, FieldName::Name) {
        None => Err(SheetError::MissingField(FieldName::Name)),
        Some(RecValue::Str(name)) => match spec_collection(fields, FieldName::RowConfigs) {
            Err(e) => Err(e),
            Ok(row_items) => match spec_parse_configs(row_items, Seq::empty(), Axis::Row) {
                Err(e) => Err(e),
                Ok((row_configs, s1)) => match spec_collection(fields, FieldName::ColumnConfigs) {
                    Err(e) => Err(e),
                    Ok(col_items) => match spec_parse_configs(col_items, s1, Axis::Column) {
                        Err(e) => Err(e),
                        Ok((column_configs, s2)) => match spec_collection(fields, FieldName::ArrayFormulas) {
                            Err(e) => Err(e),
                            Ok(af_items) => match spec_parse_afs(af_items, s2) {
                                Err(e) => Err(e),
                                Ok((array_formulas, s3)) => match spec_collection(fields, FieldName::Cells) {
                                    Err(e) => Err(e),
                                    Ok(cell_items) => match spec_parse_cells(cell_items, s3) {
                                        Err(e) => Err(e),
                                        Ok((cells, s4)) => match spec_collection(fields, FieldName::ConditionalFormats) {
                                            Err(e) => Err(e),
                                            Ok(cf_items) => match spec_parse_entries(cf_items, s4, Seq::empty()) {
                                                Err(e) => Err(e),
                                                Ok((conditional_formats, s5, rules)) => match spec_collection(fields, FieldName::Tables) {
                                                    Err(e) => Err(e),
                                                    Ok(table_items) => match spec_parse_tables(table_items) {
                                                        Err(e) => Err(e),
                                                        Ok(tables) => Ok(SheetModel {
                                                            name: name@,
                                                            cells,
                                                            conditional_formats,
                                                            array_formulas,
                                                            row_configs,
                                                            column_configs,
                                                            tables,
                                                            styles: s5,
                                                            rules,
                                                        }),
                                                    },
                                                },
                                            },
                                        },
                                    },
                                },
                            },
                        },
                    },
                },
            },
        },
        Some(_) => Err(SheetError::TypeMismatch(FieldName::Name, ValueKind::Str)),
    }
}

/// Builds a sheet from the input tree: atomic, all-or-nothing.
///
/// On success the returned sheet is exactly what [`spec_build`] describes; on
/// failure the first error is surfaced and no sheet escapes.
pub fn build(fields: &Vec<(FieldName, RecValue)>) -> (r: Result<Sheet, SheetError>)
    ensures
        match spec_build(fields@) {
            Ok(m) => r matches Ok(s) && s@ == m,
            Err(e) => r matches Err(e2) && e2 == e,
        },
{
    let name = match get_field(fields, FieldName::Name) {
        None => {
            return Err(SheetError::MissingField(FieldName::Name));
        },
        Some(RecValue::Str(n)) => n.clone(),
        Some(_) => {
            return Err(SheetError::TypeMismatch(FieldName::Name, ValueKind::Str));
        },
    };
    let mut styles = StyleInterner::new();
    let mut rules = CfInterner::new();
    let row_items = match get_collection(fields, FieldName::RowConfigs) {
        Ok(o) => o,
        Err(e) => {
            return Err(e);
        },
    };
    let row_configs = match parse_configs(row_items, &mut styles, Axis::Row) {
        Ok(v) => v,
        Err(e) => {
            return Err(e);
        },
    };
    let col_items = match get_collection(fields, FieldName::ColumnConfigs) {
        Ok(o) => o,
        Err(e) => {
            return Err(e);
        },
    };
    let column_configs = match parse_configs(col_items, &mut styles, Axis::Column) {
        Ok(v) => v,
        Err(e) => {
            return Err(e);
        },
    };
    let af_items = match get_collection(fields, FieldName::ArrayFormulas) {
        Ok(o) => o,
        Err(e) => {
            return Err(e);
        },
    };
    let array_formulas = match parse_afs(af_items, &mut styles) {
        Ok(v) => v,
        Err(e) => {
            return Err(e);
        },
    };
    let cell_items = match get_collection(fields, FieldName::Cells) {
        Ok(o) => o,
        Err(e) => {
            return Err(e);
        },
    };
    let cells = match parse_cells(cell_items, &mut styles) {
        Ok(v) => v,
        Err(e) => {
            return Err(e);
        },
    };
    let cf_items = match get_collection(fields, FieldName::ConditionalFormats) {
        Ok(o) => o,
        Err(e) => {
            return Err(e);
        },
    };
    let conditional_formats = match parse_entries(cf_items, &mut styles, &mut rules) {
        Ok(v) => v,
        Err(e) => {
            return Err(e);
        },
    };
    let table_items = match get_collection(fields, FieldName::Tables) {
        Ok(o) => o,
        Err(e) => {
            return Err(e);
        },
    };
    let tables = match parse_tables(table_items) {
        Ok(v) => v,
        Err(e) => {
            return Err(e);
        },
    };
    Ok(Sheet {
        name,
        cells,
        conditional_formats,
        array_formulas,
        row_configs,
        column_configs,
        tables,
        styles,
        rules,
    })
}

} // verus!
