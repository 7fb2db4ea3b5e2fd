//! Array formulas over a rectangular range, static or dynamic, with an
//! optional interned style.

use vstd::prelude::*;
use crate::record::{FieldName, RecValue, spec_get_field, get_field};
use crate::error::{SheetError, ValueKind};
use crate::style::Style;
use crate::interner::{StyleInterner, StyleRef};
use crate::bounds::{spec_parse_row, spec_parse_col, parse_row, parse_col, spec_parse_style, parse_style};

verus! {

/// One array formula, fully validated: a well-ordered range, the formula
/// text, the dynamic flag, and an optional style key.
///
/// The pair of booleans `dynamic` and `style.is_some()` selects one of the
/// sink's four write variants at emission time; the value itself is
/// variant-free.
#[derive(Debug, Clone, PartialEq)]
pub struct ArrayFormula {
    pub first_row: u32,
    pub first_col: u16,
    pub last_row: u32,
    pub last_col: u16,
    pub formula: String,
    pub dynamic: bool,
    pub style: Option<StyleRef>,
}

/// What an array-formula record denotes, and how parsing it changes the
/// interner.
///
/// The four range fields are required in-bounds indices and must satisfy
/// `first <= last` on both axes (else a `Range` error); `Formula` is a
/// required string; `Dynamic` is a required boolean; an optional `Style`
/// description is interned. On failure the interner is unchanged.
pub open spec fn spec_parse_array_formula(fields: Seq<(FieldName, RecValue)>, styles: Seq<Style>) -> Result<(ArrayFormula, Seq<Style>), SheetError> {
    match spec_parse_row(fields, FieldName::FirstRow) {
        Err(e) => Err(e),
        Ok(first_row) => match spec_parse_col(fields, FieldName::FirstColumn) {
            Err(e) => Err(e),
            Ok(first_col) => match spec_parse_row(fields, FieldName::LastRow) {
                Err(e) => Err(e),
                Ok(last_row) => match spec_parse_col(fields, FieldName::LastColumn) {
                    Err(e) => Err(e),
                    Ok(last_col) => if first_row > last_row || first_col > last_col {
                        Err(SheetError::Range)
                    } else {
                        match spec_get_field(fields, FieldName::Formula) {
                            None => Err(SheetError::MissingField(FieldName::Formula)),
                            Some(RecValue::Str(formula)) => match spec_get_field(fields, FieldName::Dynamic) {
                                None => Err(SheetError::MissingField(FieldName::Dynamic)),
                                Some(RecValue::Bool(dynamic)) => match spec_parse_style(fields, styles) {
                                    Err(e) => Err(e),
                                    Ok((style, styles2)) => Ok((
                                        ArrayFormula {
                                            first_row,
                                            first_col,
                                            last_row,
                                            last_col,
                                            formula,
                                            dynamic,
                                            style,
                                        },
                                        styles2,
                                    )),
                                },
                                Some(_) => Err(SheetError::TypeMismatch(FieldName::Dynamic, ValueKind::Bool)),
                            },
                            Some(_) => Err(SheetError::TypeMismatch(FieldName::Formula, ValueKind::Str)),
                        }
                    },
                },
            },
        },
    }
}

/// Validates one array-formula record, interning its style description.
pub fn parse_array_formula(fields: &Vec<(FieldName, RecValue)>, styles: &mut StyleInterner) -> (r: Result<ArrayFormula, SheetError>)
    ensures
        match spec_parse_array_formula(fields@, old(styles)@) {
            Ok((af, s)) => r == Ok::<ArrayFormula, SheetError>(af) && final(styles)@ == s,
            Err(e) => r == Err::<ArrayFormula, SheetError>(e) && final(styles)@ == old(styles)@,
        },
{
    let first_row = match parse_row(fields, FieldName::FirstRow) {
        Ok(v) => v,
        Err(e) => { return Err(e); },
    };
    let first_col = match parse_col(fields, FieldName::FirstColumn) {
        Ok(v) => v,
        Err(e) => { return Err(e); },
    };
    let last_row = match parse_row(fields, FieldName::LastRow) {
        Ok(v) => v,
        Err(e) => { return Err(e); },
    };
    let last_col = match parse_col(fields, FieldName::LastColumn) {
        Ok(v) => v,
        Err(e) => { return Err(e); },
    };
    if first_row > last_row || first_col > last_col {
        return Err(SheetError::Range);
    }
    let formula = match get_field(fields, FieldName::Formula) {
        None => { return Err(SheetError::MissingField(FieldName::Formula)); },
        Some(RecValue::Str(f)) => f.clone(),
        Some(_) => { return Err(SheetError::TypeMismatch(FieldName::Formula, ValueKind::Str)); },
    };
    let dynamic = match get_field(fields, FieldName::Dynamic) {
        None => { return Err(SheetError::MissingField(FieldName::Dynamic)); },
        Some(RecValue::Bool(b)) => *b,
        Some(_) => { return Err(SheetError::TypeMismatch(FieldName::Dynamic, ValueKind::Bool)); },
    };
    let style = match parse_style(fields, styles) {
        Ok(s) => s,
        Err(e) => { return Err(e); },
    };
    Ok(ArrayFormula { first_row, first_col, last_row, last_col, formula, dynamic, style })
}

} // verus!
