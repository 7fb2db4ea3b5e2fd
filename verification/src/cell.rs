//! Plain cells: position, a typed value, and an optional interned style.

use vstd::prelude::*;
use vstd::string::StrSliceExecFns;
use crate::record::{FieldName, RecValue, spec_get_field, get_field};
use crate::error::{SheetError, ValueKind};
use crate::style::Style;
use crate::interner::{StyleInterner, StyleRef};
use crate::bounds::{TEXT_MAX, spec_parse_row, spec_parse_col, parse_row, parse_col, spec_parse_style, parse_style};

verus! {

/// The closed set of value kinds a cell can hold.
#[derive(Debug, Clone, PartialEq)]
pub enum CellValue {
    Text(String),
    Number(i32),
    Boolean(bool),
    Formula(String),
    Blank,
}

/// One cell of the sheet, fully validated.
#[derive(Debug, Clone, PartialEq)]
pub struct Cell {
    pub row: u32,
    pub col: u16,
    pub value: CellValue,
    pub style: Option<StyleRef>,
}

/// The typed value a cell record denotes.
///
/// A string `Value` is text (at most `TEXT_MAX` characters, else a `Range`
/// error), an integer is a number (it must fit the sink's exact integer
/// range, else `Range`), a boolean is a boolean. A record with no `Value` but
/// a string `Formula` field is a formula cell; one with neither is blank.
pub open spec fn spec_parse_cell_value(fields: Seq<(FieldName, RecValue)>) -> Result<CellValue, SheetError> {
    match spec_get_field(fields, FieldName::Value) {
        Some(RecValue::Str(s)) => if s@.len() <= TEXT_MAX {
            Ok(CellValue::Text(s))
        } else {
            Err(SheetError::Range)
        },
        Some(RecValue::Int(v)) => if i32::MIN <= v <= i32::MAX {
            Ok(CellValue::Number(v as i32))
        } else {
            Err(SheetError::Range)
        },
        Some(RecValue::Bool(b)) => Ok(CellValue::Boolean(b)),
        Some(_) => Err(SheetError::TypeMismatch(FieldName::Value, ValueKind::Str)),
        None => match spec_get_field(fields, FieldName::Formula) {
            Some(RecValue::Str(f)) => Ok(CellValue::Formula(f)),
            Some(_) => Err(SheetError::TypeMismatch(FieldName::Formula, ValueKind::Str)),
            None => Ok(CellValue::Blank),
        },
    }
}

/// What a cell record denotes, and how parsing it changes the interner.
///
/// `Row` and `Column` are required in-bounds indices; the value follows
/// [`spec_parse_cell_value`]; an optional `Style` description is interned.
/// On failure the interner is unchanged.
pub open spec fn spec_parse_cell(fields: Seq<(FieldName, RecValue)>, styles: Seq<Style>) -> Result<(Cell, Seq<Style>), SheetError> {
    match spec_parse_row(fields, FieldName::Row) {
        Err(e) => Err(e),
        Ok(row) => match spec_parse_col(fields, FieldName::Column) {
            Err(e) => Err(e),
            Ok(col) => match spec_parse_cell_value(fields) {
                Err(e) => Err(e),
                Ok(value) => match spec_parse_style(fields, styles) {
                    Err(e) => Err(e),
                    Ok((style, styles2)) => Ok((Cell { row, col, value, style }, styles2)),
                },
            },
        },
    }
}

fn parse_cell_value(fields: &Vec<(FieldName, RecValue)>) -> (r: Result<CellValue, SheetError>)
    ensures
        r == spec_parse_cell_value(fields@),
{
    match get_field(fields, FieldName::Value) {
        Some(RecValue::Str(s)) => {
            if s.as_str().unicode_len() <= TEXT_MAX {
                Ok(CellValue::Text(s.clone()))
            } else {
                Err(SheetError::Range)
            }
        },
        Some(RecValue::Int(v)) => {
            if i32::MIN as i64 <= *v && *v <= i32::MAX as i64 {
                Ok(CellValue::Number(*v as i32))
            } else {
                Err(SheetError::Range)
            }
        },
        Some(RecValue::Bool(b)) => Ok(CellValue::Boolean(*b)),
        Some(_) => Err(SheetError::TypeMismatch(FieldName::Value, ValueKind::Str)),
        None => match get_field(fields, FieldName::Formula) {
            Some(RecValue::Str(f)) => Ok(CellValue::Formula(f.clone())),
            Some(_) => Err(SheetError::TypeMismatch(FieldName::Formula, ValueKind::Str)),
            None => Ok(CellValue::Blank),
        },
    }
}

/// Validates one cell record, interning its style description.
pub fn parse_cell(fields: &Vec<(FieldName, RecValue)>, styles: &mut StyleInterner) -> (r: Result<Cell, SheetError>)
    ensures
        match spec_parse_cell(fields@, old(styles)@) {
            Ok((c, s)) => r == Ok::<Cell, SheetError>(c) && final(styles)@ == s,
            Err(e) => r == Err::<Cell, SheetError>(e) && final(styles)@ == old(styles)@,
        },
{
    let row = match parse_row(fields, FieldName::Row) {
        Ok(v) => v,
        Err(e) => { return Err(e); },
    };
    let col = match parse_col(fields, FieldName::Column) {
        Ok(v) => v,
        Err(e) => { return Err(e); },
    };
    let value = match parse_cell_value(fields) {
        Ok(v) => v,
        Err(e) => { return Err(e); },
    };
    let style = match parse_style(fields, styles) {
        Ok(s) => s,
        Err(e) => { return Err(e); },
    };
    Ok(Cell { row, col, value, style })
}

} // verus!
