//! The sink's positional limits and the shared field checks that enforce them.

use vstd::prelude::*;
use crate::record::{FieldName, RecValue, spec_get_field, get_field};
use crate::error::{SheetError, ValueKind};
use crate::style::{Style, spec_parse_format, parse_format};
use crate::interner::{StyleInterner, StyleRef};

verus! {

/// Number of rows a worksheet can hold; row indices are `0..ROW_MAX`.
pub const ROW_MAX: u32 = 1048576;

/// Number of columns a worksheet can hold; column indices are `0..COL_MAX`.
pub const COL_MAX: u16 = 16384;

/// Longest text a cell can hold, in characters.
pub const TEXT_MAX: usize = 32767;

/// A required row index: an integer in `0..ROW_MAX`.
pub open spec fn spec_parse_row(fields: Seq<(FieldName, RecValue)>, name: FieldName) -> Result<u32, SheetError> {
    match spec_get_field(fields, name) {
        None => Err(SheetError::MissingField(name)),
        Some(RecValue::Int(v)) => if 0 <= v < ROW_MAX {
            Ok(v as u32)
        } else {
            Err(SheetError::Range)
        },
        Some(_) => Err(SheetError::TypeMismatch(name, ValueKind::Int)),
    }
}

/// A required column index: an integer in `0..COL_MAX`.
pub open spec fn spec_parse_col(fields: Seq<(FieldName, RecValue)>, name: FieldName) -> Result<u16, SheetError> {
    match spec_get_field(fields, name) {
        None => Err(SheetError::MissingField(name)),
        Some(RecValue::Int(v)) => if 0 <= v < COL_MAX {
            Ok(v as u16)
        } else {
            Err(SheetError::Range)
        },
        Some(_) => Err(SheetError::TypeMismatch(name, ValueKind::Int)),
    }
}

/// Reads a required row index, rejecting out-of-bounds values.
pub fn parse_row(fields: &Vec<(FieldName, RecValue)>, name: FieldName) -> (r: Result<u32, SheetError>)
    ensures
        r == spec_parse_row(fields@, name),
{
    match get_field(fields, name) {
        None => Err(SheetError::MissingField(name)),
        Some(RecValue::Int(v)) => {
            if 0 <= *v && *v < ROW_MAX as i64 {
                Ok(*v as u32)
            } else {
                Err(SheetError::Range)
            }
        },
        Some(_) => Err(SheetError::TypeMismatch(name, ValueKind::Int)),
    }
}

/// Reads a required column index, rejecting out-of-bounds values.
pub fn parse_col(fields: &Vec<(FieldName, RecValue)>, name: FieldName) -> (r: Result<u16, SheetError>)
    ensures
        r == spec_parse_col(fields@, name),
{
    match get_field(fields, name) {
        None => Err(SheetError::MissingField(name)),
        Some(RecValue::Int(v)) => {
            if 0 <= *v && *v < COL_MAX as i64 {
                Ok(*v as u16)
            } else {
                Err(SheetError::Range)
            }
        },
        Some(_) => Err(SheetError::TypeMismatch(name, ValueKind::Int)),
    }
}

/// An optional embedded style description: validated, resolved and interned.
///
/// On success the returned key refers to the format appended to `styles`; on
/// failure `styles` is unchanged.
pub open spec fn spec_parse_style(fields: Seq<(FieldName, RecValue)>, styles: Seq<Style>) -> Result<(Option<StyleRef>, Seq<Style>), SheetError> {
    match spec_get_field(fields, FieldName::Style) {
        None => Ok((None, styles)),
        Some(RecValue::Rec(desc)) => match spec_parse_format(desc@) {
            Ok(f) => Ok((Some(styles.len() as StyleRef), styles.push(f))),
            Err(e) => Err(e),
        },
        Some(_) => Err(SheetError::TypeMismatch(FieldName::Style, ValueKind::Rec)),
    }
}

/// Reads an optional `Style` field and registers its description.
///
/// Call this as the last fallible step of a converter, so that a converter
/// that fails leaves the interner exactly as it found it.
pub fn parse_style(fields: &Vec<(FieldName, RecValue)>, styles: &mut StyleInterner) -> (r: Result<Option<StyleRef>, SheetError>)
    ensures
        match spec_parse_style(fields@, old(styles)@) {
            Ok((k, s)) => r == Ok::<Option<StyleRef>, SheetError>(k) && final(styles)@ == s,
            Err(e) => r == Err::<Option<StyleRef>, SheetError>(e) && final(styles)@ == old(styles)@,
        },
{
    match get_field(fields, FieldName::Style) {
        None => Ok(None),
        Some(RecValue::Rec(desc)) => {
            match parse_format(desc) {
                Ok(f) => Ok(Some(styles.register(f))),
                Err(e) => Err(e),
            }
        },
        Some(_) => Err(SheetError::TypeMismatch(FieldName::Style, ValueKind::Rec)),
    }
}

} // verus!
