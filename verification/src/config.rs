//! Row and column overrides: size, hidden flag, and an optional interned
//! style applied to a single row or column or to a contiguous span of them.

use vstd::prelude::*;
use crate::record::{FieldName, RecValue, spec_get_field, get_field};
use crate::error::{SheetError, ValueKind};
use crate::style::{Style, spec_parse_flag, parse_flag};
use crate::interner::{StyleInterner, StyleRef};
use crate::bounds::{ROW_MAX, COL_MAX, spec_parse_style, parse_style};

verus! {

/// Which axis a configuration record overrides.
#[derive(Clone, Copy, PartialEq, Eq, Structural, Debug)]
pub enum Axis {
    Row,
    Column,
}

/// One row or column override, fully validated.
///
/// The override applies to every index in `first_index..=last_index`: a
/// record that gives only an index overrides that one row or column, one
/// that gives an index and a last index overrides the whole span. Indices
/// are row indices for [`Axis::Row`] and column indices for
/// [`Axis::Column`]; `size` is a height in points or a width in characters.
#[derive(Debug, Clone, PartialEq)]
pub struct RowColumnConfig {
    pub axis: Axis,
    pub first_index: u32,
    pub last_index: u32,
    pub size: Option<u32>,
    pub hidden: bool,
    pub style: Option<StyleRef>,
}

/// The axis' index bound: rows below `ROW_MAX`, columns below `COL_MAX`.
pub open spec fn spec_axis_bound(axis: Axis) -> int {
    match axis {
        Axis::Row => ROW_MAX as int,
        Axis::Column => COL_MAX as int,
    }
}

/// An optional non-negative size that fits `u32`.
pub open spec fn spec_parse_size(fields: Seq<(FieldName, RecValue)>) -> Result<Option<u32>, SheetError> {
    match spec_get_field(fields, FieldName::Size) {
        None => Ok(None),
        Some(RecValue::Int(v)) => if 0 <= v <= u32::MAX {
            Ok(Some(v as u32))
        } else {
            Err(SheetError::Range)
        },
        Some(_) => Err(SheetError::TypeMismatch(FieldName::Size, ValueKind::Int)),
    }
}

/// The span a configuration record covers: a required `Index`, and an
/// optional `LastIndex` that defaults to the same index. Both must lie
/// below the axis' bound and be well ordered, else the record is a `Range`
/// error.
pub open spec fn spec_parse_span(fields: Seq<(FieldName, RecValue)>, axis: Axis) -> Result<(u32, u32), SheetError> {
    match spec_get_field(fields, FieldName::Index) {
        None => Err(SheetError::MissingField(FieldName::Index)),
        Some(RecValue::Int(v)) => if !(0 <= v < spec_axis_bound(axis)) {
            Err(SheetError::Range)
        } else {
            match spec_get_field(fields, FieldName::LastIndex) {
                None => Ok((v as u32, v as u32)),
                Some(RecValue::Int(w)) => if !(v <= w < spec_axis_bound(axis)) {
                    Err(SheetError::Range)
                } else {
                    Ok((v as u32, w as u32))
                },
                Some(_) => Err(SheetError::TypeMismatch(FieldName::LastIndex, ValueKind::Int)),
            }
        },
        Some(_) => Err(SheetError::TypeMismatch(FieldName::Index, ValueKind::Int)),
    }
}

/// What a row/column configuration record denotes, and how parsing it
/// changes the interner.
///
/// The span follows [`spec_parse_span`]; `Size` is an optional non-negative
/// integer; `Hidden` an optional boolean defaulting to `false`; an optional
/// `Style` description is interned. On failure the interner is unchanged.
pub open spec fn spec_parse_config(fields: Seq<(FieldName, RecValue)>, styles: Seq<Style>, axis: Axis) -> Result<(RowColumnConfig, Seq<Style>), SheetError> {
    match spec_parse_span(fields, axis) {
        Err(e) => Err(e),
        Ok((first_index, last_index)) => match spec_parse_size(fields) {
            Err(e) => Err(e),
            Ok(size) => match spec_parse_flag(fields, FieldName::Hidden) {
                Err(e) => Err(e),
                Ok(hidden) => match spec_parse_style(fields, styles) {
                    Err(e) => Err(e),
                    Ok((style, styles2)) => Ok((
                        RowColumnConfig { axis, first_index, last_index, size, hidden, style },
                        styles2,
                    )),
                },
            },
        },
    }
}

fn parse_span(fields: &Vec<(FieldName, RecValue)>, axis: Axis) -> (r: Result<(u32, u32), SheetError>)
    ensures
        r == spec_parse_span(fields@, axis),
{
    let bound: i64 = match axis {
        Axis::Row => ROW_MAX as i64,
        Axis::Column => COL_MAX as i64,
    };
    let first = match get_field(fields, FieldName::Index) {
        None => {
            return Err(SheetError::MissingField(FieldName::Index));
        },
        Some(RecValue::Int(v)) => {
            if 0 <= *v && *v < bound {
                *v
            } else {
                return Err(SheetError::Range);
            }
        },
        Some(_) => {
            return Err(SheetError::TypeMismatch(FieldName::Index, ValueKind::Int));
        },
    };
    match get_field(fields, FieldName::LastIndex) {
        None => Ok((first as u32, first as u32)),
        Some(RecValue::Int(w)) => {
            if first <= *w && *w < bound {
                Ok((first as u32, *w as u32))
            } else {
                Err(SheetError::Range)
            }
        },
        Some(_) => Err(SheetError::TypeMismatch(FieldName::LastIndex, ValueKind::Int)),
    }
}

/// Validates one row/column configuration record, interning its style.
pub fn parse_config(fields: &Vec<(FieldName, RecValue)>, styles: &mut StyleInterner, axis: Axis) -> (r: Result<RowColumnConfig, SheetError>)
    ensures
        match spec_parse_config(fields@, old(styles)@, axis) {
            Ok((c, s)) => r == Ok::<RowColumnConfig, SheetError>(c) && final(styles)@ == s,
            Err(e) => r == Err::<RowColumnConfig, SheetError>(e) && final(styles)@ == old(styles)@,
        },
{
    let (first_index, last_index) = match parse_span(fields, axis) {
        Ok(p) => p,
        Err(e) => { return Err(e); },
    };
    let size = match get_field(fields, FieldName::Size) {
        None => None,
        Some(RecValue::Int(v)) => {
            if 0 <= *v && *v <= u32::MAX as i64 {
                Some(*v as u32)
            } else {
                return Err(SheetError::Range);
            }
        },
        Some(_) => { return Err(SheetError::TypeMismatch(FieldName::Size, ValueKind::Int)); },
    };
    let hidden = match parse_flag(fields, FieldName::Hidden) {
        Ok(b) => b,
        Err(e) => { return Err(e); },
    };
    let style = match parse_style(fields, styles) {
        Ok(s) => s,
        Err(e) => { return Err(e); },
    };
    Ok(RowColumnConfig { axis, first_index, last_index, size, hidden, style })
}

} // verus!
