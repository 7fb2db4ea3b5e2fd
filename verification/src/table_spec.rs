//! Tables over a rectangular range.

use vstd::prelude::*;
use crate::record::{FieldName, RecValue};
use crate::error::SheetError;
use crate::bounds::{spec_parse_row, spec_parse_col, parse_row, parse_col};

verus! {

/// One table, fully validated: a well-ordered range and its header option.
#[derive(Debug, Clone, PartialEq)]
pub struct TableSpec {
    pub first_row: u32,
    pub first_col: u16,
    pub last_row: u32,
    pub last_col: u16,
    pub header: bool,
}

/// What a table record denotes.
///
/// The four range fields are required in-bounds indices with `first <= last`
/// on both axes; `Header` is an optional boolean that defaults to `true`
/// (shown header row). A table whose header is shown must span at least two
/// rows, one for the header and one of data; violating any of these is a
/// `Range` error.
pub open spec fn spec_parse_table(fields: Seq<(FieldName, RecValue)>) -> Result<TableSpec, SheetError> {
    match spec_parse_row(fields, FieldName::FirstRow) {
        Err(e) => Err(e),
        Ok(first_row) => match spec_parse_col(fields, FieldName::FirstColumn) {
            Err(e) => Err(e),
            Ok(first_col) => match spec_parse_row(fields, FieldName::LastRow) {
                Err(e) => Err(e),
                Ok(last_row) => match spec_parse_col(fields, FieldName::LastColumn) {
                    Err(e) => Err(e),
                    Ok(last_col) => match crate::style::spec_parse_flag_default(fields, FieldName::Header, true) {
                        Err(e) => Err(e),
                        Ok(header) => if first_row > last_row || first_col > last_col {
                            Err(SheetError::Range)
                        } else if header && first_row == last_row {
                            Err(SheetError::Range)
                        } else {
                            Ok(TableSpec { first_row, first_col, last_row, last_col, header })
                        },
                    },
                },
            },
        },
    }
}

/// Validates one table record.
pub fn parse_table(fields: &Vec<(FieldName, RecValue)>) -> (r: Result<TableSpec, SheetError>)
    ensures
        r == spec_parse_table(fields@),
{
    let first_row = match parse_row(fields, FieldName::FirstRow) {
        Ok(v) => v,
        Err(e) => { return Err(e); },
    };
    let first_col = match parse_col(fields, FieldName::FirstColumn) {
        Ok(v) => v,
        Err(e) => { return Err(e); },
    };
    let last_row = match parse_row(fields, FieldName::LastRow) {
        Ok(v) => v,
        Err(e) => { return Err(e); },
    };
    let last_col = match parse_col(fields, FieldName::LastColumn) {
        Ok(v) => v,
        Err(e) => { return Err(e); },
    };
    let header = match crate::style::parse_flag_default(fields, FieldName::Header, true) {
        Ok(b) => b,
        Err(e) => { return Err(e); },
    };
    if first_row > last_row || first_col > last_col {
        return Err(SheetError::Range);
    }
    if header && first_row == last_row {
        return Err(SheetError::Range);
    }
    Ok(TableSpec { first_row, first_col, last_row, last_col, header })
}

} // verus!
