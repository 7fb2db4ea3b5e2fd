//! The error taxonomy shared by the builder, the interners and the emitter.

use vstd::prelude::*;
use crate::record::FieldName;

verus! {

/// The shape that a schema check expected a field to have.
#[derive(Clone, Copy, PartialEq, Eq, Structural, Debug)]
pub enum ValueKind {
    Str,
    Int,
    Bool,
    List,
    Rec,
}

/// Everything that can go wrong while building or emitting a sheet.
#[derive(Clone, Copy, PartialEq, Eq, Structural, Debug)]
pub enum SheetError {
    /// A required field is absent from an input record.
    MissingField(FieldName),
    /// A field is present but its value has the wrong shape.
    TypeMismatch(FieldName, ValueKind),
    /// A style description is malformed (for example a color out of range).
    Style,
    /// A conditional-format rule description is malformed or incomplete.
    ConditionalFormat,
    /// A style or rule key is used that no interner ever handed out.
    DanglingReference,
    /// A row, column or range is ill-ordered or out of the sink's bounds.
    Range,
    /// The output sink rejected a write.
    Emission,
}

} // verus!
