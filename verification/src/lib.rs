//! A verified sheet materialization pipeline.
//!
//! A host supplies a weakly typed description of one worksheet: cells, array
//! formulas, conditional formats, tables and row/column overrides, each with
//! optional style descriptions. `build` validates that tree into a strongly
//! typed [`sheet::Sheet`], interning every style and rule description under an
//! integer key, and `emit` writes the sheet into a worksheet sink in the fixed
//! order that the target file format's last-write-wins semantics require.

pub mod record;
pub mod error;
pub mod style;
pub mod bounds;
pub mod interner;
pub mod cond_format;
pub mod cell;
pub mod array_formula;
pub mod table_spec;
pub mod config;
pub mod sheet;
pub mod plan;
pub mod sink;
pub mod emit;
pub mod laws;
