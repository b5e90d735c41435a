//! Extraction of flat, tabular fact records from XBRL instance documents.
//!
//! The pipeline builds id-keyed indexes from `unit` and `context`
//! declarations, classifies the remaining top-level elements as reportable
//! facts, resolves each fact's unit and context references against the
//! indexes, and projects every fact into a single flat row.

use vstd::prelude::*;

pub mod facts;
pub mod index;
pub mod table;
pub mod text;
pub mod xml;

verus! {

/// The only fatal condition in the pipeline: the input is not well-formed
/// XML, so no element tree exists and no partial output is meaningful.
#[derive(Debug, Clone, PartialEq, Eq)]
pub enum XbrlError {
    DocumentParse,
}

} // verus!
