//! Errors of shadow-price CSV intake.

use vstd::prelude::*;

verus! {

/// Why a shadow-price CSV file was refused.
#[derive(Clone, Debug)]
pub enum ShadowPriceCsvError {
    CsvSchemaMismatch,
    CsvMalformed(String),
}

} // verus!
