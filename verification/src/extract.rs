//! Record extraction: one source document becomes at most one normalized
//! record, by explicit optional-field access with stated defaults.
use vstd::prelude::*;

use crate::errors::MigrationError;
use crate::model::{SourceDoc, Usda};

verus! {

/// Extracts the normalized record from one source document.
///
/// `_id` is required, because it becomes the output identifier: its absence
/// is an extraction failure for this document alone. `product_name` defaults
/// to the empty string when absent. `url` is taken from the first element of
/// `sources` and defaults to the empty string when `sources` is absent,
/// empty, or its first element carries no `url`; later elements are never
/// consulted.
pub fn transform(d: &SourceDoc) -> (r: Result<Usda, MigrationError>)
    ensures
        r is Ok <==> d@.has_id(),
        r is Ok ==> r->Ok_0@ == d@.extracted_record(),
        r is Err ==> r->Err_0 == MigrationError::Extraction,
{
    let id = match &d.id {
        Some(s) => s.clone(),
        None => {
            return Err(MigrationError::Extraction);
        },
    };
    let product_name = match &d.product_name {
        Some(s) => s.clone(),
        None => String::new(),
    };
    let url = match &d.sources {
        Some(entries) => if entries.len() > 0 {
            match &entries[0].url {
                Some(u) => u.clone(),
                None => String::new(),
            }
        } else {
            String::new()
        },
        None => String::new(),
    };
    let record = Usda { id, product_name, url };
    assert(record@ == d@.extracted_record());
    Ok(record)
}

} // verus!
