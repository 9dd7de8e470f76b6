//! Finding the Odoo 19 product that an Odoo 18 product name refers to.

use vstd::prelude::*;

use crate::error::MigrationError;
use crate::pattern::{regex_compiles, regex_replace_first};
use crate::utils::{collapse_whitespace, remove_slices_from_string, trim_whitespace_v2, BRACKETED_SLICE_PATTERN};

verus! {

/// The name under which a product is searched in Odoo 19: the Odoo 18 name
/// without its bracketed reference, with whitespace collapsed.
pub fn product_search_name(name: &str) -> (res: Result<String, MigrationError>)
    ensures
        res is Ok <==> regex_compiles(BRACKETED_SLICE_PATTERN@),
        res matches Ok(s) ==> s@ == collapse_whitespace(
            regex_replace_first(BRACKETED_SLICE_PATTERN@, name@, ""@),
        ),
        res matches Err(e) ==> e is Regex,
{
    let without_slices = remove_slices_from_string(name)?;
    Ok(trim_whitespace_v2(without_slices.as_str()))
}

/// The identifier of the first result of a name search, if any.
pub fn first_search_hit(results: &Vec<(u64, String)>) -> (res: Option<u64>)
    ensures
        res == (if results@.len() == 0 {
            None
        } else {
            Some(results@[0].0)
        }),
{
    if results.len() == 0 {
        None
    } else {
        Some(results[0].0)
    }
}

} // verus!
