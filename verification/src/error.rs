//! The errors that the migration steps of this library report.

use vstd::prelude::*;

use crate::transfert::res_partner_18_fields_to_19_properties::X19PropertyNameParseError;

verus! {

/// The errors of the library's own steps.
#[derive(Debug)]
pub enum MigrationError {
    /// A record that was looked up does not exist.
    NotFound,
    /// A create request returned no identifier.
    NothingCreated,
    /// A regular expression was refused.
    Regex(regex::Error),
    /// No contact property has the given label.
    PropertiesNotFound(String),
    /// A property name given on the command line could not be read.
    X19PropertyNameParseError(X19PropertyNameParseError),
}

} // verus!
