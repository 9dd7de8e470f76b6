//! Verified core of the Odoo 18 to Odoo 19 data migration tool.
//!
//! The crate holds the decisions that the migration makes: how records of
//! Odoo 18 become records of Odoo 19, how identifiers are memoised between
//! the two databases, how the batches of a model are paged through, and how
//! names and values given on the command line are normalised.  Talking to the
//! two Odoo servers is left to the program around it.

pub mod batch_update;
pub mod error;
pub mod json;
pub mod models;
pub mod odoo_api_commons;
pub mod pattern;
pub mod transfert;
pub mod utils;

use vstd::prelude::*;

use crate::batch_update::BatchUpdateArg;
use crate::transfert::res_partner_18_fields_to_19_properties::ResPartner18FieldsTo19PropertiesArg;

verus! {

/// The configuration file read when none is given.
pub const DEFAULT_CONF_PATH: &'static str = "default.conf.toml";

/// The number of records per chunk when none is given.
pub const DEFAULT_CHUNK_LIMIT: u32 = 30;

/// The command line.
#[derive(Debug, Clone)]
pub struct Cli {
    /// Records per chunk (never zero).
    pub limit: Option<u32>,
    /// Configuration file
    ///
    /// Defaults to `default.conf.toml` if not set.
    pub configuration_file: Option<String>,
    pub command: Commands,
}

/// The migration steps that can be run.
#[derive(Debug, Clone)]
pub enum Commands {
    SaleOrder,
    CrmLead,
    AccountMove,
    BatchUpdate(BatchUpdateArg),
    SomeDebug,
    ResPartner18FieldsTo19Properties(ResPartner18FieldsTo19PropertiesArg),
}

impl Cli {
    /// The number of records per chunk: the one given, else 30.
    pub fn chunk_limit(&self) -> (res: u32)
        ensures
            res == (match self.limit {
                Some(l) => l,
                None => DEFAULT_CHUNK_LIMIT,
            }),
    {
        match self.limit {
            Some(l) => l,
            None => DEFAULT_CHUNK_LIMIT,
        }
    }

    /// The configuration file to read: the one given, else
    /// `default.conf.toml`.
    pub fn configuration_path(&self) -> (res: String)
        ensures
            res@ == (match self.configuration_file {
                Some(f) => f@,
                None => DEFAULT_CONF_PATH@,
            }),
    {
        match &self.configuration_file {
            Some(f) => f.clone(),
            None => DEFAULT_CONF_PATH.to_owned(),
        }
    }
}

} // verus!
