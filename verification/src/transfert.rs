//! The decisions of the migration steps, one module per step.

pub mod res_partner_18_fields_to_19_properties;
