//! Leads (`crm.lead`).

use vstd::prelude::*;

use crate::utils::{strings_from, text_is, texts_view};

verus! {

/// The Odoo model of leads.
pub const CRM_LEAD_MODEL_NAME: &'static str = "crm.lead";

/// Whether a lead is a lead or an opportunity.
#[derive(Debug, Clone, Copy, PartialEq, Eq, Structural, PartialOrd, Ord, Hash)]
pub enum TypeCrmLead {
    Lead,
    Opportunity,
}

impl TypeCrmLead {
    /// The position of the value in declaration order.
    pub open spec fn spec_position(self) -> int {
        match self {
            TypeCrmLead::Lead => 0,
            TypeCrmLead::Opportunity => 1,
        }
    }

    /// The labels that Odoo shows, in declaration order.
    pub open spec fn spec_labels() -> Seq<Seq<char>> {
        seq!["Lead"@, "Opportunity"@]
    }

    /// The label that Odoo shows for the value.
    pub open spec fn spec_display(self) -> Seq<char> {
        TypeCrmLead::spec_labels()[self.spec_position()]
    }

    /// The key under which Odoo stores the value.
    pub open spec fn spec_selection_key(self) -> Seq<char> {
        match self {
            TypeCrmLead::Lead => "lead"@,
            TypeCrmLead::Opportunity => "opportunity"@,
        }
    }

    /// The value stored under `key`, if any.
    pub open spec fn spec_from_selection_key(key: Seq<char>) -> Option<TypeCrmLead> {
        if key == "lead"@ {
            Some(TypeCrmLead::Lead)
        } else if key == "opportunity"@ {
            Some(TypeCrmLead::Opportunity)
        } else {
            None
        }
    }

    /// The position of the value in declaration order.
    fn position(&self) -> (res: usize)
        ensures
            res == self.spec_position(),
            res < 2,
    {
        match self {
            TypeCrmLead::Lead => 0,
            TypeCrmLead::Opportunity => 1,
        }
    }

    /// The label that Odoo shows for the value.
    pub fn to_display_string(&self) -> (res: String)
        ensures
            res@ == self.spec_display(),
    {
        let labels: [&str; 2] = ["Lead", "Opportunity"];
        assert(labels@.map_values(|s: &str| s@) =~= TypeCrmLead::spec_labels());
        labels[self.position()].to_owned()
    }

    /// The key under which Odoo stores the value.
    pub fn selection_key(&self) -> (res: &'static str)
        ensures
            res@ == self.spec_selection_key(),
    {
        match self {
            TypeCrmLead::Lead => "lead",
            TypeCrmLead::Opportunity => "opportunity",
        }
    }

    /// The value stored under `key`, if any.
    pub fn from_selection_key(key: &str) -> (res: Option<TypeCrmLead>)
        ensures
            res == TypeCrmLead::spec_from_selection_key(key@),
    {
        if text_is(key, "lead") {
            Some(TypeCrmLead::Lead)
        } else if text_is(key, "opportunity") {
            Some(TypeCrmLead::Opportunity)
        } else {
            None
        }
    }

    /// Law: the value stored under a value's key is that value, so
    /// values are written and read back unchanged.
    pub proof fn lemma_selection_key_roundtrip(self)
        ensures
            TypeCrmLead::spec_from_selection_key(self.spec_selection_key()) == Some(self),
    {
        reveal_strlit("lead");
        reveal_strlit("opportunity");
        assert("lead"@.len() != "opportunity"@.len());
    }

    /// Law: each value is shown under its Odoo label and stored under its
    /// Odoo key (Lead as "lead", Opportunity as "opportunity"), and a key reads back as exactly the value
    /// stored under it.
    pub proof fn lemma_labels_and_keys()
        ensures
            TypeCrmLead::Lead.spec_display() == "Lead"@,
            TypeCrmLead::Lead.spec_selection_key() == "lead"@,
            TypeCrmLead::Opportunity.spec_display() == "Opportunity"@,
            TypeCrmLead::Opportunity.spec_selection_key() == "opportunity"@,
            forall|key: Seq<char>, v: TypeCrmLead|
                TypeCrmLead::spec_from_selection_key(key) == Some(v) <==> key == v.spec_selection_key(),
    {
        reveal_strlit("lead");
        reveal_strlit("opportunity");
        assert forall|key: Seq<char>, v: TypeCrmLead|
            TypeCrmLead::spec_from_selection_key(key) == Some(v) <==> key == v.spec_selection_key() by {
            v.lemma_selection_key_roundtrip();
        }
    }
}

/// The fields read for an Odoo 18 lead, in declaration order, with `type`
/// last.
pub open spec fn crm_lead_fields_spec() -> Seq<Seq<char>> {
    seq!["id"@, "name"@, "referred"@, "description"@, "active"@, "priority"@, "stage_id"@, "color"@, "expected_revenue"@, "prorated_revenue"@, "recurring_revenue"@, "recurring_revenue_monthly"@, "recurring_revenue_monthly_prorated"@, "recurring_revenue_prorated"@, "date_closed"@, "date_automation_last"@, "date_open"@, "date_conversion"@, "date_deadline"@, "partner_id"@, "type"@]
}

/// The fields read for an Odoo 18 lead: those of the record, then `type`.
pub fn crm_lead_from_odoo_18_fields() -> (res: Vec<String>)
    ensures
        texts_view(res@) == crm_lead_fields_spec(),
{
    let names: [&str; 21] = ["id", "name", "referred", "description", "active", "priority", "stage_id", "color", "expected_revenue", "prorated_revenue", "recurring_revenue", "recurring_revenue_monthly", "recurring_revenue_monthly_prorated", "recurring_revenue_prorated", "date_closed", "date_automation_last", "date_open", "date_conversion", "date_deadline", "partner_id", "type"];
    let res = strings_from(&names);
    assert(names@.map_values(|s: &str| s@) =~= crm_lead_fields_spec());
    res
}

} // verus!
