//! Taxes (`account.tax`).

use vstd::prelude::*;

use crate::utils::text_is;

verus! {

/// The Odoo model of taxes.
pub const ACCOUNT_TAX_MODEL_NAME: &'static str = "account.tax";

/// Where a tax applies.
#[derive(Debug, Clone, Copy, PartialEq, Eq, Structural, PartialOrd, Ord, Hash)]
pub enum TypeTaxUse {
    Sale,
    Purchase,
    /// Neither on sales nor on purchases (Odoo's `none`).
    NoUse,
}

impl TypeTaxUse {
    /// The position of the value in declaration order.
    pub open spec fn spec_position(self) -> int {
        match self {
            TypeTaxUse::Sale => 0,
            TypeTaxUse::Purchase => 1,
            TypeTaxUse::NoUse => 2,
        }
    }

    /// The labels that Odoo shows, in declaration order.
    pub open spec fn spec_labels() -> Seq<Seq<char>> {
        seq!["Sales"@, "Purchases"@, "None"@]
    }

    /// The label that Odoo shows for the value.
    pub open spec fn spec_display(self) -> Seq<char> {
        TypeTaxUse::spec_labels()[self.spec_position()]
    }

    /// The key under which Odoo stores the value.
    pub open spec fn spec_selection_key(self) -> Seq<char> {
        match self {
            TypeTaxUse::Sale => "sale"@,
            TypeTaxUse::Purchase => "purchase"@,
            TypeTaxUse::NoUse => "none"@,
        }
    }

    /// The value stored under `key`, if any.
    pub open spec fn spec_from_selection_key(key: Seq<char>) -> Option<TypeTaxUse> {
        if key == "sale"@ {
            Some(TypeTaxUse::Sale)
        } else if key == "purchase"@ {
            Some(TypeTaxUse::Purchase)
        } else if key == "none"@ {
            Some(TypeTaxUse::NoUse)
        } else {
            None
        }
    }

    /// The position of the value in declaration order.
    fn position(&self) -> (res: usize)
        ensures
            res == self.spec_position(),
            res < 3,
    {
        match self {
            TypeTaxUse::Sale => 0,
            TypeTaxUse::Purchase => 1,
            TypeTaxUse::NoUse => 2,
        }
    }

    /// The label that Odoo shows for the value.
    pub fn to_display_string(&self) -> (res: String)
        ensures
            res@ == self.spec_display(),
    {
        let labels: [&str; 3] = ["Sales", "Purchases", "None"];
        assert(labels@.map_values(|s: &str| s@) =~= TypeTaxUse::spec_labels());
        labels[self.position()].to_owned()
    }

    /// The key under which Odoo stores the value.
    pub fn selection_key(&self) -> (res: &'static str)
        ensures
            res@ == self.spec_selection_key(),
    {
        match self {
            TypeTaxUse::Sale => "sale",
            TypeTaxUse::Purchase => "purchase",
            TypeTaxUse::NoUse => "none",
        }
    }

    /// The value stored under `key`, if any.
    pub fn from_selection_key(key: &str) -> (res: Option<TypeTaxUse>)
        ensures
            res == TypeTaxUse::spec_from_selection_key(key@),
    {
        if text_is(key, "sale") {
            Some(TypeTaxUse::Sale)
        } else if text_is(key, "purchase") {
            Some(TypeTaxUse::Purchase)
        } else if text_is(key, "none") {
            Some(TypeTaxUse::NoUse)
        } else {
            None
        }
    }

    /// Law: the value stored under a value's key is that value, so
    /// values are written and read back unchanged.
    pub proof fn lemma_selection_key_roundtrip(self)
        ensures
            TypeTaxUse::spec_from_selection_key(self.spec_selection_key()) == Some(self),
    {
        reveal_strlit("sale");
        reveal_strlit("purchase");
        reveal_strlit("none");
        assert("sale"@.len() != "purchase"@.len());
        assert("sale"@[0] != "none"@[0]);
        assert("purchase"@.len() != "none"@.len());
    }

    /// Law: each value is shown under its Odoo label and stored under its
    /// Odoo key (Sale as "sale", Purchase as "purchase", NoUse as "none"), and a key reads back as exactly the value
    /// stored under it.
    pub proof fn lemma_labels_and_keys()
        ensures
            TypeTaxUse::Sale.spec_display() == "Sales"@,
            TypeTaxUse::Sale.spec_selection_key() == "sale"@,
            TypeTaxUse::Purchase.spec_display() == "Purchases"@,
            TypeTaxUse::Purchase.spec_selection_key() == "purchase"@,
            TypeTaxUse::NoUse.spec_display() == "None"@,
            TypeTaxUse::NoUse.spec_selection_key() == "none"@,
            forall|key: Seq<char>, v: TypeTaxUse|
                TypeTaxUse::spec_from_selection_key(key) == Some(v) <==> key == v.spec_selection_key(),
    {
        reveal_strlit("sale");
        reveal_strlit("purchase");
        reveal_strlit("none");
        assert forall|key: Seq<char>, v: TypeTaxUse|
            TypeTaxUse::spec_from_selection_key(key) == Some(v) <==> key == v.spec_selection_key() by {
            v.lemma_selection_key_roundtrip();
        }
    }
}
} // verus!
