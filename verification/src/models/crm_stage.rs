//! Stages and priorities of the CRM.

use vstd::prelude::*;

use crate::utils::text_is;

verus! {

/// The priority of a lead.
#[derive(Debug, Clone, Copy, PartialEq, Eq, Structural, PartialOrd, Ord, Hash)]
pub enum CrmStagePriorities {
    P0,
    P1,
    P2,
    P3,
}

impl CrmStagePriorities {
    /// The position of the value in declaration order.
    pub open spec fn spec_position(self) -> int {
        match self {
            CrmStagePriorities::P0 => 0,
            CrmStagePriorities::P1 => 1,
            CrmStagePriorities::P2 => 2,
            CrmStagePriorities::P3 => 3,
        }
    }

    /// The labels that Odoo shows, in declaration order.
    pub open spec fn spec_labels() -> Seq<Seq<char>> {
        seq!["Low"@, "Medium"@, "High"@, "Very High"@]
    }

    /// The label that Odoo shows for the value.
    pub open spec fn spec_display(self) -> Seq<char> {
        CrmStagePriorities::spec_labels()[self.spec_position()]
    }

    /// The key under which Odoo stores the value.
    pub open spec fn spec_selection_key(self) -> Seq<char> {
        match self {
            CrmStagePriorities::P0 => "0"@,
            CrmStagePriorities::P1 => "1"@,
            CrmStagePriorities::P2 => "2"@,
            CrmStagePriorities::P3 => "3"@,
        }
    }

    /// The value stored under `key`, if any.
    pub open spec fn spec_from_selection_key(key: Seq<char>) -> Option<CrmStagePriorities> {
        if key == "0"@ {
            Some(CrmStagePriorities::P0)
        } else if key == "1"@ {
            Some(CrmStagePriorities::P1)
        } else if key == "2"@ {
            Some(CrmStagePriorities::P2)
        } else if key == "3"@ {
            Some(CrmStagePriorities::P3)
        } else {
            None
        }
    }

    /// The position of the value in declaration order.
    fn position(&self) -> (res: usize)
        ensures
            res == self.spec_position(),
            res < 4,
    {
        match self {
            CrmStagePriorities::P0 => 0,
            CrmStagePriorities::P1 => 1,
            CrmStagePriorities::P2 => 2,
            CrmStagePriorities::P3 => 3,
        }
    }

    /// The label that Odoo shows for the value.
    pub fn to_display_string(&self) -> (res: String)
        ensures
            res@ == self.spec_display(),
    {
        let labels: [&str; 4] = ["Low", "Medium", "High", "Very High"];
        assert(labels@.map_values(|s: &str| s@) =~= CrmStagePriorities::spec_labels());
        labels[self.position()].to_owned()
    }

    /// The key under which Odoo stores the value.
    pub fn selection_key(&self) -> (res: &'static str)
        ensures
            res@ == self.spec_selection_key(),
    {
        match self {
            CrmStagePriorities::P0 => "0",
            CrmStagePriorities::P1 => "1",
            CrmStagePriorities::P2 => "2",
            CrmStagePriorities::P3 => "3",
        }
    }

    /// The value stored under `key`, if any.
    pub fn from_selection_key(key: &str) -> (res: Option<CrmStagePriorities>)
        ensures
            res == CrmStagePriorities::spec_from_selection_key(key@),
    {
        if text_is(key, "0") {
            Some(CrmStagePriorities::P0)
        } else if text_is(key, "1") {
            Some(CrmStagePriorities::P1)
        } else if text_is(key, "2") {
            Some(CrmStagePriorities::P2)
        } else if text_is(key, "3") {
            Some(CrmStagePriorities::P3)
        } else {
            None
        }
    }

    /// Law: the value stored under a value's key is that value, so
    /// values are written and read back unchanged.
    pub proof fn lemma_selection_key_roundtrip(self)
        ensures
            CrmStagePriorities::spec_from_selection_key(self.spec_selection_key()) == Some(self),
    {
        reveal_strlit("0");
        reveal_strlit("1");
        reveal_strlit("2");
        reveal_strlit("3");
        assert("0"@[0] != "1"@[0]);
        assert("0"@[0] != "2"@[0]);
        assert("0"@[0] != "3"@[0]);
        assert("1"@[0] != "2"@[0]);
        assert("1"@[0] != "3"@[0]);
        assert("2"@[0] != "3"@[0]);
    }

    /// Law: each value is shown under its Odoo label and stored under its
    /// Odoo key (P0 as "0", P1 as "1", P2 as "2", P3 as "3"), and a key reads back as exactly the value
    /// stored under it.
    pub proof fn lemma_labels_and_keys()
        ensures
            CrmStagePriorities::P0.spec_display() == "Low"@,
            CrmStagePriorities::P0.spec_selection_key() == "0"@,
            CrmStagePriorities::P1.spec_display() == "Medium"@,
            CrmStagePriorities::P1.spec_selection_key() == "1"@,
            CrmStagePriorities::P2.spec_display() == "High"@,
            CrmStagePriorities::P2.spec_selection_key() == "2"@,
            CrmStagePriorities::P3.spec_display() == "Very High"@,
            CrmStagePriorities::P3.spec_selection_key() == "3"@,
            forall|key: Seq<char>, v: CrmStagePriorities|
                CrmStagePriorities::spec_from_selection_key(key) == Some(v) <==> key == v.spec_selection_key(),
    {
        reveal_strlit("0");
        reveal_strlit("1");
        reveal_strlit("2");
        reveal_strlit("3");
        assert forall|key: Seq<char>, v: CrmStagePriorities|
            CrmStagePriorities::spec_from_selection_key(key) == Some(v) <==> key == v.spec_selection_key() by {
            v.lemma_selection_key_roundtrip();
        }
    }
}
} // verus!
