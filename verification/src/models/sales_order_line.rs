//! Sales order lines (`sale.order.line`).

use vstd::prelude::*;

use crate::utils::text_is;

verus! {

/// A sales order line that is not a product line.
#[derive(Debug, Clone, Copy, PartialEq, Eq, Structural, PartialOrd, Ord, Hash)]
pub enum DisplayType {
    LineSection,
    LineNote,
}

impl DisplayType {
    /// The position of the value in declaration order.
    pub open spec fn spec_position(self) -> int {
        match self {
            DisplayType::LineSection => 0,
            DisplayType::LineNote => 1,
        }
    }

    /// The labels that Odoo shows, in declaration order.
    pub open spec fn spec_labels() -> Seq<Seq<char>> {
        seq!["Section"@, "Note"@]
    }

    /// The label that Odoo shows for the value.
    pub open spec fn spec_display(self) -> Seq<char> {
        DisplayType::spec_labels()[self.spec_position()]
    }

    /// The key under which Odoo stores the value.
    pub open spec fn spec_selection_key(self) -> Seq<char> {
        match self {
            DisplayType::LineSection => "line_section"@,
            DisplayType::LineNote => "line_note"@,
        }
    }

    /// The value stored under `key`, if any.
    pub open spec fn spec_from_selection_key(key: Seq<char>) -> Option<DisplayType> {
        if key == "line_section"@ {
            Some(DisplayType::LineSection)
        } else if key == "line_note"@ {
            Some(DisplayType::LineNote)
        } else {
            None
        }
    }

    /// The position of the value in declaration order.
    fn position(&self) -> (res: usize)
        ensures
            res == self.spec_position(),
            res < 2,
    {
        match self {
            DisplayType::LineSection => 0,
            DisplayType::LineNote => 1,
        }
    }

    /// The label that Odoo shows for the value.
    pub fn to_display_string(&self) -> (res: String)
        ensures
            res@ == self.spec_display(),
    {
        let labels: [&str; 2] = ["Section", "Note"];
        assert(labels@.map_values(|s: &str| s@) =~= DisplayType::spec_labels());
        labels[self.position()].to_owned()
    }

    /// The key under which Odoo stores the value.
    pub fn selection_key(&self) -> (res: &'static str)
        ensures
            res@ == self.spec_selection_key(),
    {
        match self {
            DisplayType::LineSection => "line_section",
            DisplayType::LineNote => "line_note",
        }
    }

    /// The value stored under `key`, if any.
    pub fn from_selection_key(key: &str) -> (res: Option<DisplayType>)
        ensures
            res == DisplayType::spec_from_selection_key(key@),
    {
        if text_is(key, "line_section") {
            Some(DisplayType::LineSection)
        } else if text_is(key, "line_note") {
            Some(DisplayType::LineNote)
        } else {
            None
        }
    }

    /// Law: the value stored under a value's key is that value, so
    /// values are written and read back unchanged.
    pub proof fn lemma_selection_key_roundtrip(self)
        ensures
            DisplayType::spec_from_selection_key(self.spec_selection_key()) == Some(self),
    {
        reveal_strlit("line_section");
        reveal_strlit("line_note");
        assert("line_section"@.len() != "line_note"@.len());
    }

    /// Law: each value is shown under its Odoo label and stored under its
    /// Odoo key (LineSection as "line_section", LineNote as "line_note"), and a key reads back as exactly the value
    /// stored under it.
    pub proof fn lemma_labels_and_keys()
        ensures
            DisplayType::LineSection.spec_display() == "Section"@,
            DisplayType::LineSection.spec_selection_key() == "line_section"@,
            DisplayType::LineNote.spec_display() == "Note"@,
            DisplayType::LineNote.spec_selection_key() == "line_note"@,
            forall|key: Seq<char>, v: DisplayType|
                DisplayType::spec_from_selection_key(key) == Some(v) <==> key == v.spec_selection_key(),
    {
        reveal_strlit("line_section");
        reveal_strlit("line_note");
        assert forall|key: Seq<char>, v: DisplayType|
            DisplayType::spec_from_selection_key(key) == Some(v) <==> key == v.spec_selection_key() by {
            v.lemma_selection_key_roundtrip();
        }
    }
}

/// The Odoo model of sales order lines.
pub const SALES_ORDER_LINE_MODEL_NAME: &'static str = "sale.order.line";

} // verus!
