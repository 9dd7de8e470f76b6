//! Journal items (`account.move.line`).

use vstd::prelude::*;

use crate::utils::text_is;

verus! {

/// The Odoo model of journal items.
pub const ACCOUNT_MOVE_LINE_MODEL_NAME: &'static str = "account.move.line";

/// What a journal item stands for.
#[derive(Debug, Clone, Copy, PartialEq, Eq, Structural, PartialOrd, Ord, Hash)]
pub enum AccountMoveLineDisplayType {
    Product,
    Cogs,
    Tax,
    Discount,
    Rounding,
    PaymentTerm,
    LineSection,
    LineNote,
    Epd,
}

impl AccountMoveLineDisplayType {
    /// The position of the value in declaration order.
    pub open spec fn spec_position(self) -> int {
        match self {
            AccountMoveLineDisplayType::Product => 0,
            AccountMoveLineDisplayType::Cogs => 1,
            AccountMoveLineDisplayType::Tax => 2,
            AccountMoveLineDisplayType::Discount => 3,
            AccountMoveLineDisplayType::Rounding => 4,
            AccountMoveLineDisplayType::PaymentTerm => 5,
            AccountMoveLineDisplayType::LineSection => 6,
            AccountMoveLineDisplayType::LineNote => 7,
            AccountMoveLineDisplayType::Epd => 8,
        }
    }

    /// The labels that Odoo shows, in declaration order.
    pub open spec fn spec_labels() -> Seq<Seq<char>> {
        seq!["Draft"@, "Cost of Goods Sold"@, "Tax"@, "Discount"@, "Rounding"@, "Payment Term"@, "Section"@, "Note"@, "Early Payment Discount"@]
    }

    /// The label that Odoo shows for the value.
    pub open spec fn spec_display(self) -> Seq<char> {
        AccountMoveLineDisplayType::spec_labels()[self.spec_position()]
    }

    /// The key under which Odoo stores the value.
    pub open spec fn spec_selection_key(self) -> Seq<char> {
        match self {
            AccountMoveLineDisplayType::Product => "product"@,
            AccountMoveLineDisplayType::Cogs => "cogs"@,
            AccountMoveLineDisplayType::Tax => "tax"@,
            AccountMoveLineDisplayType::Discount => "discount"@,
            AccountMoveLineDisplayType::Rounding => "rounding"@,
            AccountMoveLineDisplayType::PaymentTerm => "payment_term"@,
            AccountMoveLineDisplayType::LineSection => "line_section"@,
            AccountMoveLineDisplayType::LineNote => "line_note"@,
            AccountMoveLineDisplayType::Epd => "epd"@,
        }
    }

    /// The value stored under `key`, if any.
    pub open spec fn spec_from_selection_key(key: Seq<char>) -> Option<AccountMoveLineDisplayType> {
        if key == "product"@ {
            Some(AccountMoveLineDisplayType::Product)
        } else if key == "cogs"@ {
            Some(AccountMoveLineDisplayType::Cogs)
        } else if key == "tax"@ {
            Some(AccountMoveLineDisplayType::Tax)
        } else if key == "discount"@ {
            Some(AccountMoveLineDisplayType::Discount)
        } else if key == "rounding"@ {
            Some(AccountMoveLineDisplayType::Rounding)
        } else if key == "payment_term"@ {
            Some(AccountMoveLineDisplayType::PaymentTerm)
        } else if key == "line_section"@ {
            Some(AccountMoveLineDisplayType::LineSection)
        } else if key == "line_note"@ {
            Some(AccountMoveLineDisplayType::LineNote)
        } else if key == "epd"@ {
            Some(AccountMoveLineDisplayType::Epd)
        } else {
            None
        }
    }

    /// The position of the value in declaration order.
    fn position(&self) -> (res: usize)
        ensures
            res == self.spec_position(),
            res < 9,
    {
        match self {
            AccountMoveLineDisplayType::Product => 0,
            AccountMoveLineDisplayType::Cogs => 1,
            AccountMoveLineDisplayType::Tax => 2,
            AccountMoveLineDisplayType::Discount => 3,
            AccountMoveLineDisplayType::Rounding => 4,
            AccountMoveLineDisplayType::PaymentTerm => 5,
            AccountMoveLineDisplayType::LineSection => 6,
            AccountMoveLineDisplayType::LineNote => 7,
            AccountMoveLineDisplayType::Epd => 8,
        }
    }

    /// The label that Odoo shows for the value.
    pub fn to_display_string(&self) -> (res: String)
        ensures
            res@ == self.spec_display(),
    {
        let labels: [&str; 9] = ["Draft", "Cost of Goods Sold", "Tax", "Discount", "Rounding", "Payment Term", "Section", "Note", "Early Payment Discount"];
        assert(labels@.map_values(|s: &str| s@) =~= AccountMoveLineDisplayType::spec_labels());
        labels[self.position()].to_owned()
    }

    /// The key under which Odoo stores the value.
    pub fn selection_key(&self) -> (res: &'static str)
        ensures
            res@ == self.spec_selection_key(),
    {
        match self {
            AccountMoveLineDisplayType::Product => "product",
            AccountMoveLineDisplayType::Cogs => "cogs",
            AccountMoveLineDisplayType::Tax => "tax",
            AccountMoveLineDisplayType::Discount => "discount",
            AccountMoveLineDisplayType::Rounding => "rounding",
            AccountMoveLineDisplayType::PaymentTerm => "payment_term",
            AccountMoveLineDisplayType::LineSection => "line_section",
            AccountMoveLineDisplayType::LineNote => "line_note",
            AccountMoveLineDisplayType::Epd => "epd",
        }
    }

    /// The value stored under `key`, if any.
    pub fn from_selection_key(key: &str) -> (res: Option<AccountMoveLineDisplayType>)
        ensures
            res == AccountMoveLineDisplayType::spec_from_selection_key(key@),
    {
        if text_is(key, "product") {
            Some(AccountMoveLineDisplayType::Product)
        } else if text_is(key, "cogs") {
            Some(AccountMoveLineDisplayType::Cogs)
        } else if text_is(key, "tax") {
            Some(AccountMoveLineDisplayType::Tax)
        } else if text_is(key, "discount") {
            Some(AccountMoveLineDisplayType::Discount)
        } else if text_is(key, "rounding") {
            Some(AccountMoveLineDisplayType::Rounding)
        } else if text_is(key, "payment_term") {
            Some(AccountMoveLineDisplayType::PaymentTerm)
        } else if text_is(key, "line_section") {
            Some(AccountMoveLineDisplayType::LineSection)
        } else if text_is(key, "line_note") {
            Some(AccountMoveLineDisplayType::LineNote)
        } else if text_is(key, "epd") {
            Some(AccountMoveLineDisplayType::Epd)
        } else {
            None
        }
    }

    /// Law: the value stored under a value's key is that value, so
    /// values are written and read back unchanged.
    pub proof fn lemma_selection_key_roundtrip(self)
        ensures
            AccountMoveLineDisplayType::spec_from_selection_key(self.spec_selection_key()) == Some(self),
    {
        reveal_strlit("product");
        reveal_strlit("cogs");
        reveal_strlit("tax");
        reveal_strlit("discount");
        reveal_strlit("rounding");
        reveal_strlit("payment_term");
        reveal_strlit("line_section");
        reveal_strlit("line_note");
        reveal_strlit("epd");
        assert("product"@.len() != "cogs"@.len());
        assert("product"@.len() != "tax"@.len());
        assert("product"@.len() != "discount"@.len());
        assert("product"@.len() != "rounding"@.len());
        assert("product"@.len() != "payment_term"@.len());
        assert("product"@.len() != "line_section"@.len());
        assert("product"@.len() != "line_note"@.len());
        assert("product"@.len() != "epd"@.len());
        assert("cogs"@.len() != "tax"@.len());
        assert("cogs"@.len() != "discount"@.len());
        assert("cogs"@.len() != "rounding"@.len());
        assert("cogs"@.len() != "payment_term"@.len());
        assert("cogs"@.len() != "line_section"@.len());
        assert("cogs"@.len() != "line_note"@.len());
        assert("cogs"@.len() != "epd"@.len());
        assert("tax"@.len() != "discount"@.len());
        assert("tax"@.len() != "rounding"@.len());
        assert("tax"@.len() != "payment_term"@.len());
        assert("tax"@.len() != "line_section"@.len());
        assert("tax"@.len() != "line_note"@.len());
        assert("tax"@[0] != "epd"@[0]);
        assert("discount"@[0] != "rounding"@[0]);
        assert("discount"@.len() != "payment_term"@.len());
        assert("discount"@.len() != "line_section"@.len());
        assert("discount"@.len() != "line_note"@.len());
        assert("discount"@.len() != "epd"@.len());
        assert("rounding"@.len() != "payment_term"@.len());
        assert("rounding"@.len() != "line_section"@.len());
        assert("rounding"@.len() != "line_note"@.len());
        assert("rounding"@.len() != "epd"@.len());
        assert("payment_term"@[0] != "line_section"@[0]);
        assert("payment_term"@.len() != "line_note"@.len());
        assert("payment_term"@.len() != "epd"@.len());
        assert("line_section"@.len() != "line_note"@.len());
        assert("line_section"@.len() != "epd"@.len());
        assert("line_note"@.len() != "epd"@.len());
    }

    /// Law: each value is shown under its Odoo label and stored under its
    /// Odoo key (Product as "product", Cogs as "cogs", Tax as "tax", Discount as "discount", Rounding as "rounding", PaymentTerm as "payment_term", LineSection as "line_section", LineNote as "line_note", Epd as "epd"), and a key reads back as exactly the value
    /// stored under it.
    pub proof fn lemma_labels_and_keys()
        ensures
            AccountMoveLineDisplayType::Product.spec_display() == "Draft"@,
            AccountMoveLineDisplayType::Product.spec_selection_key() == "product"@,
            AccountMoveLineDisplayType::Cogs.spec_display() == "Cost of Goods Sold"@,
            AccountMoveLineDisplayType::Cogs.spec_selection_key() == "cogs"@,
            AccountMoveLineDisplayType::Tax.spec_display() == "Tax"@,
            AccountMoveLineDisplayType::Tax.spec_selection_key() == "tax"@,
            AccountMoveLineDisplayType::Discount.spec_display() == "Discount"@,
            AccountMoveLineDisplayType::Discount.spec_selection_key() == "discount"@,
            AccountMoveLineDisplayType::Rounding.spec_display() == "Rounding"@,
            AccountMoveLineDisplayType::Rounding.spec_selection_key() == "rounding"@,
            AccountMoveLineDisplayType::PaymentTerm.spec_display() == "Payment Term"@,
            AccountMoveLineDisplayType::PaymentTerm.spec_selection_key() == "payment_term"@,
            AccountMoveLineDisplayType::LineSection.spec_display() == "Section"@,
            AccountMoveLineDisplayType::LineSection.spec_selection_key() == "line_section"@,
            AccountMoveLineDisplayType::LineNote.spec_display() == "Note"@,
            AccountMoveLineDisplayType::LineNote.spec_selection_key() == "line_note"@,
            AccountMoveLineDisplayType::Epd.spec_display() == "Early Payment Discount"@,
            AccountMoveLineDisplayType::Epd.spec_selection_key() == "epd"@,
            forall|key: Seq<char>, v: AccountMoveLineDisplayType|
                AccountMoveLineDisplayType::spec_from_selection_key(key) == Some(v) <==> key == v.spec_selection_key(),
    {
        reveal_strlit("product");
        reveal_strlit("cogs");
        reveal_strlit("tax");
        reveal_strlit("discount");
        reveal_strlit("rounding");
        reveal_strlit("payment_term");
        reveal_strlit("line_section");
        reveal_strlit("line_note");
        reveal_strlit("epd");
        assert forall|key: Seq<char>, v: AccountMoveLineDisplayType|
            AccountMoveLineDisplayType::spec_from_selection_key(key) == Some(v) <==> key == v.spec_selection_key() by {
            v.lemma_selection_key_roundtrip();
        }
    }
}
} // verus!
