//! Journal entries (`account.move`).

use vstd::prelude::*;

use crate::models::Many2OneRepr;
use crate::utils::{strings_from, text_is, texts_view, FieldnamesAsStringVec};

verus! {

/// The Odoo model of journal entries.
pub const ACCOUNT_MOVE_MODEL_NAME: &'static str = "account.move";

/// The payment state of a journal entry.
#[derive(Debug, Clone, Copy, PartialEq, Eq, Structural, PartialOrd, Ord, Hash)]
pub enum PayementStateSelection {
    NotPaid,
    InPayment,
    Paid,
    Partial,
    Reversed,
    Blocked,
    InvoicingLegacy,
}

impl PayementStateSelection {
    /// The position of the value in declaration order.
    pub open spec fn spec_position(self) -> int {
        match self {
            PayementStateSelection::NotPaid => 0,
            PayementStateSelection::InPayment => 1,
            PayementStateSelection::Paid => 2,
            PayementStateSelection::Partial => 3,
            PayementStateSelection::Reversed => 4,
            PayementStateSelection::Blocked => 5,
            PayementStateSelection::InvoicingLegacy => 6,
        }
    }

    /// The labels that Odoo shows, in declaration order.
    pub open spec fn spec_labels() -> Seq<Seq<char>> {
        seq!["Not Paid"@, "In Payment"@, "Paid"@, "Partially Paid"@, "Reversed"@, "Blocked"@, "Invoicing App Legacy"@]
    }

    /// The label that Odoo shows for the value.
    pub open spec fn spec_display(self) -> Seq<char> {
        PayementStateSelection::spec_labels()[self.spec_position()]
    }

    /// The key under which Odoo stores the value.
    pub open spec fn spec_selection_key(self) -> Seq<char> {
        match self {
            PayementStateSelection::NotPaid => "not_paid"@,
            PayementStateSelection::InPayment => "in_payment"@,
            PayementStateSelection::Paid => "paid"@,
            PayementStateSelection::Partial => "partial"@,
            PayementStateSelection::Reversed => "reversed"@,
            PayementStateSelection::Blocked => "blocked"@,
            PayementStateSelection::InvoicingLegacy => "invoicing_legacy"@,
        }
    }

    /// The value stored under `key`, if any.
    pub open spec fn spec_from_selection_key(key: Seq<char>) -> Option<PayementStateSelection> {
        if key == "not_paid"@ {
            Some(PayementStateSelection::NotPaid)
        } else if key == "in_payment"@ {
            Some(PayementStateSelection::InPayment)
        } else if key == "paid"@ {
            Some(PayementStateSelection::Paid)
        } else if key == "partial"@ {
            Some(PayementStateSelection::Partial)
        } else if key == "reversed"@ {
            Some(PayementStateSelection::Reversed)
        } else if key == "blocked"@ {
            Some(PayementStateSelection::Blocked)
        } else if key == "invoicing_legacy"@ {
            Some(PayementStateSelection::InvoicingLegacy)
        } else {
            None
        }
    }

    /// The position of the value in declaration order.
    fn position(&self) -> (res: usize)
        ensures
            res == self.spec_position(),
            res < 7,
    {
        match self {
            PayementStateSelection::NotPaid => 0,
            PayementStateSelection::InPayment => 1,
            PayementStateSelection::Paid => 2,
            PayementStateSelection::Partial => 3,
            PayementStateSelection::Reversed => 4,
            PayementStateSelection::Blocked => 5,
            PayementStateSelection::InvoicingLegacy => 6,
        }
    }

    /// The label that Odoo shows for the value.
    pub fn to_display_string(&self) -> (res: String)
        ensures
            res@ == self.spec_display(),
    {
        let labels: [&str; 7] = ["Not Paid", "In Payment", "Paid", "Partially Paid", "Reversed", "Blocked", "Invoicing App Legacy"];
        assert(labels@.map_values(|s: &str| s@) =~= PayementStateSelection::spec_labels());
        labels[self.position()].to_owned()
    }

    /// The key under which Odoo stores the value.
    pub fn selection_key(&self) -> (res: &'static str)
        ensures
            res@ == self.spec_selection_key(),
    {
        match self {
            PayementStateSelection::NotPaid => "not_paid",
            PayementStateSelection::InPayment => "in_payment",
            PayementStateSelection::Paid => "paid",
            PayementStateSelection::Partial => "partial",
            PayementStateSelection::Reversed => "reversed",
            PayementStateSelection::Blocked => "blocked",
            PayementStateSelection::InvoicingLegacy => "invoicing_legacy",
        }
    }

    /// The value stored under `key`, if any.
    pub fn from_selection_key(key: &str) -> (res: Option<PayementStateSelection>)
        ensures
            res == PayementStateSelection::spec_from_selection_key(key@),
    {
        if text_is(key, "not_paid") {
            Some(PayementStateSelection::NotPaid)
        } else if text_is(key, "in_payment") {
            Some(PayementStateSelection::InPayment)
        } else if text_is(key, "paid") {
            Some(PayementStateSelection::Paid)
        } else if text_is(key, "partial") {
            Some(PayementStateSelection::Partial)
        } else if text_is(key, "reversed") {
            Some(PayementStateSelection::Reversed)
        } else if text_is(key, "blocked") {
            Some(PayementStateSelection::Blocked)
        } else if text_is(key, "invoicing_legacy") {
            Some(PayementStateSelection::InvoicingLegacy)
        } else {
            None
        }
    }

    /// Law: the value stored under a value's key is that value, so
    /// values are written and read back unchanged.
    pub proof fn lemma_selection_key_roundtrip(self)
        ensures
            PayementStateSelection::spec_from_selection_key(self.spec_selection_key()) == Some(self),
    {
        reveal_strlit("not_paid");
        reveal_strlit("in_payment");
        reveal_strlit("paid");
        reveal_strlit("partial");
        reveal_strlit("reversed");
        reveal_strlit("blocked");
        reveal_strlit("invoicing_legacy");
        assert("not_paid"@.len() != "in_payment"@.len());
        assert("not_paid"@.len() != "paid"@.len());
        assert("not_paid"@.len() != "partial"@.len());
        assert("not_paid"@[0] != "reversed"@[0]);
        assert("not_paid"@.len() != "blocked"@.len());
        assert("not_paid"@.len() != "invoicing_legacy"@.len());
        assert("in_payment"@.len() != "paid"@.len());
        assert("in_payment"@.len() != "partial"@.len());
        assert("in_payment"@.len() != "reversed"@.len());
        assert("in_payment"@.len() != "blocked"@.len());
        assert("in_payment"@.len() != "invoicing_legacy"@.len());
        assert("paid"@.len() != "partial"@.len());
        assert("paid"@.len() != "reversed"@.len());
        assert("paid"@.len() != "blocked"@.len());
        assert("paid"@.len() != "invoicing_legacy"@.len());
        assert("partial"@.len() != "reversed"@.len());
        assert("partial"@[0] != "blocked"@[0]);
        assert("partial"@.len() != "invoicing_legacy"@.len());
        assert("reversed"@.len() != "blocked"@.len());
        assert("reversed"@.len() != "invoicing_legacy"@.len());
        assert("blocked"@.len() != "invoicing_legacy"@.len());
    }

    /// Law: each value is shown under its Odoo label and stored under its
    /// Odoo key (NotPaid as "not_paid", InPayment as "in_payment", Paid as "paid", Partial as "partial", Reversed as "reversed", Blocked as "blocked", InvoicingLegacy as "invoicing_legacy"), and a key reads back as exactly the value
    /// stored under it.
    pub proof fn lemma_labels_and_keys()
        ensures
            PayementStateSelection::NotPaid.spec_display() == "Not Paid"@,
            PayementStateSelection::NotPaid.spec_selection_key() == "not_paid"@,
            PayementStateSelection::InPayment.spec_display() == "In Payment"@,
            PayementStateSelection::InPayment.spec_selection_key() == "in_payment"@,
            PayementStateSelection::Paid.spec_display() == "Paid"@,
            PayementStateSelection::Paid.spec_selection_key() == "paid"@,
            PayementStateSelection::Partial.spec_display() == "Partially Paid"@,
            PayementStateSelection::Partial.spec_selection_key() == "partial"@,
            PayementStateSelection::Reversed.spec_display() == "Reversed"@,
            PayementStateSelection::Reversed.spec_selection_key() == "reversed"@,
            PayementStateSelection::Blocked.spec_display() == "Blocked"@,
            PayementStateSelection::Blocked.spec_selection_key() == "blocked"@,
            PayementStateSelection::InvoicingLegacy.spec_display() == "Invoicing App Legacy"@,
            PayementStateSelection::InvoicingLegacy.spec_selection_key() == "invoicing_legacy"@,
            forall|key: Seq<char>, v: PayementStateSelection|
                PayementStateSelection::spec_from_selection_key(key) == Some(v) <==> key == v.spec_selection_key(),
    {
        reveal_strlit("not_paid");
        reveal_strlit("in_payment");
        reveal_strlit("paid");
        reveal_strlit("partial");
        reveal_strlit("reversed");
        reveal_strlit("blocked");
        reveal_strlit("invoicing_legacy");
        assert forall|key: Seq<char>, v: PayementStateSelection|
            PayementStateSelection::spec_from_selection_key(key) == Some(v) <==> key == v.spec_selection_key() by {
            v.lemma_selection_key_roundtrip();
        }
    }
}

/// The state of a journal entry.
#[derive(Debug, Clone, Copy, PartialEq, Eq, Structural, PartialOrd, Ord, Hash)]
pub enum AccountMoveState {
    Draft,
    Posted,
    Cancel,
}

impl AccountMoveState {
    /// The position of the value in declaration order.
    pub open spec fn spec_position(self) -> int {
        match self {
            AccountMoveState::Draft => 0,
            AccountMoveState::Posted => 1,
            AccountMoveState::Cancel => 2,
        }
    }

    /// The labels that Odoo shows, in declaration order.
    pub open spec fn spec_labels() -> Seq<Seq<char>> {
        seq!["Draft"@, "Posted"@, "Cancelled"@]
    }

    /// The label that Odoo shows for the value.
    pub open spec fn spec_display(self) -> Seq<char> {
        AccountMoveState::spec_labels()[self.spec_position()]
    }

    /// The key under which Odoo stores the value.
    pub open spec fn spec_selection_key(self) -> Seq<char> {
        match self {
            AccountMoveState::Draft => "draft"@,
            AccountMoveState::Posted => "posted"@,
            AccountMoveState::Cancel => "cancel"@,
        }
    }

    /// The value stored under `key`, if any.
    pub open spec fn spec_from_selection_key(key: Seq<char>) -> Option<AccountMoveState> {
        if key == "draft"@ {
            Some(AccountMoveState::Draft)
        } else if key == "posted"@ {
            Some(AccountMoveState::Posted)
        } else if key == "cancel"@ {
            Some(AccountMoveState::Cancel)
        } else {
            None
        }
    }

    /// The position of the value in declaration order.
    fn position(&self) -> (res: usize)
        ensures
            res == self.spec_position(),
            res < 3,
    {
        match self {
            AccountMoveState::Draft => 0,
            AccountMoveState::Posted => 1,
            AccountMoveState::Cancel => 2,
        }
    }

    /// The label that Odoo shows for the value.
    pub fn to_display_string(&self) -> (res: String)
        ensures
            res@ == self.spec_display(),
    {
        let labels: [&str; 3] = ["Draft", "Posted", "Cancelled"];
        assert(labels@.map_values(|s: &str| s@) =~= AccountMoveState::spec_labels());
        labels[self.position()].to_owned()
    }

    /// The key under which Odoo stores the value.
    pub fn selection_key(&self) -> (res: &'static str)
        ensures
            res@ == self.spec_selection_key(),
    {
        match self {
            AccountMoveState::Draft => "draft",
            AccountMoveState::Posted => "posted",
            AccountMoveState::Cancel => "cancel",
        }
    }

    /// The value stored under `key`, if any.
    pub fn from_selection_key(key: &str) -> (res: Option<AccountMoveState>)
        ensures
            res == AccountMoveState::spec_from_selection_key(key@),
    {
        if text_is(key, "draft") {
            Some(AccountMoveState::Draft)
        } else if text_is(key, "posted") {
            Some(AccountMoveState::Posted)
        } else if text_is(key, "cancel") {
            Some(AccountMoveState::Cancel)
        } else {
            None
        }
    }

    /// Law: the value stored under a value's key is that value, so
    /// values are written and read back unchanged.
    pub proof fn lemma_selection_key_roundtrip(self)
        ensures
            AccountMoveState::spec_from_selection_key(self.spec_selection_key()) == Some(self),
    {
        reveal_strlit("draft");
        reveal_strlit("posted");
        reveal_strlit("cancel");
        assert("draft"@.len() != "posted"@.len());
        assert("draft"@.len() != "cancel"@.len());
        assert("posted"@[0] != "cancel"@[0]);
    }

    /// Law: each value is shown under its Odoo label and stored under its
    /// Odoo key (Draft as "draft", Posted as "posted", Cancel as "cancel"), and a key reads back as exactly the value
    /// stored under it.
    pub proof fn lemma_labels_and_keys()
        ensures
            AccountMoveState::Draft.spec_display() == "Draft"@,
            AccountMoveState::Draft.spec_selection_key() == "draft"@,
            AccountMoveState::Posted.spec_display() == "Posted"@,
            AccountMoveState::Posted.spec_selection_key() == "posted"@,
            AccountMoveState::Cancel.spec_display() == "Cancelled"@,
            AccountMoveState::Cancel.spec_selection_key() == "cancel"@,
            forall|key: Seq<char>, v: AccountMoveState|
                AccountMoveState::spec_from_selection_key(key) == Some(v) <==> key == v.spec_selection_key(),
    {
        reveal_strlit("draft");
        reveal_strlit("posted");
        reveal_strlit("cancel");
        assert forall|key: Seq<char>, v: AccountMoveState|
            AccountMoveState::spec_from_selection_key(key) == Some(v) <==> key == v.spec_selection_key() by {
            v.lemma_selection_key_roundtrip();
        }
    }
}

/// The kind of a journal entry.
#[derive(Debug, Clone, Copy, PartialEq, Eq, Structural, PartialOrd, Ord, Hash)]
pub enum AccountMoveType {
    Entry,
    OutInvoice,
    OutRefund,
    InInvoice,
    InRefund,
    OutReceipt,
    InReceipt,
}

impl AccountMoveType {
    /// The position of the value in declaration order.
    pub open spec fn spec_position(self) -> int {
        match self {
            AccountMoveType::Entry => 0,
            AccountMoveType::OutInvoice => 1,
            AccountMoveType::OutRefund => 2,
            AccountMoveType::InInvoice => 3,
            AccountMoveType::InRefund => 4,
            AccountMoveType::OutReceipt => 5,
            AccountMoveType::InReceipt => 6,
        }
    }

    /// The labels that Odoo shows, in declaration order.
    pub open spec fn spec_labels() -> Seq<Seq<char>> {
        seq!["Draft"@, "Customer Invoice"@, "Customer Credit Note"@, "Vendor Bill"@, "Vendor Credit Note"@, "Sales Receipt"@, "Purchase Receipt"@]
    }

    /// The label that Odoo shows for the value.
    pub open spec fn spec_display(self) -> Seq<char> {
        AccountMoveType::spec_labels()[self.spec_position()]
    }

    /// The key under which Odoo stores the value.
    pub open spec fn spec_selection_key(self) -> Seq<char> {
        match self {
            AccountMoveType::Entry => "entry"@,
            AccountMoveType::OutInvoice => "out_invoice"@,
            AccountMoveType::OutRefund => "out_refund"@,
            AccountMoveType::InInvoice => "in_invoice"@,
            AccountMoveType::InRefund => "in_refund"@,
            AccountMoveType::OutReceipt => "out_receipt"@,
            AccountMoveType::InReceipt => "in_receipt"@,
        }
    }

    /// The value stored under `key`, if any.
    pub open spec fn spec_from_selection_key(key: Seq<char>) -> Option<AccountMoveType> {
        if key == "entry"@ {
            Some(AccountMoveType::Entry)
        } else if key == "out_invoice"@ {
            Some(AccountMoveType::OutInvoice)
        } else if key == "out_refund"@ {
            Some(AccountMoveType::OutRefund)
        } else if key == "in_invoice"@ {
            Some(AccountMoveType::InInvoice)
        } else if key == "in_refund"@ {
            Some(AccountMoveType::InRefund)
        } else if key == "out_receipt"@ {
            Some(AccountMoveType::OutReceipt)
        } else if key == "in_receipt"@ {
            Some(AccountMoveType::InReceipt)
        } else {
            None
        }
    }

    /// The position of the value in declaration order.
    fn position(&self) -> (res: usize)
        ensures
            res == self.spec_position(),
            res < 7,
    {
        match self {
            AccountMoveType::Entry => 0,
            AccountMoveType::OutInvoice => 1,
            AccountMoveType::OutRefund => 2,
            AccountMoveType::InInvoice => 3,
            AccountMoveType::InRefund => 4,
            AccountMoveType::OutReceipt => 5,
            AccountMoveType::InReceipt => 6,
        }
    }

    /// The label that Odoo shows for the value.
    pub fn to_display_string(&self) -> (res: String)
        ensures
            res@ == self.spec_display(),
    {
        let labels: [&str; 7] = ["Draft", "Customer Invoice", "Customer Credit Note", "Vendor Bill", "Vendor Credit Note", "Sales Receipt", "Purchase Receipt"];
        assert(labels@.map_values(|s: &str| s@) =~= AccountMoveType::spec_labels());
        labels[self.position()].to_owned()
    }

    /// The key under which Odoo stores the value.
    pub fn selection_key(&self) -> (res: &'static str)
        ensures
            res@ == self.spec_selection_key(),
    {
        match self {
            AccountMoveType::Entry => "entry",
            AccountMoveType::OutInvoice => "out_invoice",
            AccountMoveType::OutRefund => "out_refund",
            AccountMoveType::InInvoice => "in_invoice",
            AccountMoveType::InRefund => "in_refund",
            AccountMoveType::OutReceipt => "out_receipt",
            AccountMoveType::InReceipt => "in_receipt",
        }
    }

    /// The value stored under `key`, if any.
    pub fn from_selection_key(key: &str) -> (res: Option<AccountMoveType>)
        ensures
            res == AccountMoveType::spec_from_selection_key(key@),
    {
        if text_is(key, "entry") {
            Some(AccountMoveType::Entry)
        } else if text_is(key, "out_invoice") {
            Some(AccountMoveType::OutInvoice)
        } else if text_is(key, "out_refund") {
            Some(AccountMoveType::OutRefund)
        } else if text_is(key, "in_invoice") {
            Some(AccountMoveType::InInvoice)
        } else if text_is(key, "in_refund") {
            Some(AccountMoveType::InRefund)
        } else if text_is(key, "out_receipt") {
            Some(AccountMoveType::OutReceipt)
        } else if text_is(key, "in_receipt") {
            Some(AccountMoveType::InReceipt)
        } else {
            None
        }
    }

    /// Law: the value stored under a value's key is that value, so
    /// values are written and read back unchanged.
    pub proof fn lemma_selection_key_roundtrip(self)
        ensures
            AccountMoveType::spec_from_selection_key(self.spec_selection_key()) == Some(self),
    {
        reveal_strlit("entry");
        reveal_strlit("out_invoice");
        reveal_strlit("out_refund");
        reveal_strlit("in_invoice");
        reveal_strlit("in_refund");
        reveal_strlit("out_receipt");
        reveal_strlit("in_receipt");
        assert("entry"@.len() != "out_invoice"@.len());
        assert("entry"@.len() != "out_refund"@.len());
        assert("entry"@.len() != "in_invoice"@.len());
        assert("entry"@.len() != "in_refund"@.len());
        assert("entry"@.len() != "out_receipt"@.len());
        assert("entry"@.len() != "in_receipt"@.len());
        assert("out_invoice"@.len() != "out_refund"@.len());
        assert("out_invoice"@.len() != "in_invoice"@.len());
        assert("out_invoice"@.len() != "in_refund"@.len());
        assert("out_invoice"@[4] != "out_receipt"@[4]);
        assert("out_invoice"@.len() != "in_receipt"@.len());
        assert("out_refund"@[0] != "in_invoice"@[0]);
        assert("out_refund"@.len() != "in_refund"@.len());
        assert("out_refund"@.len() != "out_receipt"@.len());
        assert("out_refund"@[0] != "in_receipt"@[0]);
        assert("in_invoice"@.len() != "in_refund"@.len());
        assert("in_invoice"@.len() != "out_receipt"@.len());
        assert("in_invoice"@[3] != "in_receipt"@[3]);
        assert("in_refund"@.len() != "out_receipt"@.len());
        assert("in_refund"@.len() != "in_receipt"@.len());
        assert("out_receipt"@.len() != "in_receipt"@.len());
    }

    /// Law: each value is shown under its Odoo label and stored under its
    /// Odoo key (Entry as "entry", OutInvoice as "out_invoice", OutRefund as "out_refund", InInvoice as "in_invoice", InRefund as "in_refund", OutReceipt as "out_receipt", InReceipt as "in_receipt"), and a key reads back as exactly the value
    /// stored under it.
    pub proof fn lemma_labels_and_keys()
        ensures
            AccountMoveType::Entry.spec_display() == "Draft"@,
            AccountMoveType::Entry.spec_selection_key() == "entry"@,
            AccountMoveType::OutInvoice.spec_display() == "Customer Invoice"@,
            AccountMoveType::OutInvoice.spec_selection_key() == "out_invoice"@,
            AccountMoveType::OutRefund.spec_display() == "Customer Credit Note"@,
            AccountMoveType::OutRefund.spec_selection_key() == "out_refund"@,
            AccountMoveType::InInvoice.spec_display() == "Vendor Bill"@,
            AccountMoveType::InInvoice.spec_selection_key() == "in_invoice"@,
            AccountMoveType::InRefund.spec_display() == "Vendor Credit Note"@,
            AccountMoveType::InRefund.spec_selection_key() == "in_refund"@,
            AccountMoveType::OutReceipt.spec_display() == "Sales Receipt"@,
            AccountMoveType::OutReceipt.spec_selection_key() == "out_receipt"@,
            AccountMoveType::InReceipt.spec_display() == "Purchase Receipt"@,
            AccountMoveType::InReceipt.spec_selection_key() == "in_receipt"@,
            forall|key: Seq<char>, v: AccountMoveType|
                AccountMoveType::spec_from_selection_key(key) == Some(v) <==> key == v.spec_selection_key(),
    {
        reveal_strlit("entry");
        reveal_strlit("out_invoice");
        reveal_strlit("out_refund");
        reveal_strlit("in_invoice");
        reveal_strlit("in_refund");
        reveal_strlit("out_receipt");
        reveal_strlit("in_receipt");
        assert forall|key: Seq<char>, v: AccountMoveType|
            AccountMoveType::spec_from_selection_key(key) == Some(v) <==> key == v.spec_selection_key() by {
            v.lemma_selection_key_roundtrip();
        }
    }
}

/// When a journal entry is posted automatically.
#[derive(Debug, Clone, Copy, PartialEq, Eq, Structural, PartialOrd, Ord, Hash)]
pub enum AutoPostAccountMove {
    No,
    AtDate,
    Monthly,
    Quarterly,
    Yearly,
}

impl AutoPostAccountMove {
    /// The position of the value in declaration order.
    pub open spec fn spec_position(self) -> int {
        match self {
            AutoPostAccountMove::No => 0,
            AutoPostAccountMove::AtDate => 1,
            AutoPostAccountMove::Monthly => 2,
            AutoPostAccountMove::Quarterly => 3,
            AutoPostAccountMove::Yearly => 4,
        }
    }

    /// The labels that Odoo shows, in declaration order.
    pub open spec fn spec_labels() -> Seq<Seq<char>> {
        seq!["No"@, "At Date"@, "Monthly"@, "Quarterly"@, "Yearly"@]
    }

    /// The label that Odoo shows for the value.
    pub open spec fn spec_display(self) -> Seq<char> {
        AutoPostAccountMove::spec_labels()[self.spec_position()]
    }

    /// The key under which Odoo stores the value.
    pub open spec fn spec_selection_key(self) -> Seq<char> {
        match self {
            AutoPostAccountMove::No => "no"@,
            AutoPostAccountMove::AtDate => "at_date"@,
            AutoPostAccountMove::Monthly => "monthly"@,
            AutoPostAccountMove::Quarterly => "quarterly"@,
            AutoPostAccountMove::Yearly => "yearly"@,
        }
    }

    /// The value stored under `key`, if any.
    pub open spec fn spec_from_selection_key(key: Seq<char>) -> Option<AutoPostAccountMove> {
        if key == "no"@ {
            Some(AutoPostAccountMove::No)
        } else if key == "at_date"@ {
            Some(AutoPostAccountMove::AtDate)
        } else if key == "monthly"@ {
            Some(AutoPostAccountMove::Monthly)
        } else if key == "quarterly"@ {
            Some(AutoPostAccountMove::Quarterly)
        } else if key == "yearly"@ {
            Some(AutoPostAccountMove::Yearly)
        } else {
            None
        }
    }

    /// The position of the value in declaration order.
    fn position(&self) -> (res: usize)
        ensures
            res == self.spec_position(),
            res < 5,
    {
        match self {
            AutoPostAccountMove::No => 0,
            AutoPostAccountMove::AtDate => 1,
            AutoPostAccountMove::Monthly => 2,
            AutoPostAccountMove::Quarterly => 3,
            AutoPostAccountMove::Yearly => 4,
        }
    }

    /// The label that Odoo shows for the value.
    pub fn to_display_string(&self) -> (res: String)
        ensures
            res@ == self.spec_display(),
    {
        let labels: [&str; 5] = ["No", "At Date", "Monthly", "Quarterly", "Yearly"];
        assert(labels@.map_values(|s: &str| s@) =~= AutoPostAccountMove::spec_labels());
        labels[self.position()].to_owned()
    }

    /// The key under which Odoo stores the value.
    pub fn selection_key(&self) -> (res: &'static str)
        ensures
            res@ == self.spec_selection_key(),
    {
        match self {
            AutoPostAccountMove::No => "no",
            AutoPostAccountMove::AtDate => "at_date",
            AutoPostAccountMove::Monthly => "monthly",
            AutoPostAccountMove::Quarterly => "quarterly",
            AutoPostAccountMove::Yearly => "yearly",
        }
    }

    /// The value stored under `key`, if any.
    pub fn from_selection_key(key: &str) -> (res: Option<AutoPostAccountMove>)
        ensures
            res == AutoPostAccountMove::spec_from_selection_key(key@),
    {
        if text_is(key, "no") {
            Some(AutoPostAccountMove::No)
        } else if text_is(key, "at_date") {
            Some(AutoPostAccountMove::AtDate)
        } else if text_is(key, "monthly") {
            Some(AutoPostAccountMove::Monthly)
        } else if text_is(key, "quarterly") {
            Some(AutoPostAccountMove::Quarterly)
        } else if text_is(key, "yearly") {
            Some(AutoPostAccountMove::Yearly)
        } else {
            None
        }
    }

    /// Law: the value stored under a value's key is that value, so
    /// values are written and read back unchanged.
    pub proof fn lemma_selection_key_roundtrip(self)
        ensures
            AutoPostAccountMove::spec_from_selection_key(self.spec_selection_key()) == Some(self),
    {
        reveal_strlit("no");
        reveal_strlit("at_date");
        reveal_strlit("monthly");
        reveal_strlit("quarterly");
        reveal_strlit("yearly");
        assert("no"@.len() != "at_date"@.len());
        assert("no"@.len() != "monthly"@.len());
        assert("no"@.len() != "quarterly"@.len());
        assert("no"@.len() != "yearly"@.len());
        assert("at_date"@[0] != "monthly"@[0]);
        assert("at_date"@.len() != "quarterly"@.len());
        assert("at_date"@.len() != "yearly"@.len());
        assert("monthly"@.len() != "quarterly"@.len());
        assert("monthly"@.len() != "yearly"@.len());
        assert("quarterly"@.len() != "yearly"@.len());
    }

    /// Law: each value is shown under its Odoo label and stored under its
    /// Odoo key (No as "no", AtDate as "at_date", Monthly as "monthly", Quarterly as "quarterly", Yearly as "yearly"), and a key reads back as exactly the value
    /// stored under it.
    pub proof fn lemma_labels_and_keys()
        ensures
            AutoPostAccountMove::No.spec_display() == "No"@,
            AutoPostAccountMove::No.spec_selection_key() == "no"@,
            AutoPostAccountMove::AtDate.spec_display() == "At Date"@,
            AutoPostAccountMove::AtDate.spec_selection_key() == "at_date"@,
            AutoPostAccountMove::Monthly.spec_display() == "Monthly"@,
            AutoPostAccountMove::Monthly.spec_selection_key() == "monthly"@,
            AutoPostAccountMove::Quarterly.spec_display() == "Quarterly"@,
            AutoPostAccountMove::Quarterly.spec_selection_key() == "quarterly"@,
            AutoPostAccountMove::Yearly.spec_display() == "Yearly"@,
            AutoPostAccountMove::Yearly.spec_selection_key() == "yearly"@,
            forall|key: Seq<char>, v: AutoPostAccountMove|
                AutoPostAccountMove::spec_from_selection_key(key) == Some(v) <==> key == v.spec_selection_key(),
    {
        reveal_strlit("no");
        reveal_strlit("at_date");
        reveal_strlit("monthly");
        reveal_strlit("quarterly");
        reveal_strlit("yearly");
        assert forall|key: Seq<char>, v: AutoPostAccountMove|
            AutoPostAccountMove::spec_from_selection_key(key) == Some(v) <==> key == v.spec_selection_key() by {
            v.lemma_selection_key_roundtrip();
        }
    }
}

/// A journal entry as it is read from Odoo 18.
#[derive(Debug, Clone)]
pub struct AccountMoveFromOdoo18 {
    pub id: u64,
    pub name: String,
    pub name_placeholder: Option<String>,
    /// Odoo's field `ref`.
    pub ref_: Option<String>,
    pub date: String,
    pub state: AccountMoveState,
    pub move_type: AccountMoveType,
    pub is_storno: bool,
    pub journal_id: Many2OneRepr,
    pub journal_group_id: Option<Many2OneRepr>,
    pub auto_post: AutoPostAccountMove,
    pub currency_id: Many2OneRepr,
    pub partner_id: Option<Many2OneRepr>,
}

impl FieldnamesAsStringVec for AccountMoveFromOdoo18 {
    /// Every field but `ref_`, which is read under its Odoo name.
    open spec fn spec_field_names() -> Seq<Seq<char>> {
        seq!["id"@, "name"@, "name_placeholder"@, "date"@, "state"@, "move_type"@, "is_storno"@, "journal_id"@, "journal_group_id"@, "auto_post"@, "currency_id"@, "partner_id"@]
    }

    fn field_names_as_string_vec() -> (res: Vec<String>) {
        let names: [&str; 12] = ["id", "name", "name_placeholder", "date", "state", "move_type", "is_storno", "journal_id", "journal_group_id", "auto_post", "currency_id", "partner_id"];
        let res = strings_from(&names);
        assert(names@.map_values(|s: &str| s@) =~= Self::spec_field_names());
        res
    }
}

/// The fields read for an Odoo 18 journal entry: those of the record, then
/// `ref`.
pub fn account_move_from_odoo_18_fields() -> (res: Vec<String>)
    ensures
        texts_view(res@) == AccountMoveFromOdoo18::spec_field_names().push("ref"@),
{
    let mut d = AccountMoveFromOdoo18::field_names_as_string_vec();
    d.push("ref".to_owned());
    assert(texts_view(d@) =~= AccountMoveFromOdoo18::spec_field_names().push("ref"@));
    d
}

/// A journal entry as it is created in Odoo 19.
#[derive(Debug, Clone)]
pub struct AccountMoveToOdoo19 {
    pub name: String,
    pub name_placeholder: Option<String>,
    /// Odoo's field `ref`.
    pub ref_: Option<String>,
    pub date: String,
    pub state: AccountMoveState,
    pub move_type: AccountMoveType,
    pub is_storno: bool,
    pub journal_id: u64,
    pub auto_post: AutoPostAccountMove,
    pub currency_id: u64,
    pub partner_id: Option<u64>,
}

impl AccountMoveToOdoo19 {
    /// The Odoo 19 journal entry created for an Odoo 18 one, given the Odoo
    /// 19 journal, currency and contact that stand for its own.  It is
    /// created as a draft: its state is written once its items are in.
    pub fn from_odoo_18(
        account_move: AccountMoveFromOdoo18,
        journal_id: u64,
        currency_id: u64,
        partner_id: Option<u64>,
    ) -> (res: AccountMoveToOdoo19)
        ensures
            res.name == account_move.name,
            res.name_placeholder == account_move.name_placeholder,
            res.ref_ == account_move.ref_,
            res.date == account_move.date,
            res.state == AccountMoveState::Draft,
            res.move_type == account_move.move_type,
            res.is_storno == account_move.is_storno,
            res.journal_id == journal_id,
            res.auto_post == account_move.auto_post,
            res.currency_id == currency_id,
            res.partner_id == partner_id,
    {
        AccountMoveToOdoo19 {
            name: account_move.name,
            name_placeholder: account_move.name_placeholder,
            ref_: account_move.ref_,
            date: account_move.date,
            state: AccountMoveState::Draft,
            move_type: account_move.move_type,
            is_storno: account_move.is_storno,
            journal_id,
            auto_post: account_move.auto_post,
            currency_id,
            partner_id,
        }
    }
}

} // verus!
