//! Journals (`account.journal`).

use vstd::prelude::*;

use crate::utils::{strings_from, text_is, texts_view, FieldnamesAsStringVec};

verus! {

/// The Odoo model of journals.
pub const ACCOUNT_JOURNAL_MODEL_NAME: &'static str = "account.journal";

/// The kind of a journal.
#[derive(Debug, Clone, Copy, PartialEq, Eq, Structural, PartialOrd, Ord, Hash)]
pub enum AccountJournalType {
    Sale,
    Purchase,
    Cash,
    Bank,
    Credit,
    General,
}

impl AccountJournalType {
    /// The position of the value in declaration order.
    pub open spec fn spec_position(self) -> int {
        match self {
            AccountJournalType::Sale => 0,
            AccountJournalType::Purchase => 1,
            AccountJournalType::Cash => 2,
            AccountJournalType::Bank => 3,
            AccountJournalType::Credit => 4,
            AccountJournalType::General => 5,
        }
    }

    /// The labels that Odoo shows, in declaration order.
    pub open spec fn spec_labels() -> Seq<Seq<char>> {
        seq!["Sales"@, "Purchase"@, "Cash"@, "Bank"@, "Credit Cash"@, "Miscellaneous"@]
    }

    /// The label that Odoo shows for the value.
    pub open spec fn spec_display(self) -> Seq<char> {
        AccountJournalType::spec_labels()[self.spec_position()]
    }

    /// The key under which Odoo stores the value.
    pub open spec fn spec_selection_key(self) -> Seq<char> {
        match self {
            AccountJournalType::Sale => "sale"@,
            AccountJournalType::Purchase => "purchase"@,
            AccountJournalType::Cash => "cash"@,
            AccountJournalType::Bank => "bank"@,
            AccountJournalType::Credit => "credit"@,
            AccountJournalType::General => "general"@,
        }
    }

    /// The value stored under `key`, if any.
    pub open spec fn spec_from_selection_key(key: Seq<char>) -> Option<AccountJournalType> {
        if key == "sale"@ {
            Some(AccountJournalType::Sale)
        } else if key == "purchase"@ {
            Some(AccountJournalType::Purchase)
        } else if key == "cash"@ {
            Some(AccountJournalType::Cash)
        } else if key == "bank"@ {
            Some(AccountJournalType::Bank)
        } else if key == "credit"@ {
            Some(AccountJournalType::Credit)
        } else if key == "general"@ {
            Some(AccountJournalType::General)
        } else {
            None
        }
    }

    /// The position of the value in declaration order.
    fn position(&self) -> (res: usize)
        ensures
            res == self.spec_position(),
            res < 6,
    {
        match self {
            AccountJournalType::Sale => 0,
            AccountJournalType::Purchase => 1,
            AccountJournalType::Cash => 2,
            AccountJournalType::Bank => 3,
            AccountJournalType::Credit => 4,
            AccountJournalType::General => 5,
        }
    }

    /// The label that Odoo shows for the value.
    pub fn to_display_string(&self) -> (res: String)
        ensures
            res@ == self.spec_display(),
    {
        let labels: [&str; 6] = ["Sales", "Purchase", "Cash", "Bank", "Credit Cash", "Miscellaneous"];
        assert(labels@.map_values(|s: &str| s@) =~= AccountJournalType::spec_labels());
        labels[self.position()].to_owned()
    }

    /// The key under which Odoo stores the value.
    pub fn selection_key(&self) -> (res: &'static str)
        ensures
            res@ == self.spec_selection_key(),
    {
        match self {
            AccountJournalType::Sale => "sale",
            AccountJournalType::Purchase => "purchase",
            AccountJournalType::Cash => "cash",
            AccountJournalType::Bank => "bank",
            AccountJournalType::Credit => "credit",
            AccountJournalType::General => "general",
        }
    }

    /// The value stored under `key`, if any.
    pub fn from_selection_key(key: &str) -> (res: Option<AccountJournalType>)
        ensures
            res == AccountJournalType::spec_from_selection_key(key@),
    {
        if text_is(key, "sale") {
            Some(AccountJournalType::Sale)
        } else if text_is(key, "purchase") {
            Some(AccountJournalType::Purchase)
        } else if text_is(key, "cash") {
            Some(AccountJournalType::Cash)
        } else if text_is(key, "bank") {
            Some(AccountJournalType::Bank)
        } else if text_is(key, "credit") {
            Some(AccountJournalType::Credit)
        } else if text_is(key, "general") {
            Some(AccountJournalType::General)
        } else {
            None
        }
    }

    /// Law: the value stored under a value's key is that value, so
    /// values are written and read back unchanged.
    pub proof fn lemma_selection_key_roundtrip(self)
        ensures
            AccountJournalType::spec_from_selection_key(self.spec_selection_key()) == Some(self),
    {
        reveal_strlit("sale");
        reveal_strlit("purchase");
        reveal_strlit("cash");
        reveal_strlit("bank");
        reveal_strlit("credit");
        reveal_strlit("general");
        assert("sale"@.len() != "purchase"@.len());
        assert("sale"@[0] != "cash"@[0]);
        assert("sale"@[0] != "bank"@[0]);
        assert("sale"@.len() != "credit"@.len());
        assert("sale"@.len() != "general"@.len());
        assert("purchase"@.len() != "cash"@.len());
        assert("purchase"@.len() != "bank"@.len());
        assert("purchase"@.len() != "credit"@.len());
        assert("purchase"@.len() != "general"@.len());
        assert("cash"@[0] != "bank"@[0]);
        assert("cash"@.len() != "credit"@.len());
        assert("cash"@.len() != "general"@.len());
        assert("bank"@.len() != "credit"@.len());
        assert("bank"@.len() != "general"@.len());
        assert("credit"@.len() != "general"@.len());
    }

    /// Law: each value is shown under its Odoo label and stored under its
    /// Odoo key (Sale as "sale", Purchase as "purchase", Cash as "cash", Bank as "bank", Credit as "credit", General as "general"), and a key reads back as exactly the value
    /// stored under it.
    pub proof fn lemma_labels_and_keys()
        ensures
            AccountJournalType::Sale.spec_display() == "Sales"@,
            AccountJournalType::Sale.spec_selection_key() == "sale"@,
            AccountJournalType::Purchase.spec_display() == "Purchase"@,
            AccountJournalType::Purchase.spec_selection_key() == "purchase"@,
            AccountJournalType::Cash.spec_display() == "Cash"@,
            AccountJournalType::Cash.spec_selection_key() == "cash"@,
            AccountJournalType::Bank.spec_display() == "Bank"@,
            AccountJournalType::Bank.spec_selection_key() == "bank"@,
            AccountJournalType::Credit.spec_display() == "Credit Cash"@,
            AccountJournalType::Credit.spec_selection_key() == "credit"@,
            AccountJournalType::General.spec_display() == "Miscellaneous"@,
            AccountJournalType::General.spec_selection_key() == "general"@,
            forall|key: Seq<char>, v: AccountJournalType|
                AccountJournalType::spec_from_selection_key(key) == Some(v) <==> key == v.spec_selection_key(),
    {
        reveal_strlit("sale");
        reveal_strlit("purchase");
        reveal_strlit("cash");
        reveal_strlit("bank");
        reveal_strlit("credit");
        reveal_strlit("general");
        assert forall|key: Seq<char>, v: AccountJournalType|
            AccountJournalType::spec_from_selection_key(key) == Some(v) <==> key == v.spec_selection_key() by {
            v.lemma_selection_key_roundtrip();
        }
    }
}

/// What the payment reference of an invoice is based on.
#[derive(Debug, Clone, Copy, PartialEq, Eq, Structural, PartialOrd, Ord, Hash)]
pub enum AccountJournalInvoiceReferenceType {
    /// No payment reference (Odoo's `none`).
    NoReference,
    Partner,
    Invoice,
}

impl AccountJournalInvoiceReferenceType {
    /// The position of the value in declaration order.
    pub open spec fn spec_position(self) -> int {
        match self {
            AccountJournalInvoiceReferenceType::NoReference => 0,
            AccountJournalInvoiceReferenceType::Partner => 1,
            AccountJournalInvoiceReferenceType::Invoice => 2,
        }
    }

    /// The labels that Odoo shows, in declaration order.
    pub open spec fn spec_labels() -> Seq<Seq<char>> {
        seq!["None"@, "Based on Customer"@, "Based on Invoice"@]
    }

    /// The label that Odoo shows for the value.
    pub open spec fn spec_display(self) -> Seq<char> {
        AccountJournalInvoiceReferenceType::spec_labels()[self.spec_position()]
    }

    /// The key under which Odoo stores the value.
    pub open spec fn spec_selection_key(self) -> Seq<char> {
        match self {
            AccountJournalInvoiceReferenceType::NoReference => "none"@,
            AccountJournalInvoiceReferenceType::Partner => "partner"@,
            AccountJournalInvoiceReferenceType::Invoice => "invoice"@,
        }
    }

    /// The value stored under `key`, if any.
    pub open spec fn spec_from_selection_key(key: Seq<char>) -> Option<AccountJournalInvoiceReferenceType> {
        if key == "none"@ {
            Some(AccountJournalInvoiceReferenceType::NoReference)
        } else if key == "partner"@ {
            Some(AccountJournalInvoiceReferenceType::Partner)
        } else if key == "invoice"@ {
            Some(AccountJournalInvoiceReferenceType::Invoice)
        } else {
            None
        }
    }

    /// The position of the value in declaration order.
    fn position(&self) -> (res: usize)
        ensures
            res == self.spec_position(),
            res < 3,
    {
        match self {
            AccountJournalInvoiceReferenceType::NoReference => 0,
            AccountJournalInvoiceReferenceType::Partner => 1,
            AccountJournalInvoiceReferenceType::Invoice => 2,
        }
    }

    /// The label that Odoo shows for the value.
    pub fn to_display_string(&self) -> (res: String)
        ensures
            res@ == self.spec_display(),
    {
        let labels: [&str; 3] = ["None", "Based on Customer", "Based on Invoice"];
        assert(labels@.map_values(|s: &str| s@) =~= AccountJournalInvoiceReferenceType::spec_labels());
        labels[self.position()].to_owned()
    }

    /// The key under which Odoo stores the value.
    pub fn selection_key(&self) -> (res: &'static str)
        ensures
            res@ == self.spec_selection_key(),
    {
        match self {
            AccountJournalInvoiceReferenceType::NoReference => "none",
            AccountJournalInvoiceReferenceType::Partner => "partner",
            AccountJournalInvoiceReferenceType::Invoice => "invoice",
        }
    }

    /// The value stored under `key`, if any.
    pub fn from_selection_key(key: &str) -> (res: Option<AccountJournalInvoiceReferenceType>)
        ensures
            res == AccountJournalInvoiceReferenceType::spec_from_selection_key(key@),
    {
        if text_is(key, "none") {
            Some(AccountJournalInvoiceReferenceType::NoReference)
        } else if text_is(key, "partner") {
            Some(AccountJournalInvoiceReferenceType::Partner)
        } else if text_is(key, "invoice") {
            Some(AccountJournalInvoiceReferenceType::Invoice)
        } else {
            None
        }
    }

    /// Law: the value stored under a value's key is that value, so
    /// values are written and read back unchanged.
    pub proof fn lemma_selection_key_roundtrip(self)
        ensures
            AccountJournalInvoiceReferenceType::spec_from_selection_key(self.spec_selection_key()) == Some(self),
    {
        reveal_strlit("none");
        reveal_strlit("partner");
        reveal_strlit("invoice");
        assert("none"@.len() != "partner"@.len());
        assert("none"@.len() != "invoice"@.len());
        assert("partner"@[0] != "invoice"@[0]);
    }

    /// Law: each value is shown under its Odoo label and stored under its
    /// Odoo key (NoReference as "none", Partner as "partner", Invoice as "invoice"), and a key reads back as exactly the value
    /// stored under it.
    pub proof fn lemma_labels_and_keys()
        ensures
            AccountJournalInvoiceReferenceType::NoReference.spec_display() == "None"@,
            AccountJournalInvoiceReferenceType::NoReference.spec_selection_key() == "none"@,
            AccountJournalInvoiceReferenceType::Partner.spec_display() == "Based on Customer"@,
            AccountJournalInvoiceReferenceType::Partner.spec_selection_key() == "partner"@,
            AccountJournalInvoiceReferenceType::Invoice.spec_display() == "Based on Invoice"@,
            AccountJournalInvoiceReferenceType::Invoice.spec_selection_key() == "invoice"@,
            forall|key: Seq<char>, v: AccountJournalInvoiceReferenceType|
                AccountJournalInvoiceReferenceType::spec_from_selection_key(key) == Some(v) <==> key == v.spec_selection_key(),
    {
        reveal_strlit("none");
        reveal_strlit("partner");
        reveal_strlit("invoice");
        assert forall|key: Seq<char>, v: AccountJournalInvoiceReferenceType|
            AccountJournalInvoiceReferenceType::spec_from_selection_key(key) == Some(v) <==> key == v.spec_selection_key() by {
            v.lemma_selection_key_roundtrip();
        }
    }
}

/// The format of payment references.
#[derive(Debug, Clone, Copy, PartialEq, Eq, Structural, PartialOrd, Ord, Hash)]
pub enum AccountJournalInvoiceReferenceModel {
    Odoo,
    Euro,
}

impl AccountJournalInvoiceReferenceModel {
    /// The position of the value in declaration order.
    pub open spec fn spec_position(self) -> int {
        match self {
            AccountJournalInvoiceReferenceModel::Odoo => 0,
            AccountJournalInvoiceReferenceModel::Euro => 1,
        }
    }

    /// The labels that Odoo shows, in declaration order.
    pub open spec fn spec_labels() -> Seq<Seq<char>> {
        seq!["Odoo"@, "European"@]
    }

    /// The label that Odoo shows for the value.
    pub open spec fn spec_display(self) -> Seq<char> {
        AccountJournalInvoiceReferenceModel::spec_labels()[self.spec_position()]
    }

    /// The key under which Odoo stores the value.
    pub open spec fn spec_selection_key(self) -> Seq<char> {
        match self {
            AccountJournalInvoiceReferenceModel::Odoo => "odoo"@,
            AccountJournalInvoiceReferenceModel::Euro => "euro"@,
        }
    }

    /// The value stored under `key`, if any.
    pub open spec fn spec_from_selection_key(key: Seq<char>) -> Option<AccountJournalInvoiceReferenceModel> {
        if key == "odoo"@ {
            Some(AccountJournalInvoiceReferenceModel::Odoo)
        } else if key == "euro"@ {
            Some(AccountJournalInvoiceReferenceModel::Euro)
        } else {
            None
        }
    }

    /// The position of the value in declaration order.
    fn position(&self) -> (res: usize)
        ensures
            res == self.spec_position(),
            res < 2,
    {
        match self {
            AccountJournalInvoiceReferenceModel::Odoo => 0,
            AccountJournalInvoiceReferenceModel::Euro => 1,
        }
    }

    /// The label that Odoo shows for the value.
    pub fn to_display_string(&self) -> (res: String)
        ensures
            res@ == self.spec_display(),
    {
        let labels: [&str; 2] = ["Odoo", "European"];
        assert(labels@.map_values(|s: &str| s@) =~= AccountJournalInvoiceReferenceModel::spec_labels());
        labels[self.position()].to_owned()
    }

    /// The key under which Odoo stores the value.
    pub fn selection_key(&self) -> (res: &'static str)
        ensures
            res@ == self.spec_selection_key(),
    {
        match self {
            AccountJournalInvoiceReferenceModel::Odoo => "odoo",
            AccountJournalInvoiceReferenceModel::Euro => "euro",
        }
    }

    /// The value stored under `key`, if any.
    pub fn from_selection_key(key: &str) -> (res: Option<AccountJournalInvoiceReferenceModel>)
        ensures
            res == AccountJournalInvoiceReferenceModel::spec_from_selection_key(key@),
    {
        if text_is(key, "odoo") {
            Some(AccountJournalInvoiceReferenceModel::Odoo)
        } else if text_is(key, "euro") {
            Some(AccountJournalInvoiceReferenceModel::Euro)
        } else {
            None
        }
    }

    /// Law: the value stored under a value's key is that value, so
    /// values are written and read back unchanged.
    pub proof fn lemma_selection_key_roundtrip(self)
        ensures
            AccountJournalInvoiceReferenceModel::spec_from_selection_key(self.spec_selection_key()) == Some(self),
    {
        reveal_strlit("odoo");
        reveal_strlit("euro");
        assert("odoo"@[0] != "euro"@[0]);
    }

    /// Law: each value is shown under its Odoo label and stored under its
    /// Odoo key (Odoo as "odoo", Euro as "euro"), and a key reads back as exactly the value
    /// stored under it.
    pub proof fn lemma_labels_and_keys()
        ensures
            AccountJournalInvoiceReferenceModel::Odoo.spec_display() == "Odoo"@,
            AccountJournalInvoiceReferenceModel::Odoo.spec_selection_key() == "odoo"@,
            AccountJournalInvoiceReferenceModel::Euro.spec_display() == "European"@,
            AccountJournalInvoiceReferenceModel::Euro.spec_selection_key() == "euro"@,
            forall|key: Seq<char>, v: AccountJournalInvoiceReferenceModel|
                AccountJournalInvoiceReferenceModel::spec_from_selection_key(key) == Some(v) <==> key == v.spec_selection_key(),
    {
        reveal_strlit("odoo");
        reveal_strlit("euro");
        assert forall|key: Seq<char>, v: AccountJournalInvoiceReferenceModel|
            AccountJournalInvoiceReferenceModel::spec_from_selection_key(key) == Some(v) <==> key == v.spec_selection_key() by {
            v.lemma_selection_key_roundtrip();
        }
    }
}

/// A journal as it is read from Odoo 18.
#[derive(Debug, Clone)]
pub struct AccountJournalFromOdoo18 {
    pub id: u64,
    pub name: String,
    pub code: String,
    pub active: bool,
    /// Odoo's field `type`.
    pub type_: AccountJournalType,
    pub autocheck_on_post: bool,
    pub restrict_mode_hash_table: bool,
    pub sequence: u16,
    pub invoice_reference_type: AccountJournalInvoiceReferenceType,
    pub invoice_reference_model: AccountJournalInvoiceReferenceModel,
}

impl FieldnamesAsStringVec for AccountJournalFromOdoo18 {
    /// Every field but `type_`, which is read under its Odoo name.
    open spec fn spec_field_names() -> Seq<Seq<char>> {
        seq!["id"@, "name"@, "code"@, "active"@, "autocheck_on_post"@, "restrict_mode_hash_table"@, "sequence"@, "invoice_reference_type"@, "invoice_reference_model"@]
    }

    fn field_names_as_string_vec() -> (res: Vec<String>) {
        let names: [&str; 9] = ["id", "name", "code", "active", "autocheck_on_post", "restrict_mode_hash_table", "sequence", "invoice_reference_type", "invoice_reference_model"];
        let res = strings_from(&names);
        assert(names@.map_values(|s: &str| s@) =~= Self::spec_field_names());
        res
    }
}

/// The fields read for an Odoo 18 journal: those of the record, then `type`.
pub fn account_journal_from_odoo_18_fields() -> (res: Vec<String>)
    ensures
        texts_view(res@) == AccountJournalFromOdoo18::spec_field_names().push("type"@),
{
    let mut d = AccountJournalFromOdoo18::field_names_as_string_vec();
    d.push("type".to_owned());
    assert(texts_view(d@) =~= AccountJournalFromOdoo18::spec_field_names().push("type"@));
    d
}

/// A journal as it is created in Odoo 19.
#[derive(Debug, Clone)]
pub struct AccountJournalToOdoo19 {
    pub name: String,
    pub code: String,
    pub active: bool,
    /// Odoo's field `type`.
    pub type_: AccountJournalType,
    pub restrict_mode_hash_table: bool,
    pub sequence: u16,
    pub invoice_reference_type: AccountJournalInvoiceReferenceType,
    pub invoice_reference_model: AccountJournalInvoiceReferenceModel,
}

impl AccountJournalToOdoo19 {
    /// The Odoo 19 journal that stands for an Odoo 18 one: the same
    /// values, without `autocheck_on_post`, which Odoo 19 no longer has.
    pub fn from_odoo_18(journal: AccountJournalFromOdoo18) -> (res: AccountJournalToOdoo19)
        ensures
            res.name == journal.name,
            res.code == journal.code,
            res.active == journal.active,
            res.type_ == journal.type_,
            res.restrict_mode_hash_table == journal.restrict_mode_hash_table,
            res.sequence == journal.sequence,
            res.invoice_reference_type == journal.invoice_reference_type,
            res.invoice_reference_model == journal.invoice_reference_model,
    {
        AccountJournalToOdoo19 {
            name: journal.name,
            code: journal.code,
            active: journal.active,
            type_: journal.type_,
            restrict_mode_hash_table: journal.restrict_mode_hash_table,
            sequence: journal.sequence,
            invoice_reference_type: journal.invoice_reference_type,
            invoice_reference_model: journal.invoice_reference_model,
        }
    }
}

} // verus!
