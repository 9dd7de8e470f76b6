//! Sales orders (`sale.order`).

use vstd::prelude::*;

use crate::models::Many2OneRepr;
use crate::utils::{strings_from, text_is, texts_view, FieldnamesAsStringVec};

verus! {

/// The state of a sales order.
#[derive(Debug, Clone, Copy, PartialEq, Eq, Structural, PartialOrd, Ord, Hash)]
pub enum SaleOrderState {
    Draft,
    Sent,
    Sale,
    Cancel,
}

impl SaleOrderState {
    /// The position of the value in declaration order.
    pub open spec fn spec_position(self) -> int {
        match self {
            SaleOrderState::Draft => 0,
            SaleOrderState::Sent => 1,
            SaleOrderState::Sale => 2,
            SaleOrderState::Cancel => 3,
        }
    }

    /// The labels that Odoo shows, in declaration order.
    pub open spec fn spec_labels() -> Seq<Seq<char>> {
        seq!["Quotation"@, "Quotation Sent"@, "Sales Order"@, "Cancelled"@]
    }

    /// The label that Odoo shows for the value.
    pub open spec fn spec_display(self) -> Seq<char> {
        SaleOrderState::spec_labels()[self.spec_position()]
    }

    /// The key under which Odoo stores the value.
    pub open spec fn spec_selection_key(self) -> Seq<char> {
        match self {
            SaleOrderState::Draft => "draft"@,
            SaleOrderState::Sent => "sent"@,
            SaleOrderState::Sale => "sale"@,
            SaleOrderState::Cancel => "cancel"@,
        }
    }

    /// The value stored under `key`, if any.
    pub open spec fn spec_from_selection_key(key: Seq<char>) -> Option<SaleOrderState> {
        if key == "draft"@ {
            Some(SaleOrderState::Draft)
        } else if key == "sent"@ {
            Some(SaleOrderState::Sent)
        } else if key == "sale"@ {
            Some(SaleOrderState::Sale)
        } else if key == "cancel"@ {
            Some(SaleOrderState::Cancel)
        } else {
            None
        }
    }

    /// The position of the value in declaration order.
    fn position(&self) -> (res: usize)
        ensures
            res == self.spec_position(),
            res < 4,
    {
        match self {
            SaleOrderState::Draft => 0,
            SaleOrderState::Sent => 1,
            SaleOrderState::Sale => 2,
            SaleOrderState::Cancel => 3,
        }
    }

    /// The label that Odoo shows for the value.
    pub fn to_display_string(&self) -> (res: String)
        ensures
            res@ == self.spec_display(),
    {
        let labels: [&str; 4] = ["Quotation", "Quotation Sent", "Sales Order", "Cancelled"];
        assert(labels@.map_values(|s: &str| s@) =~= SaleOrderState::spec_labels());
        labels[self.position()].to_owned()
    }

    /// The key under which Odoo stores the value.
    pub fn selection_key(&self) -> (res: &'static str)
        ensures
            res@ == self.spec_selection_key(),
    {
        match self {
            SaleOrderState::Draft => "draft",
            SaleOrderState::Sent => "sent",
            SaleOrderState::Sale => "sale",
            SaleOrderState::Cancel => "cancel",
        }
    }

    /// The value stored under `key`, if any.
    pub fn from_selection_key(key: &str) -> (res: Option<SaleOrderState>)
        ensures
            res == SaleOrderState::spec_from_selection_key(key@),
    {
        if text_is(key, "draft") {
            Some(SaleOrderState::Draft)
        } else if text_is(key, "sent") {
            Some(SaleOrderState::Sent)
        } else if text_is(key, "sale") {
            Some(SaleOrderState::Sale)
        } else if text_is(key, "cancel") {
            Some(SaleOrderState::Cancel)
        } else {
            None
        }
    }

    /// Law: the value stored under a value's key is that value, so
    /// values are written and read back unchanged.
    pub proof fn lemma_selection_key_roundtrip(self)
        ensures
            SaleOrderState::spec_from_selection_key(self.spec_selection_key()) == Some(self),
    {
        reveal_strlit("draft");
        reveal_strlit("sent");
        reveal_strlit("sale");
        reveal_strlit("cancel");
        assert("draft"@.len() != "sent"@.len());
        assert("draft"@.len() != "sale"@.len());
        assert("draft"@.len() != "cancel"@.len());
        assert("sent"@[1] != "sale"@[1]);
        assert("sent"@.len() != "cancel"@.len());
        assert("sale"@.len() != "cancel"@.len());
    }

    /// Law: each value is shown under its Odoo label and stored under its
    /// Odoo key (Draft as "draft", Sent as "sent", Sale as "sale", Cancel as "cancel"), and a key reads back as exactly the value
    /// stored under it.
    pub proof fn lemma_labels_and_keys()
        ensures
            SaleOrderState::Draft.spec_display() == "Quotation"@,
            SaleOrderState::Draft.spec_selection_key() == "draft"@,
            SaleOrderState::Sent.spec_display() == "Quotation Sent"@,
            SaleOrderState::Sent.spec_selection_key() == "sent"@,
            SaleOrderState::Sale.spec_display() == "Sales Order"@,
            SaleOrderState::Sale.spec_selection_key() == "sale"@,
            SaleOrderState::Cancel.spec_display() == "Cancelled"@,
            SaleOrderState::Cancel.spec_selection_key() == "cancel"@,
            forall|key: Seq<char>, v: SaleOrderState|
                SaleOrderState::spec_from_selection_key(key) == Some(v) <==> key == v.spec_selection_key(),
    {
        reveal_strlit("draft");
        reveal_strlit("sent");
        reveal_strlit("sale");
        reveal_strlit("cancel");
        assert forall|key: Seq<char>, v: SaleOrderState|
            SaleOrderState::spec_from_selection_key(key) == Some(v) <==> key == v.spec_selection_key() by {
            v.lemma_selection_key_roundtrip();
        }
    }
}

/// The Odoo model of sales orders.
pub const SALES_ORDER_MODEL_NAME: &'static str = "sale.order";

/// A sales order as it is read from Odoo 18.
#[derive(Debug, Clone)]
pub struct SalesOrderFrom18 {
    pub id: u64,
    pub name: String,
    pub company_id: Many2OneRepr,
    pub partner_id: Many2OneRepr,
    pub state: SaleOrderState,
    pub locked: bool,
    pub client_order_ref: Option<String>,
    pub create_date: String,
    pub commitment_date: Option<String>,
    pub date_order: Option<String>,
    pub origin: Option<String>,
    pub reference: Option<String>,
    pub partner_invoice_id: Many2OneRepr,
    pub partner_shipping_id: Many2OneRepr,
}

impl FieldnamesAsStringVec for SalesOrderFrom18 {
    open spec fn spec_field_names() -> Seq<Seq<char>> {
        seq!["id"@, "name"@, "company_id"@, "partner_id"@, "state"@, "locked"@, "client_order_ref"@, "create_date"@, "commitment_date"@, "date_order"@, "origin"@, "reference"@, "partner_invoice_id"@, "partner_shipping_id"@]
    }

    fn field_names_as_string_vec() -> (res: Vec<String>) {
        let names: [&str; 14] = ["id", "name", "company_id", "partner_id", "state", "locked", "client_order_ref", "create_date", "commitment_date", "date_order", "origin", "reference", "partner_invoice_id", "partner_shipping_id"];
        let res = strings_from(&names);
        assert(names@.map_values(|s: &str| s@) =~= Self::spec_field_names());
        res
    }
}

/// A sales order as it is created in Odoo 19.
#[derive(Debug, Clone)]
pub struct SalesOrderTo19 {
    pub name: String,
    pub state: SaleOrderState,
    pub partner_id: u64,
    pub client_order_ref: Option<String>,
    pub create_date: String,
    pub commitment_date: Option<String>,
    pub date_order: Option<String>,
    pub origin: Option<String>,
    pub reference: Option<String>,
    pub partner_invoice_id: u64,
    pub partner_shipping_id: u64,
}

/// The Odoo 19 sales order for an Odoo 18 one, with the given contacts.
pub open spec fn sales_order_to_19(
    order: SalesOrderFrom18,
    partner_id: u64,
    partner_invoice_id: u64,
    partner_shipping_id: u64,
) -> SalesOrderTo19 {
    SalesOrderTo19 {
        name: order.name,
        state: order.state,
        partner_id,
        client_order_ref: order.client_order_ref,
        create_date: order.create_date,
        commitment_date: order.commitment_date,
        date_order: order.date_order,
        origin: order.origin,
        reference: order.reference,
        partner_invoice_id,
        partner_shipping_id,
    }
}

/// Law: the Odoo 19 order keeps every field of the Odoo 18 order but its
/// contacts, which are the ones given.
pub proof fn lemma_sales_order_keeps_its_fields(
    order: SalesOrderFrom18,
    partner_id: u64,
    partner_invoice_id: u64,
    partner_shipping_id: u64,
)
    ensures
        ({
            let res = sales_order_to_19(order, partner_id, partner_invoice_id, partner_shipping_id);
            &&& res.name == order.name
            &&& res.state == order.state
            &&& res.client_order_ref == order.client_order_ref
            &&& res.create_date == order.create_date
            &&& res.commitment_date == order.commitment_date
            &&& res.date_order == order.date_order
            &&& res.origin == order.origin
            &&& res.reference == order.reference
            &&& res.partner_id == partner_id
            &&& res.partner_invoice_id == partner_invoice_id
            &&& res.partner_shipping_id == partner_shipping_id
        }),
{
}

impl SalesOrderTo19 {
    /// The Odoo 19 sales order created for an Odoo 18 one, given the Odoo 19
    /// contacts that stand for its customer, invoice and delivery contacts.
    pub fn from_odoo_18(
        order: SalesOrderFrom18,
        partner_id: u64,
        partner_invoice_id: u64,
        partner_shipping_id: u64,
    ) -> (res: SalesOrderTo19)
        ensures
            res == sales_order_to_19(order, partner_id, partner_invoice_id, partner_shipping_id),
            res.name == order.name,
            res.state == order.state,
            res.client_order_ref == order.client_order_ref,
            res.create_date == order.create_date,
            res.commitment_date == order.commitment_date,
            res.date_order == order.date_order,
            res.origin == order.origin,
            res.reference == order.reference,
            res.partner_id == partner_id,
            res.partner_invoice_id == partner_invoice_id,
            res.partner_shipping_id == partner_shipping_id,
    {
        SalesOrderTo19 {
            name: order.name,
            state: order.state,
            partner_id,
            client_order_ref: order.client_order_ref,
            create_date: order.create_date,
            commitment_date: order.commitment_date,
            date_order: order.date_order,
            origin: order.origin,
            reference: order.reference,
            partner_invoice_id,
            partner_shipping_id,
        }
    }
}

/// The order with its contacts' Odoo 18 identifiers kept as they are.
impl From<SalesOrderFrom18> for SalesOrderTo19 {
    fn from(value: SalesOrderFrom18) -> (res: SalesOrderTo19) {
        let partner_id = value.partner_id.id;
        let partner_invoice_id = value.partner_invoice_id.id;
        let partner_shipping_id = value.partner_shipping_id.id;
        SalesOrderTo19::from_odoo_18(value, partner_id, partner_invoice_id, partner_shipping_id)
    }
}

impl vstd::std_specs::convert::FromSpecImpl<SalesOrderFrom18> for SalesOrderTo19 {
    open spec fn obeys_from_spec() -> bool {
        true
    }

    open spec fn from_spec(v: SalesOrderFrom18) -> SalesOrderTo19 {
        sales_order_to_19(v, v.partner_id.id, v.partner_invoice_id.id, v.partner_shipping_id.id)
    }
}

} // verus!
