//! Products (`product.template`).

use vstd::prelude::*;

use crate::utils::{strings_from, text_is, texts_view};

verus! {

/// The Odoo model of products.
pub const PRODUCT_TEMPLATE_MODEL_NAME: &'static str = "product.template";

/// The kind of a product.
#[derive(Debug, Clone, Copy, PartialEq, Eq, Structural, PartialOrd, Ord, Hash)]
pub enum ProductTemplateType {
    Consu,
    Service,
    Combo,
}

impl ProductTemplateType {
    /// The position of the value in declaration order.
    pub open spec fn spec_position(self) -> int {
        match self {
            ProductTemplateType::Consu => 0,
            ProductTemplateType::Service => 1,
            ProductTemplateType::Combo => 2,
        }
    }

    /// The labels that Odoo shows, in declaration order.
    pub open spec fn spec_labels() -> Seq<Seq<char>> {
        seq!["Goods"@, "Service"@, "Combo"@]
    }

    /// The label that Odoo shows for the value.
    pub open spec fn spec_display(self) -> Seq<char> {
        ProductTemplateType::spec_labels()[self.spec_position()]
    }

    /// The key under which Odoo stores the value.
    pub open spec fn spec_selection_key(self) -> Seq<char> {
        match self {
            ProductTemplateType::Consu => "consu"@,
            ProductTemplateType::Service => "service"@,
            ProductTemplateType::Combo => "combo"@,
        }
    }

    /// The value stored under `key`, if any.
    pub open spec fn spec_from_selection_key(key: Seq<char>) -> Option<ProductTemplateType> {
        if key == "consu"@ {
            Some(ProductTemplateType::Consu)
        } else if key == "service"@ {
            Some(ProductTemplateType::Service)
        } else if key == "combo"@ {
            Some(ProductTemplateType::Combo)
        } else {
            None
        }
    }

    /// The position of the value in declaration order.
    fn position(&self) -> (res: usize)
        ensures
            res == self.spec_position(),
            res < 3,
    {
        match self {
            ProductTemplateType::Consu => 0,
            ProductTemplateType::Service => 1,
            ProductTemplateType::Combo => 2,
        }
    }

    /// The label that Odoo shows for the value.
    pub fn to_display_string(&self) -> (res: String)
        ensures
            res@ == self.spec_display(),
    {
        let labels: [&str; 3] = ["Goods", "Service", "Combo"];
        assert(labels@.map_values(|s: &str| s@) =~= ProductTemplateType::spec_labels());
        labels[self.position()].to_owned()
    }

    /// The key under which Odoo stores the value.
    pub fn selection_key(&self) -> (res: &'static str)
        ensures
            res@ == self.spec_selection_key(),
    {
        match self {
            ProductTemplateType::Consu => "consu",
            ProductTemplateType::Service => "service",
            ProductTemplateType::Combo => "combo",
        }
    }

    /// The value stored under `key`, if any.
    pub fn from_selection_key(key: &str) -> (res: Option<ProductTemplateType>)
        ensures
            res == ProductTemplateType::spec_from_selection_key(key@),
    {
        if text_is(key, "consu") {
            Some(ProductTemplateType::Consu)
        } else if text_is(key, "service") {
            Some(ProductTemplateType::Service)
        } else if text_is(key, "combo") {
            Some(ProductTemplateType::Combo)
        } else {
            None
        }
    }

    /// Law: the value stored under a value's key is that value, so
    /// values are written and read back unchanged.
    pub proof fn lemma_selection_key_roundtrip(self)
        ensures
            ProductTemplateType::spec_from_selection_key(self.spec_selection_key()) == Some(self),
    {
        reveal_strlit("consu");
        reveal_strlit("service");
        reveal_strlit("combo");
        assert("consu"@.len() != "service"@.len());
        assert("consu"@[2] != "combo"@[2]);
        assert("service"@.len() != "combo"@.len());
    }

    /// Law: each value is shown under its Odoo label and stored under its
    /// Odoo key (Consu as "consu", Service as "service", Combo as "combo"), and a key reads back as exactly the value
    /// stored under it.
    pub proof fn lemma_labels_and_keys()
        ensures
            ProductTemplateType::Consu.spec_display() == "Goods"@,
            ProductTemplateType::Consu.spec_selection_key() == "consu"@,
            ProductTemplateType::Service.spec_display() == "Service"@,
            ProductTemplateType::Service.spec_selection_key() == "service"@,
            ProductTemplateType::Combo.spec_display() == "Combo"@,
            ProductTemplateType::Combo.spec_selection_key() == "combo"@,
            forall|key: Seq<char>, v: ProductTemplateType|
                ProductTemplateType::spec_from_selection_key(key) == Some(v) <==> key == v.spec_selection_key(),
    {
        reveal_strlit("consu");
        reveal_strlit("service");
        reveal_strlit("combo");
        assert forall|key: Seq<char>, v: ProductTemplateType|
            ProductTemplateType::spec_from_selection_key(key) == Some(v) <==> key == v.spec_selection_key() by {
            v.lemma_selection_key_roundtrip();
        }
    }
}

impl Default for ProductTemplateType {
    fn default() -> (res: ProductTemplateType)
        ensures
            res == ProductTemplateType::Consu,
    {
        ProductTemplateType::Consu
    }
}

/// What is created when a service is sold.
#[derive(Debug, Clone, Copy, PartialEq, Eq, Structural, PartialOrd, Ord, Hash)]
pub enum ProductServiceTracking {
    No,
}

impl ProductServiceTracking {
    /// The position of the value in declaration order.
    pub open spec fn spec_position(self) -> int {
        match self {
            ProductServiceTracking::No => 0,
        }
    }

    /// The labels that Odoo shows, in declaration order.
    pub open spec fn spec_labels() -> Seq<Seq<char>> {
        seq!["Nothing"@]
    }

    /// The label that Odoo shows for the value.
    pub open spec fn spec_display(self) -> Seq<char> {
        ProductServiceTracking::spec_labels()[self.spec_position()]
    }

    /// The key under which Odoo stores the value.
    pub open spec fn spec_selection_key(self) -> Seq<char> {
        match self {
            ProductServiceTracking::No => "no"@,
        }
    }

    /// The value stored under `key`, if any.
    pub open spec fn spec_from_selection_key(key: Seq<char>) -> Option<ProductServiceTracking> {
        if key == "no"@ {
            Some(ProductServiceTracking::No)
        } else {
            None
        }
    }

    /// The position of the value in declaration order.
    fn position(&self) -> (res: usize)
        ensures
            res == self.spec_position(),
            res < 1,
    {
        match self {
            ProductServiceTracking::No => 0,
        }
    }

    /// The label that Odoo shows for the value.
    pub fn to_display_string(&self) -> (res: String)
        ensures
            res@ == self.spec_display(),
    {
        let labels: [&str; 1] = ["Nothing"];
        assert(labels@.map_values(|s: &str| s@) =~= ProductServiceTracking::spec_labels());
        labels[self.position()].to_owned()
    }

    /// The key under which Odoo stores the value.
    pub fn selection_key(&self) -> (res: &'static str)
        ensures
            res@ == self.spec_selection_key(),
    {
        match self {
            ProductServiceTracking::No => "no",
        }
    }

    /// The value stored under `key`, if any.
    pub fn from_selection_key(key: &str) -> (res: Option<ProductServiceTracking>)
        ensures
            res == ProductServiceTracking::spec_from_selection_key(key@),
    {
        if text_is(key, "no") {
            Some(ProductServiceTracking::No)
        } else {
            None
        }
    }

    /// Law: the value stored under a value's key is that value, so
    /// values are written and read back unchanged.
    pub proof fn lemma_selection_key_roundtrip(self)
        ensures
            ProductServiceTracking::spec_from_selection_key(self.spec_selection_key()) == Some(self),
    {
        reveal_strlit("no");
    }

    /// Law: each value is shown under its Odoo label and stored under its
    /// Odoo key (No as "no"), and a key reads back as exactly the value
    /// stored under it.
    pub proof fn lemma_labels_and_keys()
        ensures
            ProductServiceTracking::No.spec_display() == "Nothing"@,
            ProductServiceTracking::No.spec_selection_key() == "no"@,
            forall|key: Seq<char>, v: ProductServiceTracking|
                ProductServiceTracking::spec_from_selection_key(key) == Some(v) <==> key == v.spec_selection_key(),
    {
        reveal_strlit("no");
        assert forall|key: Seq<char>, v: ProductServiceTracking|
            ProductServiceTracking::spec_from_selection_key(key) == Some(v) <==> key == v.spec_selection_key() by {
            v.lemma_selection_key_roundtrip();
        }
    }
}

impl Default for ProductServiceTracking {
    fn default() -> (res: ProductServiceTracking)
        ensures
            res == ProductServiceTracking::No,
    {
        ProductServiceTracking::No
    }
}

/// The fields read for an Odoo 18 product, in declaration order, with
/// `type` last.
pub open spec fn product_template_fields_spec() -> Seq<Seq<char>> {
    seq!["id"@, "name"@, "description"@, "description_purchase"@, "description_sale"@, "combo_ids"@, "service_tracking"@, "categ_id"@, "currency_id"@, "cost_currency_id"@, "list_price"@, "standard_price"@, "volume"@, "weight"@, "sale_ok"@, "purchase_ok"@, "uom_id"@, "uom_po_unit"@, "color"@, "attribute_line_ids"@, "valid_product_template_attribute_line_ids"@, "product_variant_ids"@, "barcode"@, "default_code"@, "product_document_ids"@, "product_tag_ids"@, "type"@]
}

/// The fields read for an Odoo 18 product: those of the record, then `type`.
pub fn product_template_from_odoo_18() -> (res: Vec<String>)
    ensures
        texts_view(res@) == product_template_fields_spec(),
{
    let names: [&str; 27] = ["id", "name", "description", "description_purchase", "description_sale", "combo_ids", "service_tracking", "categ_id", "currency_id", "cost_currency_id", "list_price", "standard_price", "volume", "weight", "sale_ok", "purchase_ok", "uom_id", "uom_po_unit", "color", "attribute_line_ids", "valid_product_template_attribute_line_ids", "product_variant_ids", "barcode", "default_code", "product_document_ids", "product_tag_ids", "type"];
    let res = strings_from(&names);
    assert(names@.map_values(|s: &str| s@) =~= product_template_fields_spec());
    res
}

} // verus!
