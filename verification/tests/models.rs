use odoo_18_quotations_to_19::models::account_account::{
    AccountAccountInternalGroup, AccountAccountType, ACCOUNT_ACCOUNT_MODEL_NAME,
};
use odoo_18_quotations_to_19::models::account_journal::{
    account_journal_from_odoo_18_fields, AccountJournalFromOdoo18,
    AccountJournalInvoiceReferenceModel, AccountJournalInvoiceReferenceType, AccountJournalToOdoo19,
    AccountJournalType,
};
use odoo_18_quotations_to_19::models::account_move::{
    account_move_from_odoo_18_fields, AccountMoveFromOdoo18, AccountMoveState, AccountMoveToOdoo19,
    AccountMoveType, AutoPostAccountMove, PayementStateSelection,
};
use odoo_18_quotations_to_19::models::account_move_line::AccountMoveLineDisplayType;
use odoo_18_quotations_to_19::models::account_tax::TypeTaxUse;
use odoo_18_quotations_to_19::models::crm_lead::{crm_lead_from_odoo_18_fields, TypeCrmLead};
use odoo_18_quotations_to_19::models::crm_stage::CrmStagePriorities;
use odoo_18_quotations_to_19::models::hr_employee::{HrIconDisplay, HrPresenceState, WorkLocationType};
use odoo_18_quotations_to_19::models::product_tag::{ProductTag, ProductTagToOdoo19};
use odoo_18_quotations_to_19::models::product_template::{
    product_template_from_odoo_18, ProductServiceTracking, ProductTemplateType,
};
use odoo_18_quotations_to_19::models::resource_resource::ResourceType;
use odoo_18_quotations_to_19::models::sales_order::{
    SaleOrderState, SalesOrderFrom18, SalesOrderTo19,
};
use odoo_18_quotations_to_19::models::sales_order_line::DisplayType;
use odoo_18_quotations_to_19::models::Many2OneRepr;
use odoo_18_quotations_to_19::utils::FieldnamesAsStringVec;

fn m2o(id: u64, name: &str) -> Many2OneRepr {
    Many2OneRepr { id, name: name.to_string() }
}

#[test]
fn display_labels() {
    assert_eq!(AccountAccountType::AssetCash.to_display_string(), "Bank and Cash");
    assert_eq!(AccountAccountType::OffBalance.to_display_string(), "Off-Balance Sheet");
    assert_eq!(AccountAccountInternalGroup::Off.to_display_string(), "Off Balance");
    assert_eq!(AccountJournalType::Credit.to_display_string(), "Credit Cash");
    assert_eq!(AccountJournalInvoiceReferenceType::NoReference.to_display_string(), "None");
    assert_eq!(AccountJournalInvoiceReferenceModel::Euro.to_display_string(), "European");
    assert_eq!(PayementStateSelection::InvoicingLegacy.to_display_string(), "Invoicing App Legacy");
    assert_eq!(AccountMoveState::Cancel.to_display_string(), "Cancelled");
    assert_eq!(AccountMoveType::Entry.to_display_string(), "Draft");
    assert_eq!(AutoPostAccountMove::AtDate.to_display_string(), "At Date");
    assert_eq!(AccountMoveLineDisplayType::Epd.to_display_string(), "Early Payment Discount");
    assert_eq!(TypeTaxUse::NoUse.to_display_string(), "None");
    assert_eq!(TypeCrmLead::Opportunity.to_display_string(), "Opportunity");
    assert_eq!(CrmStagePriorities::P3.to_display_string(), "Very High");
    assert_eq!(HrPresenceState::OutOfWorkingHour.to_display_string(), "Off-Hours");
    assert_eq!(HrIconDisplay::PresenceUndetermined.to_display_string(), "Undetermined");
    assert_eq!(WorkLocationType::Home.to_display_string(), "Home");
    assert_eq!(ProductTemplateType::Consu.to_display_string(), "Goods");
    assert_eq!(ProductServiceTracking::No.to_display_string(), "Nothing");
    assert_eq!(ResourceType::User.to_display_string(), "Human");
    assert_eq!(SaleOrderState::Sale.to_display_string(), "Sales Order");
    assert_eq!(DisplayType::LineNote.to_display_string(), "Note");
}

#[test]
fn selection_keys() {
    assert_eq!(AccountAccountType::AssetNonCurrent.selection_key(), "asset_non_current");
    assert_eq!(AccountAccountType::from_selection_key("expense_direct_cost"), Some(AccountAccountType::ExpenseDirectCost));
    assert_eq!(AccountAccountType::from_selection_key("nope"), None);
    assert_eq!(CrmStagePriorities::P2.selection_key(), "2");
    assert_eq!(CrmStagePriorities::from_selection_key("0"), Some(CrmStagePriorities::P0));
    assert_eq!(TypeTaxUse::NoUse.selection_key(), "none");
    assert_eq!(TypeTaxUse::from_selection_key("purchase"), Some(TypeTaxUse::Purchase));
    assert_eq!(AccountJournalInvoiceReferenceType::from_selection_key("none"), Some(AccountJournalInvoiceReferenceType::NoReference));
    assert_eq!(AccountMoveType::OutInvoice.selection_key(), "out_invoice");
    assert_eq!(AccountMoveLineDisplayType::PaymentTerm.selection_key(), "payment_term");
    assert_eq!(HrIconDisplay::PresenceOutOfWorkingHour.selection_key(), "presence_out_of_working_hour");
    assert_eq!(PayementStateSelection::from_selection_key("in_payment"), Some(PayementStateSelection::InPayment));
    for s in [SaleOrderState::Draft, SaleOrderState::Sent, SaleOrderState::Sale, SaleOrderState::Cancel] {
        assert_eq!(SaleOrderState::from_selection_key(s.selection_key()), Some(s));
    }
}

#[test]
fn defaults() {
    assert_eq!(HrPresenceState::default(), HrPresenceState::OutOfWorkingHour);
    assert_eq!(ProductTemplateType::default(), ProductTemplateType::Consu);
    assert_eq!(ProductServiceTracking::default(), ProductServiceTracking::No);
    assert_eq!(ResourceType::default(), ResourceType::User);
}

#[test]
fn model_names() {
    assert_eq!(ACCOUNT_ACCOUNT_MODEL_NAME, "account.account");
}

#[test]
fn journal_fields() {
    assert_eq!(
        account_journal_from_odoo_18_fields(),
        vec!["id", "name", "code", "active", "autocheck_on_post", "restrict_mode_hash_table",
            "sequence", "invoice_reference_type", "invoice_reference_model", "type"]
    );
}

#[test]
fn move_fields() {
    let f = account_move_from_odoo_18_fields();
    assert_eq!(f.last().unwrap(), "ref");
    assert_eq!(f.len(), 13);
    assert_eq!(f[0], "id");
    assert!(!f.contains(&"ref_".to_string()));
}

#[test]
fn lead_and_product_fields() {
    let f = crm_lead_from_odoo_18_fields();
    assert_eq!(f.len(), 21);
    assert_eq!(f.last().unwrap(), "type");
    assert!(!f.contains(&"type_".to_string()));
    let p = product_template_from_odoo_18();
    assert_eq!(p.len(), 27);
    assert_eq!(p[0], "id");
    assert_eq!(p.last().unwrap(), "type");
}

#[test]
fn sales_order_fields() {
    let f = SalesOrderFrom18::field_names_as_string_vec();
    assert_eq!(f.len(), 14);
    assert_eq!(f[13], "partner_shipping_id");
}

fn journal() -> AccountJournalFromOdoo18 {
    AccountJournalFromOdoo18 {
        id: 3,
        name: "Bank".into(),
        code: "BNK1".into(),
        active: true,
        type_: AccountJournalType::Bank,
        autocheck_on_post: true,
        restrict_mode_hash_table: false,
        sequence: 10,
        invoice_reference_type: AccountJournalInvoiceReferenceType::Invoice,
        invoice_reference_model: AccountJournalInvoiceReferenceModel::Odoo,
    }
}

#[test]
fn journal_conversion() {
    let j = AccountJournalToOdoo19::from_odoo_18(journal());
    assert_eq!(j.name, "Bank");
    assert_eq!(j.code, "BNK1");
    assert!(j.active);
    assert_eq!(j.type_, AccountJournalType::Bank);
    assert!(!j.restrict_mode_hash_table);
    assert_eq!(j.sequence, 10);
    assert_eq!(j.invoice_reference_type, AccountJournalInvoiceReferenceType::Invoice);
}

#[test]
fn move_conversion() {
    let m = AccountMoveFromOdoo18 {
        id: 1,
        name: "INV/1".into(),
        name_placeholder: None,
        ref_: Some("R".into()),
        date: "2024-01-01".into(),
        state: AccountMoveState::Posted,
        move_type: AccountMoveType::OutInvoice,
        is_storno: false,
        journal_id: m2o(3, "Sales"),
        journal_group_id: None,
        auto_post: AutoPostAccountMove::No,
        currency_id: m2o(1, "EUR"),
        partner_id: Some(m2o(8, "Bob")),
    };
    let t = AccountMoveToOdoo19::from_odoo_18(m, 30, 2, Some(80));
    assert_eq!(t.state, AccountMoveState::Draft);
    assert_eq!(t.journal_id, 30);
    assert_eq!(t.currency_id, 2);
    assert_eq!(t.partner_id, Some(80));
    assert_eq!(t.ref_, Some("R".to_string()));
    assert_eq!(t.move_type, AccountMoveType::OutInvoice);
}

fn order() -> SalesOrderFrom18 {
    SalesOrderFrom18 {
        id: 5,
        name: "S00005".into(),
        company_id: m2o(1, "Co"),
        partner_id: m2o(11, "Alice"),
        state: SaleOrderState::Sent,
        locked: false,
        client_order_ref: Some("PO-9".into()),
        create_date: "2024-02-02".into(),
        commitment_date: None,
        date_order: Some("2024-02-03".into()),
        origin: None,
        reference: None,
        partner_invoice_id: m2o(12, "Alice inv"),
        partner_shipping_id: m2o(13, "Alice ship"),
    }
}

#[test]
fn sales_order_from_keeps_ids() {
    let t = SalesOrderTo19::from(order());
    assert_eq!(t.partner_id, 11);
    assert_eq!(t.partner_invoice_id, 12);
    assert_eq!(t.partner_shipping_id, 13);
    assert_eq!(t.name, "S00005");
    assert_eq!(t.state, SaleOrderState::Sent);
    assert_eq!(t.client_order_ref, Some("PO-9".to_string()));
}

#[test]
fn sales_order_with_mapped_contacts() {
    let t = SalesOrderTo19::from_odoo_18(order(), 110, 120, 130);
    assert_eq!(t.partner_id, 110);
    assert_eq!(t.partner_invoice_id, 120);
    assert_eq!(t.partner_shipping_id, 130);
    assert_eq!(t.date_order, Some("2024-02-03".to_string()));
}

#[test]
fn product_tag_conversion() {
    let t = ProductTagToOdoo19::from_odoo_18(ProductTag {
        id: 2,
        name: "Eco".into(),
        sequence: Some(4),
        color: None,
    });
    assert_eq!(t.name, "Eco");
    assert_eq!(t.sequence, Some(4));
    assert_eq!(t.color, None);
    assert!(!t.visible_to_customers);
}

#[test]
fn many2one_pair() {
    let r = Many2OneRepr::from_pair((4, "x".to_string()));
    assert_eq!(r.as_pair(), (4, &"x".to_string()));
}
