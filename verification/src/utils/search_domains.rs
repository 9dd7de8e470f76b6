//! The conditions under which records are looked up.

use vstd::prelude::*;

use crate::json::{json_bool, json_from_bool, json_from_u64, json_string, json_text, json_u64};
use crate::odoo_api_commons::domain::operators::{EQUALS_TO, NOT_EQUALS_TO};
use crate::odoo_api_commons::domain::Domain;

verus! {

/// A condition as field, operator and value.
pub open spec fn condition_view(d: Domain) -> (Seq<char>, Seq<char>, serde_json::Value) {
    (d.0@, d.1@, d.2)
}

/// The conditions as fields, operators and values.
pub open spec fn domains_view(ds: Seq<Domain>) -> Seq<(Seq<char>, Seq<char>, serde_json::Value)> {
    ds.map_values(|d: Domain| condition_view(d))
}

fn condition(field: &str, operator: &str, value: serde_json::Value) -> (res: Domain)
    ensures
        condition_view(res) == (field@, operator@, value),
{
    Domain::new(field.to_owned(), operator.to_owned(), value)
}

/// The journal entries that are migrated: those that have a name (neither
/// the placeholder `/` nor none at all).
pub fn named_account_moves() -> (res: Vec<Domain>)
    ensures
        domains_view(res@) == seq![
            ("name"@, NOT_EQUALS_TO@, json_string("/"@)),
            ("name"@, NOT_EQUALS_TO@, json_bool(false)),
        ],
{
    let mut res = Vec::new();
    res.push(condition("name", NOT_EQUALS_TO, json_text("/")));
    res.push(condition("name", NOT_EQUALS_TO, json_from_bool(false)));
    assert(domains_view(res@) =~= seq![
        ("name"@, NOT_EQUALS_TO@, json_string("/"@)),
        ("name"@, NOT_EQUALS_TO@, json_bool(false)),
    ]);
    res
}

/// The records whose field `field` refers to the record `id` (the items of
/// a journal entry, the lines of an order, a record itself with `id`).
pub fn referring_to(field: &str, id: u64) -> (res: Vec<Domain>)
    ensures
        domains_view(res@) == seq![(field@, EQUALS_TO@, json_u64(id))],
{
    let mut res = Vec::new();
    res.push(condition(field, EQUALS_TO, json_from_u64(id)));
    assert(domains_view(res@) =~= seq![(field@, EQUALS_TO@, json_u64(id))]);
    res
}

/// The records whose field `field` is the text `value`.
pub fn with_text(field: &str, value: &str) -> (res: Vec<Domain>)
    ensures
        domains_view(res@) == seq![(field@, EQUALS_TO@, json_string(value@))],
{
    let mut res = Vec::new();
    res.push(condition(field, EQUALS_TO, json_text(value)));
    assert(domains_view(res@) =~= seq![(field@, EQUALS_TO@, json_string(value@))]);
    res
}

/// The Odoo 19 journals that stand for an Odoo 18 journal: same name and
/// same code.
pub fn journal_with_name_and_code(name: &str, code: &str) -> (res: Vec<Domain>)
    ensures
        domains_view(res@) == seq![
            ("name"@, EQUALS_TO@, json_string(name@)),
            ("code"@, EQUALS_TO@, json_string(code@)),
        ],
{
    let mut res = Vec::new();
    res.push(condition("name", EQUALS_TO, json_text(name)));
    res.push(condition("code", EQUALS_TO, json_text(code)));
    assert(domains_view(res@) =~= seq![
        ("name"@, EQUALS_TO@, json_string(name@)),
        ("code"@, EQUALS_TO@, json_string(code@)),
    ]);
    res
}

} // verus!
