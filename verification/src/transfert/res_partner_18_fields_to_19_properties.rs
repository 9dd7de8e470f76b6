//! Copying a field of Odoo 18 contacts into a property of Odoo 19 contacts.

use vstd::prelude::*;

use crate::error::MigrationError;
use crate::json::{entries_view, json_as_u64, json_object, json_object_of, json_string, json_text, json_u64};
use crate::pattern::{capture_view, regex_capture_named, regex_compiles, regex_named_capture};

verus! {

/// The pattern that marks a property given by its label: `string:(label)`,
/// the label being any text without a closing parenthesis.
pub const PROPERTY_LABEL_PATTERN: &'static str = "string:\\((?<inner>[^)]*)\\)";

/// The capture group of `PROPERTY_LABEL_PATTERN` that holds the label.
pub const PROPERTY_LABEL_GROUP: &'static str = "inner";

/// How the Odoo 19 contact property to fill is given.
#[derive(Debug, Clone, PartialEq, Eq)]
pub enum X19PropertyName {
    /// The property name
    Name(String),
    /// The property string value
    String(String),
}

/// Why a property name could not be read.
#[derive(Debug)]
pub enum X19PropertyNameParseError {
    /// The pattern was refused by the regular-expression engine.
    Regex(regex::Error),
    /// The `inner` of the `string:()` is empty
    EmptyInner,
}

/// A property of an Odoo 19 contact: its technical name and its label.
#[derive(Debug, Clone)]
pub struct X19Property {
    pub name: String,
    pub string: String,
}

/// The property name that `text` denotes, given what the label pattern
/// captured in it.
pub open spec fn property_name_from_capture(
    text: Seq<char>,
    capture: Option<Option<Seq<char>>>,
) -> Option<X19PropertyNameView> {
    match capture {
        None => Some(X19PropertyNameView::Name(text)),
        Some(None) => None,
        Some(Some(inner)) => if inner.len() == 0 {
            None
        } else {
            Some(X19PropertyNameView::String(inner))
        },
    }
}

/// The value of an `X19PropertyName`, with its text as a sequence.
pub enum X19PropertyNameView {
    Name(Seq<char>),
    String(Seq<char>),
}

impl View for X19PropertyName {
    type V = X19PropertyNameView;

    open spec fn view(&self) -> X19PropertyNameView {
        match self {
            X19PropertyName::Name(n) => X19PropertyNameView::Name(n@),
            X19PropertyName::String(s) => X19PropertyNameView::String(s@),
        }
    }
}

/// The first property, in order, whose label is `label`.
pub open spec fn first_with_label(properties: Seq<X19Property>, label: Seq<char>) -> Option<int> {
    if exists|i: int| 0 <= i < properties.len() && properties[i].string@ == label {
        Some(
            choose|i: int|
                0 <= i < properties.len() && properties[i].string@ == label && forall|j: int|
                    0 <= j < i ==> properties[j].string@ != label,
        )
    } else {
        None
    }
}

impl X19PropertyName {
    /// Reads a property name from `text` given what the label pattern
    /// captured in it: no match means `text` is the name itself; a match
    /// gives the label inside `string:(...)`, which must not be empty.
    pub fn from_capture(text: &str, capture: Option<Option<String>>) -> (res: Result<
        X19PropertyName,
        X19PropertyNameParseError,
    >)
        ensures
            match property_name_from_capture(text@, capture_view(capture)) {
                Some(v) => res matches Ok(p) && p@ == v,
                None => res matches Err(X19PropertyNameParseError::EmptyInner),
            },
    {
        match capture {
            None => Ok(X19PropertyName::Name(text.to_owned())),
            Some(None) => Err(X19PropertyNameParseError::EmptyInner),
            Some(Some(inner)) => if inner.as_str().is_empty() {
                Err(X19PropertyNameParseError::EmptyInner)
            } else {
                Ok(X19PropertyName::String(inner))
            },
        }
    }

    /// Reads a property name as given on the command line: `string:(label)`
    /// names a property by its label, anything else is the property name.
    pub fn parse(text: &str) -> (res: Result<X19PropertyName, X19PropertyNameParseError>)
        ensures
            !regex_compiles(PROPERTY_LABEL_PATTERN@) ==> res matches Err(
                X19PropertyNameParseError::Regex(_),
            ),
            regex_compiles(PROPERTY_LABEL_PATTERN@) ==> match property_name_from_capture(
                text@,
                regex_named_capture(PROPERTY_LABEL_PATTERN@, text@, PROPERTY_LABEL_GROUP@),
            ) {
                Some(v) => res matches Ok(p) && p@ == v,
                None => res matches Err(X19PropertyNameParseError::EmptyInner),
            },
    {
        match regex_capture_named(PROPERTY_LABEL_PATTERN, text, PROPERTY_LABEL_GROUP) {
            Err(e) => Err(X19PropertyNameParseError::Regex(e)),
            Ok(capture) => Self::from_capture(text, capture),
        }
    }

    /// Whether the property name has to be looked up among the properties
    /// of the Odoo 19 contacts (it is given by its label).
    pub fn needs_lookup(&self) -> (res: bool)
        ensures
            res == (self is String),
    {
        match self {
            X19PropertyName::Name(_) => false,
            X19PropertyName::String(_) => true,
        }
    }

    /// The technical name of the property.  A name given as such is
    /// returned; a label is looked up in `properties`, the properties of
    /// the first Odoo 19 contact (`None` where there is no contact), and the
    /// name of the first property with that label is returned.
    pub fn resolve_name(self, properties: Option<Vec<X19Property>>) -> (res: Result<String, MigrationError>)
        ensures
            match self {
                X19PropertyName::Name(n) => res == Ok::<String, MigrationError>(n),
                X19PropertyName::String(label) => match properties {
                    None => res matches Err(MigrationError::PropertiesNotFound(l)) && l@ == label@,
                    Some(props) => match first_with_label(props@, label@) {
                        None => res matches Err(MigrationError::PropertiesNotFound(l)) && l@ == label@,
                        Some(i) => res matches Ok(n) && n@ == props@[i].name@,
                    },
                },
            },
    {
        match self {
            X19PropertyName::Name(name) => Ok(name),
            X19PropertyName::String(label) => match properties {
                None => Err(MigrationError::PropertiesNotFound(label)),
                Some(props) => match find_property_name(&props, &label) {
                    None => Err(MigrationError::PropertiesNotFound(label)),
                    Some(name) => Ok(name),
                },
            },
        }
    }
}

/// The name of the first property whose label is `label`.
pub fn find_property_name(properties: &Vec<X19Property>, label: &String) -> (res: Option<String>)
    ensures
        match first_with_label(properties@, label@) {
            None => res is None,
            Some(i) => res matches Some(n) && n@ == properties@[i].name@,
        },
{
    let mut i: usize = 0;
    while i < properties.len()
        invariant
            0 <= i <= properties.len(),
            forall|j: int| 0 <= j < i ==> properties@[j].string@ != label@,
        decreases properties.len() - i,
    {
        if properties[i].string == *label {
            let ghost k = i as int;
            assert(properties@[k].string@ == label@);
            assert(first_with_label(properties@, label@) == Some(k)) by {
                let c = choose|m: int|
                    0 <= m < properties@.len() && properties@[m].string@ == label@ && forall|
                        j: int,
                    |
                        0 <= j < m ==> properties@[j].string@ != label@;
                assert(0 <= c < properties@.len() && properties@[c].string@ == label@ && forall|
                    j: int,
                |
                    0 <= j < c ==> properties@[j].string@ != label@);
                if c < k {
                } else if c > k {
                    assert(properties@[k].string@ != label@);
                }
            }
            return Some(properties[i].name.clone());
        }
        i = i + 1;
    }
    None
}

/// Copying the field `x_18_field` of the Odoo 18 contacts into the property
/// `x_19_property_name` of the Odoo 19 contacts, `batch_limit` contacts at a
/// time.
#[derive(Debug, Clone)]
pub struct ResPartner18FieldsTo19PropertiesArg {
    /// The Odoo 18 contact (res.partner) field to take the value from
    pub x_18_field: String,
    /// The Odoo 19 contact (res.parter) "properties" name to put the O18
    /// field value into.  Wrap a label as `string:(<label>)`.
    pub x_19_property_name: X19PropertyName,
    /// Contacts per batch (never zero).
    pub batch_limit: Option<u32>,
}

impl ResPartner18FieldsTo19PropertiesArg {
    /// The number of contacts per batch: the one given, else 30.
    pub fn batch_limit(&self) -> (res: u32)
        ensures
            res == (match self.batch_limit {
                Some(l) => l,
                None => 30,
            }),
    {
        match self.batch_limit {
            Some(l) => l,
            None => 30,
        }
    }
}

/// A contact read from Odoo 18 for the copy: the JSON values of its `id`
/// and of the copied field, each where the record holds it.
#[derive(Debug, Clone)]
pub struct PartnerFieldRow {
    pub id: Option<serde_json::Value>,
    pub value: Option<serde_json::Value>,
}

/// The identifier that a JSON value spells: the unsigned integer `n` whose
/// JSON number it is, if any.
pub open spec fn json_id(v: serde_json::Value) -> Option<u64> {
    if exists|n: u64| v == json_u64(n) {
        Some(choose|n: u64| v == json_u64(n))
    } else {
        None
    }
}

/// `rows` with the value of `id` set to `v`: in place where `id` is already
/// there, else added at the end.
pub open spec fn set_row_value(rows: Seq<(u64, serde_json::Value)>, id: u64, v: serde_json::Value) -> Seq<(u64, serde_json::Value)> {
    if exists|j: int| 0 <= j < rows.len() && rows[j].0 == id {
        rows.update(choose|j: int| 0 <= j < rows.len() && rows[j].0 == id, (id, v))
    } else {
        rows.push((id, v))
    }
}

/// No identifier occurs twice in `rows`.
pub open spec fn ids_are_distinct(rows: Seq<(u64, serde_json::Value)>) -> bool {
    forall|j: int, k: int| 0 <= j < rows.len() && 0 <= k < rows.len() && j != k ==> rows[j].0 != rows[k].0
}

/// The contacts whose field is copied, with the value copied: the rows
/// whose `id` is an unsigned integer and that hold a value, one entry per
/// identifier, holding the last value read for it.
pub open spec fn rows_to_copy_spec(rows: Seq<PartnerFieldRow>) -> Seq<(u64, serde_json::Value)>
    decreases rows.len(),
{
    if rows.len() == 0 {
        seq![]
    } else {
        let prev = rows_to_copy_spec(rows.drop_last());
        match (rows.last().id, rows.last().value) {
            (Some(idv), Some(v)) => match json_id(idv) {
                Some(id) => set_row_value(prev, id, v),
                None => prev,
            },
            _ => prev,
        }
    }
}

/// The contacts whose field is copied, with the value copied: the rows
/// whose `id` is an unsigned integer and that hold a value, one entry per
/// identifier, holding the last value read for it.
pub fn rows_to_copy(rows: Vec<PartnerFieldRow>) -> (res: Vec<(u64, serde_json::Value)>)
    ensures
        res@ == rows_to_copy_spec(rows@),
        ids_are_distinct(res@),
{
    let mut res: Vec<(u64, serde_json::Value)> = Vec::new();
    let ghost all = rows@;
    let n: usize = rows.len();
    let mut rest = rows;
    let mut i: usize = 0;
    assert(all.take(0) =~= Seq::<PartnerFieldRow>::empty());
    while rest.len() > 0
        invariant
            i + rest@.len() == all.len(),
            all.len() == n,
            rest@ == all.skip(i as int),
            res@ == rows_to_copy_spec(all.take(i as int)),
            ids_are_distinct(res@),
        decreases rest@.len(),
    {
        let row = rest.remove(0);
        assert(row == all[i as int]);
        assert(all.take(i + 1).drop_last() =~= all.take(i as int));
        assert(rest@ =~= all.skip(i + 1));
        match (row.id, row.value) {
            (Some(idv), Some(v)) => {
                let id = json_as_u64(&idv);
                match id {
                    Some(k) => {
                        assert(idv == json_u64(k));
                        assert(json_id(idv) == Some(k));
                        set_value_of(&mut res, k, v);
                    },
                    None => {
                        assert(json_id(idv) is None);
                    },
                }
            },
            _ => {},
        }
        i = i + 1;
    }
    assert(all.take(i as int) =~= all);
    res
}

/// Sets the value of `id` in `rows` to `v`, in place where it is there.
fn set_value_of(rows: &mut Vec<(u64, serde_json::Value)>, id: u64, v: serde_json::Value)
    requires
        ids_are_distinct(old(rows)@),
    ensures
        final(rows)@ == set_row_value(old(rows)@, id, v),
        ids_are_distinct(final(rows)@),
{
    let mut j: usize = 0;
    while j < rows.len()
        invariant
            rows@ == old(rows)@,
            ids_are_distinct(rows@),
            j <= rows@.len(),
            forall|k: int| 0 <= k < j ==> rows@[k].0 != id,
        decreases rows@.len() - j,
    {
        if rows[j].0 == id {
            let ghost before = rows@;
            assert(forall|k: int| 0 <= k < before.len() && before[k].0 == id ==> k == j);
            rows[j] = (id, v);
            assert(rows@ =~= set_row_value(before, id, v));
            return;
        }
        j = j + 1;
    }
    rows.push((id, v));
    assert(rows@ =~= set_row_value(old(rows)@, id, v));
}

/// The values written on an Odoo 19 contact to set its property `name` to
/// `value`: `{"properties": {"name": name, "value": value}}`.
pub open spec fn property_update_spec(name: Seq<char>, value: serde_json::Value) -> serde_json::Value {
    json_object_of(seq![("properties"@, json_object_of(seq![("name"@, json_string(name)), ("value"@, value)]))])
}

/// The values written on an Odoo 19 contact to set its property `name` to
/// `value`.
pub fn property_update(name: &str, value: serde_json::Value) -> (res: serde_json::Value)
    ensures
        res == property_update_spec(name@, value),
{
    let mut inner: Vec<(String, serde_json::Value)> = Vec::new();
    inner.push(("name".to_owned(), json_text(name)));
    inner.push(("value".to_owned(), value));
    assert(entries_view(inner@) =~= seq![("name"@, json_string(name@)), ("value"@, value)]);
    let property = json_object(inner);
    let mut outer: Vec<(String, serde_json::Value)> = Vec::new();
    outer.push(("properties".to_owned(), property));
    assert(entries_view(outer@) =~= seq![("properties"@, property)]);
    json_object(outer)
}

/// `"text".parse::<X19PropertyName>()`: see `X19PropertyName::parse`.
impl std::str::FromStr for X19PropertyName {
    type Err = X19PropertyNameParseError;

    fn from_str(s: &str) -> (res: Result<X19PropertyName, X19PropertyNameParseError>)
        ensures
            !regex_compiles(PROPERTY_LABEL_PATTERN@) ==> res matches Err(
                X19PropertyNameParseError::Regex(_),
            ),
            regex_compiles(PROPERTY_LABEL_PATTERN@) ==> match property_name_from_capture(
                s@,
                regex_named_capture(PROPERTY_LABEL_PATTERN@, s@, PROPERTY_LABEL_GROUP@),
            ) {
                Some(v) => res matches Ok(p) && p@ == v,
                None => res matches Err(X19PropertyNameParseError::EmptyInner),
            },
    {
        X19PropertyName::parse(s)
    }
}

} // verus!
