//! Writing one value into one field of many records.

use vstd::prelude::*;

use crate::json::{
    json_command_list, json_command_list_from_text, json_number, json_number_from_text, json_string,
    entries_view, json_object, json_object_of, json_text,
};
use crate::utils::text_is;

verus! {

/// The database the batch update goes through.
#[derive(Debug, Clone, Copy, PartialEq, Eq, Structural)]
pub enum BatchUpdateOdooVersion {
    Odoo19,
    Odoo18,
}

impl Default for BatchUpdateOdooVersion {
    fn default() -> (res: BatchUpdateOdooVersion)
        ensures
            res == BatchUpdateOdooVersion::Odoo19,
    {
        BatchUpdateOdooVersion::Odoo19
    }
}

/// A batch update: write `value` into `field` of the records `ids` of
/// `model` (of every record where `ids` is empty), `limit` records at a
/// time.
#[derive(Debug, Clone)]
pub struct BatchUpdateArg {
    pub model: String,
    pub field: String,
    pub value: String,
    pub ids: Vec<u64>,
    pub limit: Option<u32>,
    pub odoo_version: Option<BatchUpdateOdooVersion>,
}

/// How the text given for a field is turned into the value written.
#[derive(Debug, Clone, Copy, PartialEq, Eq, Structural)]
pub enum FieldValueKind {
    /// Read as a JSON number (`integer`, `float`, `monetary`, `many2one`).
    Number,
    /// Written as the text itself (`char`, `text`, `date`, `selection`,
    /// `html`).
    Text,
    /// Read as a JSON list of commands (`one2many`, `many2many`).
    Commands,
}

/// How a value is written into a field of the Odoo type `field_type`;
/// `None` for the types that batch updates do not support.
pub open spec fn field_value_kind_spec(field_type: Seq<char>) -> Option<FieldValueKind> {
    if field_type == "integer"@ || field_type == "float"@ || field_type == "monetary"@
        || field_type == "many2one"@ {
        Some(FieldValueKind::Number)
    } else if field_type == "char"@ || field_type == "text"@ || field_type == "date"@
        || field_type == "selection"@ || field_type == "html"@ {
        Some(FieldValueKind::Text)
    } else if field_type == "one2many"@ || field_type == "many2many"@ {
        Some(FieldValueKind::Commands)
    } else {
        None
    }
}

impl FieldValueKind {
    /// How a value is written into a field of the Odoo type `field_type`.
    pub fn for_field_type(field_type: &str) -> (res: Option<FieldValueKind>)
        ensures
            res == field_value_kind_spec(field_type@),
            is_number_field_type(field_type@) ==> res == Some(FieldValueKind::Number),
            is_text_field_type(field_type@) ==> res == Some(FieldValueKind::Text),
            is_commands_field_type(field_type@) ==> res == Some(FieldValueKind::Commands),
            res is None <==> !is_number_field_type(field_type@) && !is_text_field_type(field_type@)
                && !is_commands_field_type(field_type@),
    {
        proof {
            lemma_field_kinds_are_apart();
        }
        if text_is(field_type, "integer") || text_is(field_type, "float") || text_is(
            field_type,
            "monetary",
        ) || text_is(field_type, "many2one") {
            Some(FieldValueKind::Number)
        } else if text_is(field_type, "char") || text_is(field_type, "text") || text_is(
            field_type,
            "date",
        ) || text_is(field_type, "selection") || text_is(field_type, "html") {
            Some(FieldValueKind::Text)
        } else if text_is(field_type, "one2many") || text_is(field_type, "many2many") {
            Some(FieldValueKind::Commands)
        } else {
            None
        }
    }
}

/// Why the value of a batch update could not be made.
#[derive(Debug)]
pub enum BatchValueError {
    /// Batch updates do not support fields of this type.
    UnsupportedType(String),
    /// The text given is not a value of the field's type.
    Json(serde_json::Error),
}

/// The Odoo field types whose value is the text given, as a JSON string.
pub open spec fn is_text_field_type(field_type: Seq<char>) -> bool {
    field_type == "char"@ || field_type == "text"@ || field_type == "date"@ || field_type
        == "selection"@ || field_type == "html"@
}

/// The Odoo field types whose value is the JSON number that the text spells.
pub open spec fn is_number_field_type(field_type: Seq<char>) -> bool {
    field_type == "integer"@ || field_type == "float"@ || field_type == "monetary"@ || field_type
        == "many2one"@
}

/// The Odoo field types whose value is the JSON list of commands that the
/// text spells.
pub open spec fn is_commands_field_type(field_type: Seq<char>) -> bool {
    field_type == "one2many"@ || field_type == "many2many"@
}

/// Law: a text, date, selection or html field is given the text itself as a
/// JSON string, whatever the text spells; a number field the number it
/// spells; a relation list the commands it spells; and no other field type
/// is given a value.
pub proof fn lemma_batch_value_by_field_type(field_type: Seq<char>, text: Seq<char>)
    ensures
        is_text_field_type(field_type) ==> batch_value_spec(field_type, text) == Some(
            json_string(text),
        ),
        is_number_field_type(field_type) ==> batch_value_spec(field_type, text)
            == json_number_from_text(text),
        is_commands_field_type(field_type) ==> batch_value_spec(field_type, text)
            == json_command_list_from_text(text),
        !is_text_field_type(field_type) && !is_number_field_type(field_type)
            && !is_commands_field_type(field_type) ==> batch_value_spec(field_type, text) is None
            && field_value_kind_spec(field_type) is None,
{
    lemma_field_kinds_are_apart();
}

/// The field types of the three kinds are told apart.
proof fn lemma_field_kinds_are_apart()
    ensures
        forall|t: Seq<char>| is_text_field_type(t) ==> !is_number_field_type(t) && !is_commands_field_type(t),
        forall|t: Seq<char>| is_number_field_type(t) ==> !is_commands_field_type(t),
{
    reveal_strlit("char");
    reveal_strlit("text");
    reveal_strlit("date");
    reveal_strlit("selection");
    reveal_strlit("html");
    reveal_strlit("integer");
    reveal_strlit("float");
    reveal_strlit("monetary");
    reveal_strlit("many2one");
    reveal_strlit("one2many");
    reveal_strlit("many2many");
    assert("char"@.len() == 4 && "text"@.len() == 4 && "date"@.len() == 4 && "html"@.len() == 4);
    assert("selection"@.len() == 9 && "many2many"@.len() == 9);
    assert("integer"@.len() == 7 && "float"@.len() == 5);
    assert("monetary"@.len() == 8 && "many2one"@.len() == 8 && "one2many"@.len() == 8);
    assert("selection"@[0] != "many2many"@[0]);
    assert("monetary"@[0] != "one2many"@[0]);
    assert("many2one"@[0] != "one2many"@[0]);
}

/// The value written into a field of type `field_type` for the text `text`
/// (`None` where no value can be made).
pub open spec fn batch_value_spec(field_type: Seq<char>, text: Seq<char>) -> Option<serde_json::Value> {
    match field_value_kind_spec(field_type) {
        None => None,
        Some(FieldValueKind::Number) => json_number_from_text(text),
        Some(FieldValueKind::Text) => Some(json_string(text)),
        Some(FieldValueKind::Commands) => json_command_list_from_text(text),
    }
}

/// The value written into a field of Odoo type `field_type` for the text
/// given on the command line: a number, the text itself, or a list of
/// commands, as the type asks.
pub fn batch_value(field_type: &str, text: &str) -> (res: Result<serde_json::Value, BatchValueError>)
    ensures
        field_value_kind_spec(field_type@) is None ==> (res matches Err(
            BatchValueError::UnsupportedType(t),
        ) && t@ == field_type@),
        field_value_kind_spec(field_type@) is Some ==> match batch_value_spec(field_type@, text@) {
            Some(v) => res == Ok::<serde_json::Value, BatchValueError>(v),
            None => res matches Err(BatchValueError::Json(_)),
        },
        is_text_field_type(field_type@) ==> res == Ok::<serde_json::Value, BatchValueError>(
            json_string(text@),
        ),
        is_number_field_type(field_type@) ==> (res is Ok <==> json_number_from_text(text@) is Some),
        is_number_field_type(field_type@) ==> (res matches Ok(v) ==> json_number_from_text(text@)
            == Some(v)),
        is_commands_field_type(field_type@) ==> (res is Ok <==> json_command_list_from_text(text@) is Some),
        is_commands_field_type(field_type@) ==> (res matches Ok(v) ==> json_command_list_from_text(
            text@,
        ) == Some(v)),
{
    proof {
        lemma_field_kinds_are_apart();
    }
    match FieldValueKind::for_field_type(field_type) {
        None => Err(BatchValueError::UnsupportedType(field_type.to_owned())),
        Some(FieldValueKind::Number) => match json_number(text) {
            Ok(v) => Ok(v),
            Err(e) => Err(BatchValueError::Json(e)),
        },
        Some(FieldValueKind::Text) => Ok(json_text(text)),
        Some(FieldValueKind::Commands) => match json_command_list(text) {
            Ok(v) => Ok(v),
            Err(e) => Err(BatchValueError::Json(e)),
        },
    }
}

impl BatchUpdateArg {
    /// The number of records per batch: 30 unless given.
    pub fn limit(&self) -> (res: u32)
        ensures
            res == (match self.limit {
                Some(l) => l,
                None => 30,
            }),
    {
        match self.limit {
            Some(l) => l,
            None => 30,
        }
    }

    /// The database to go through: Odoo 19 unless given.
    pub fn odoo_version(&self) -> (res: BatchUpdateOdooVersion)
        ensures
            res == (match self.odoo_version {
                Some(v) => v,
                None => BatchUpdateOdooVersion::Odoo19,
            }),
    {
        match self.odoo_version {
            Some(v) => v,
            None => BatchUpdateOdooVersion::Odoo19,
        }
    }

    /// Whether every record of the model is updated (no identifiers were
    /// given).
    pub fn updates_every_record(&self) -> (res: bool)
        ensures
            res == (self.ids@.len() == 0),
    {
        self.ids.len() == 0
    }

    /// The values written on each record: `{field: value}`.
    pub fn field_vals(&self, value: serde_json::Value) -> (res: serde_json::Value)
        ensures
            res == json_object_of(seq![(self.field@, value)]),
    {
        let mut entries: Vec<(String, serde_json::Value)> = Vec::new();
        entries.push((self.field.clone(), value));
        assert(entries_view(entries@) =~= seq![(self.field@, value)]);
        json_object(entries)
    }
}

} // verus!
