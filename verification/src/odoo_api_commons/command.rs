//! Commands on the records of a relational (one2many / many2many) field.
//!
//! Odoo reads each command as a triple `(code, id, payload)`; see the
//! documentation of `odoo.fields.Command`.

use vstd::prelude::*;

verus! {

/// A command on a relational field.
#[derive(Debug, Clone)]
#[non_exhaustive]
pub enum Command<T> {
    /// Create a record with `values` and link it.
    Create { values: T },
    /// Write `value` on the linked record `id`.
    Update { id: u64, value: T },
    /// Delete the record `id`.
    Delete { id: u64 },
    /// Unlink the record `id` without deleting it.
    Unlink { id: u64 },
    /// Link the existing record `id`.
    Link { id: u64 },
    /// Unlink every record.
    Clear,
    /// Replace the linked records by `ids`.
    SetIds { ids: Vec<u64> },
}

/// The third member of a command's triple, as it is sent.
pub enum CommandPayload<'a, T> {
    /// The values of the record to create or update.
    Values(&'a T),
    /// The placeholder `0` of the commands that carry nothing.
    Zero,
    /// The identifiers of a `SetIds` command.
    Ids(&'a Vec<u64>),
}

/// The third member of a command's triple, as a value.
pub enum PayloadValue<T> {
    Values(T),
    Zero,
    Ids(Seq<u64>),
}

/// The code by which Odoo tells the commands apart.
pub open spec fn command_code<T>(c: Command<T>) -> u8 {
    match c {
        Command::Create { .. } => 0,
        Command::Update { .. } => 1,
        Command::Delete { .. } => 2,
        Command::Unlink { .. } => 3,
        Command::Link { .. } => 4,
        Command::Clear => 5,
        Command::SetIds { .. } => 6,
    }
}

/// The record identifier of the triple: `0` for the commands that name no
/// record.
pub open spec fn command_record_id<T>(c: Command<T>) -> u64 {
    match c {
        Command::Update { id, .. } => id,
        Command::Delete { id } => id,
        Command::Unlink { id } => id,
        Command::Link { id } => id,
        _ => 0,
    }
}

/// The payload of the triple.
pub open spec fn command_payload<T>(c: Command<T>) -> PayloadValue<T> {
    match c {
        Command::Create { values } => PayloadValue::Values(values),
        Command::Update { value, .. } => PayloadValue::Values(value),
        Command::SetIds { ids } => PayloadValue::Ids(ids@),
        _ => PayloadValue::Zero,
    }
}

impl<T> Command<T> {
    /// The code of the command (`Create` is 0, ..., `SetIds` is 6).
    pub fn code(&self) -> (res: u8)
        ensures
            res == command_code(*self),
    {
        match self {
            Command::Create { .. } => 0,
            Command::Update { .. } => 1,
            Command::Delete { .. } => 2,
            Command::Unlink { .. } => 3,
            Command::Link { .. } => 4,
            Command::Clear => 5,
            Command::SetIds { .. } => 6,
        }
    }

    /// The record identifier of the command's triple.
    pub fn record_id(&self) -> (res: u64)
        ensures
            res == command_record_id(*self),
    {
        match self {
            Command::Update { id, .. } => *id,
            Command::Delete { id } => *id,
            Command::Unlink { id } => *id,
            Command::Link { id } => *id,
            _ => 0,
        }
    }

    /// The payload of the command's triple.
    pub fn payload(&self) -> (res: CommandPayload<'_, T>)
        ensures
            match command_payload(*self) {
                PayloadValue::Values(v) => res matches CommandPayload::Values(r) && *r == v,
                PayloadValue::Zero => res is Zero,
                PayloadValue::Ids(ids) => res matches CommandPayload::Ids(r) && r@ == ids,
            },
    {
        match self {
            Command::Create { values } => CommandPayload::Values(values),
            Command::Update { value, .. } => CommandPayload::Values(value),
            Command::SetIds { ids } => CommandPayload::Ids(ids),
            _ => CommandPayload::Zero,
        }
    }
}

/// `Link` commands for `ids`, in order.
pub fn link_all<T>(ids: &Vec<u64>) -> (res: Vec<Command<T>>)
    ensures
        res@.len() == ids@.len(),
        forall|i: int| 0 <= i < ids@.len() ==> #[trigger] res@[i] == (Command::Link::<T> { id: ids@[i] }),
{
    let mut res: Vec<Command<T>> = Vec::new();
    for i in 0..ids.len()
        invariant
            res@.len() == i,
            forall|j: int| 0 <= j < i ==> #[trigger] res@[j] == (Command::Link::<T> { id: ids@[j] }),
    {
        res.push(Command::Link { id: ids[i] });
    }
    res
}

/// Law: the triple `(code, id, payload)` that is sent for a command
/// determines the command (a list of identifiers up to its contents), so
/// Odoo reads back exactly the command that was meant.
pub proof fn lemma_command_triple_is_faithful<T>(c1: Command<T>, c2: Command<T>)
    requires
        command_code(c1) == command_code(c2),
        command_record_id(c1) == command_record_id(c2),
        command_payload(c1) == command_payload(c2),
    ensures
        match (c1, c2) {
            (Command::SetIds { ids: a }, Command::SetIds { ids: b }) => a@ == b@,
            _ => c1 == c2,
        },
{
}

/// Law: each command is sent as the triple that `odoo.fields.Command`
/// documents: `(0, 0, values)` to create, `(1, id, values)` to update,
/// `(2, id, 0)` to delete, `(3, id, 0)` to unlink, `(4, id, 0)` to link,
/// `(5, 0, 0)` to clear and `(6, 0, ids)` to set the linked records.
pub proof fn lemma_command_triples<T>(c: Command<T>)
    ensures
        c matches Command::Create { values } ==> command_code(c) == 0 && command_record_id(c) == 0
            && command_payload(c) == PayloadValue::Values(values),
        c matches Command::Update { id, value } ==> command_code(c) == 1 && command_record_id(c)
            == id && command_payload(c) == PayloadValue::Values(value),
        c matches Command::Delete { id } ==> command_code(c) == 2 && command_record_id(c) == id
            && command_payload(c) == PayloadValue::<T>::Zero,
        c matches Command::Unlink { id } ==> command_code(c) == 3 && command_record_id(c) == id
            && command_payload(c) == PayloadValue::<T>::Zero,
        c matches Command::Link { id } ==> command_code(c) == 4 && command_record_id(c) == id
            && command_payload(c) == PayloadValue::<T>::Zero,
        c is Clear ==> command_code(c) == 5 && command_record_id(c) == 0 && command_payload(c)
            == PayloadValue::<T>::Zero,
        c matches Command::SetIds { ids } ==> command_code(c) == 6 && command_record_id(c) == 0
            && command_payload(c) == PayloadValue::<T>::Ids(ids@),
{
}

} // verus!
