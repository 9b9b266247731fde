//! The preference repository: a key is set to a value, or it is not set.

use crate::model::{EditPreferenceDto, PreferenceDto};
use crate::sequence::reversed;
use crate::statement::{Query, SqlValue, Statement};
use crate::store::{advance_write, writes_once, Step, StoreEvent, StoreState};
use vstd::prelude::*;

verus! {

/// A row of the preference table.
#[derive(Clone, Debug, PartialEq, Eq)]
pub struct PreferenceRow {
    pub key: String,
    pub value: String,
}

impl PreferenceRow {
    /// The preference that the row holds.
    pub open spec fn dto(self) -> PreferenceDto {
        PreferenceDto { key: self.key, value: self.value }
    }

    /// Turns the row into the preference that it holds.
    pub fn into_dto(self) -> (result: PreferenceDto)
        ensures
            result == self.dto(),
    {
        PreferenceDto { key: self.key, value: self.value }
    }
}

/// The statement that an edit is stored with, and its values. An edit with
/// a value sets the key to it, whether or not the key was set before; an
/// edit without a value removes the key.
pub open spec fn stores(edit: EditPreferenceDto) -> (Query, Seq<SqlValue>) {
    match edit.value {
        Some(value) => (Query::PreferenceUpsert, seq![SqlValue::Text(edit.key), SqlValue::Text(value)]),
        None => (Query::PreferenceDelete, seq![SqlValue::Text(edit.key)]),
    }
}

/// The statement that selects every preference.
pub fn list_statement() -> (result: Statement)
    ensures
        result.binds(Query::PreferenceList, Seq::empty()),
        result.complete(),
{
    Statement::plain(Query::PreferenceList)
}

/// The statement that stores an edit.
pub fn store_statement(edit: &EditPreferenceDto) -> (result: Statement)
    ensures
        result.binds(stores(*edit).0, stores(*edit).1),
        result.complete(),
{
    let mut params: Vec<SqlValue> = Vec::new();
    params.push(SqlValue::Text(edit.key.clone()));
    let query = match &edit.value {
        Some(value) => {
            params.push(SqlValue::Text(value.clone()));
            Query::PreferenceUpsert
        },
        None => Query::PreferenceDelete,
    };
    assert(params@ =~= stores(*edit).1);
    Statement { query, params }
}

/// The preferences that the rows of the list statement hold, in the rows'
/// order.
pub fn get_preference_list(rows: Vec<PreferenceRow>) -> (result: Vec<PreferenceDto>)
    ensures
        result@.len() == rows@.len(),
        forall|i: int| 0 <= i < rows@.len() ==> result@[i] == (#[trigger] rows@[i]).dto(),
{
    let mut pending = reversed(rows);
    let mut list: Vec<PreferenceDto> = Vec::new();
    while pending.len() > 0
        invariant
            pending@.len() + list@.len() == rows@.len(),
            forall|k: int| 0 <= k < pending@.len() ==> pending@[k] == rows@[rows@.len() - 1 - k],
            forall|i: int| 0 <= i < list@.len() ==> list@[i] == (#[trigger] rows@[i]).dto(),
        decreases pending@.len(),
    {
        let row = pending.pop().unwrap();
        list.push(row.into_dto());
    }
    list
}

/// The next move of storing a preference. The operation has no result, and
/// succeeds whether or not the key was set before.
pub fn store_preference(edit: &EditPreferenceDto, state: StoreState, event: StoreEvent) -> (step: Step)
    ensures
        writes_once(stores(*edit).0, stores(*edit).1, state, event, step),
{
    advance_write(store_statement(edit), state, event)
}

} // verus!
