//! The employee repository: one table, and the pattern that the other
//! repositories share.

use crate::model::{EditEmployeeDto, EmployeeDto};
use crate::statement::{Query, SqlValue, Statement};
use crate::store::{advance_upsert, advance_write, upserts, writes_once, Step, StoreEvent, StoreState};
use vstd::prelude::*;

verus! {

/// A row of the employee table.
#[derive(Clone, Debug, PartialEq, Eq)]
pub struct EmployeeRow {
    pub id: i64,
    pub name: String,
}

/// The employee that the columns of a left join stand for: one only where
/// both the identity and the name are present. Any other combination, a
/// partial one too, is no employee.
pub open spec fn joined(id: Option<i64>, name: Option<String>) -> Option<EmployeeDto> {
    match (id, name) {
        (Some(id), Some(name)) => Some(EmployeeDto { id, name }),
        _ => None,
    }
}

/// The nested employee of a row that joins the employee table.
pub fn joined_employee(id: Option<i64>, name: Option<String>) -> (result: Option<EmployeeDto>)
    ensures
        result == joined(id, name),
{
    match (id, name) {
        (Some(id), Some(name)) => Some(EmployeeDto { id, name }),
        _ => None,
    }
}

impl EmployeeRow {
    /// The employee that the row holds.
    pub open spec fn dto(self) -> EmployeeDto {
        EmployeeDto { id: self.id, name: self.name }
    }

    /// Turns the row into the employee that it holds.
    pub fn into_dto(self) -> (result: EmployeeDto)
        ensures
            result == self.dto(),
    {
        EmployeeDto { id: self.id, name: self.name }
    }
}

/// The values that an employee's columns take from an edit, in the order of
/// the insert's placeholders.
pub open spec fn fields(edit: EditEmployeeDto) -> Seq<SqlValue> {
    seq![SqlValue::Text(edit.name)]
}

/// The statement that an edit is stored with, and its values: an insert of
/// the fields, or an update with the identity in front of the same fields.
pub open spec fn stores(edit: EditEmployeeDto) -> (Query, Seq<SqlValue>) {
    match edit.id {
        Some(id) => (Query::EmployeeUpdate, seq![SqlValue::Integer(id)] + fields(edit)),
        None => (Query::EmployeeInsert, fields(edit)),
    }
}

/// The statement that selects every employee.
pub fn list_statement() -> (result: Statement)
    ensures
        result.binds(Query::EmployeeList, Seq::empty()),
        result.complete(),
{
    Statement::plain(Query::EmployeeList)
}

/// The statement that selects the employee `id`.
pub fn by_id_statement(id: i64) -> (result: Statement)
    ensures
        result.binds(Query::EmployeeById, seq![SqlValue::Integer(id)]),
        result.complete(),
{
    Statement::by_id(Query::EmployeeById, id)
}

/// The statement that removes the employee `id`.
pub fn delete_statement(id: i64) -> (result: Statement)
    ensures
        result.binds(Query::EmployeeDelete, seq![SqlValue::Integer(id)]),
        result.complete(),
{
    Statement::by_id(Query::EmployeeDelete, id)
}

/// The statement that stores an edit.
pub fn store_statement(edit: &EditEmployeeDto) -> (result: Statement)
    ensures
        result.binds(stores(*edit).0, stores(*edit).1),
        result.complete(),
{
    let mut params: Vec<SqlValue> = Vec::new();
    let query = match edit.id {
        Some(id) => {
            params.push(SqlValue::Integer(id));
            Query::EmployeeUpdate
        },
        None => Query::EmployeeInsert,
    };
    params.push(SqlValue::Text(edit.name.clone()));
    assert(params@ =~= stores(*edit).1);
    Statement { query, params }
}

/// The employees that the rows of the list statement hold, in the rows'
/// order.
pub fn get_employee_list(rows: Vec<EmployeeRow>) -> (result: Vec<EmployeeDto>)
    ensures
        result@.len() == rows@.len(),
        forall|i: int| 0 <= i < rows@.len() ==> result@[i] == (#[trigger] rows@[i]).dto(),
{
    let mut pending = crate::sequence::reversed(rows);
    let mut list: Vec<EmployeeDto> = Vec::new();
    while pending.len() > 0
        invariant
            pending@.len() + list@.len() == rows@.len(),
            forall|k: int| 0 <= k < pending@.len() ==> pending@[k] == rows@[rows@.len() - 1 - k],
            forall|i: int| 0 <= i < list@.len() ==> list@[i] == (#[trigger] rows@[i]).dto(),
        decreases pending@.len(),
    {
        let row = pending.pop().unwrap();
        list.push(row.into_dto());
    }
    list
}

/// The employee that the row of the by-identity statement holds, if the
/// store found one.
pub fn get_employee_by_id(row: Option<EmployeeRow>) -> (result: Option<EmployeeDto>)
    ensures
        result == match row {
            Some(row) => Some(row.dto()),
            None => None,
        },
{
    match row {
        Some(row) => Some(row.into_dto()),
        None => None,
    }
}

/// The next move of storing an employee. The result of the operation is the
/// identity of the edit where it has one, else the identity that the store
/// assigned.
pub fn store_employee(edit: &EditEmployeeDto, state: StoreState, event: StoreEvent) -> (step: Step)
    ensures
        upserts(edit.id, stores(*edit).0, stores(*edit).1, state, event, step),
{
    advance_upsert(edit.id, store_statement(edit), state, event)
}

/// The next move of deleting the employee `id`. The operation succeeds
/// whether or not there was such an employee.
pub fn delete_employee(id: i64, state: StoreState, event: StoreEvent) -> (step: Step)
    ensures
        writes_once(Query::EmployeeDelete, seq![SqlValue::Integer(id)], state, event, step),
{
    advance_write(delete_statement(id), state, event)
}

} // verus!
