//! The customer repository: rows joined with the responsible employee.

use crate::employee::{joined, joined_employee};
use crate::model::{CustomerDto, EditCustomerDto};
use crate::sequence::reversed;
use crate::statement::{Query, SqlValue, Statement};
use crate::store::{advance_upsert, advance_write, upserts, writes_once, Step, StoreEvent, StoreState};
use chrono::NaiveDate;
use vstd::prelude::*;

verus! {

/// A row of the customer table, joined with the employee table.
#[derive(Clone, Debug, PartialEq, Eq)]
pub struct CustomerRow {
    pub id: i64,
    pub title: String,
    pub first_name: String,
    pub last_name: String,
    pub address_street: String,
    pub address_city: String,
    pub phone: String,
    pub mobile_phone: String,
    pub birthdate: Option<NaiveDate>,
    pub customer_since: Option<NaiveDate>,
    pub note: String,
    pub responsible_employee_id: Option<i64>,
    pub responsible_employee_name: Option<String>,
}

impl CustomerRow {
    /// The customer that the row holds: its own columns as they are, and the
    /// responsible employee as the join gave it.
    pub open spec fn dto(self) -> CustomerDto {
        CustomerDto {
            id: self.id,
            title: self.title,
            first_name: self.first_name,
            last_name: self.last_name,
            address_street: self.address_street,
            address_city: self.address_city,
            phone: self.phone,
            mobile_phone: self.mobile_phone,
            birthdate: self.birthdate,
            customer_since: self.customer_since,
            note: self.note,
            responsible_employee: joined(self.responsible_employee_id, self.responsible_employee_name),
        }
    }

    /// Turns the row into the customer that it holds.
    pub fn into_dto(self) -> (result: CustomerDto)
        ensures
            result == self.dto(),
    {
        CustomerDto {
            id: self.id,
            title: self.title,
            first_name: self.first_name,
            last_name: self.last_name,
            address_street: self.address_street,
            address_city: self.address_city,
            phone: self.phone,
            mobile_phone: self.mobile_phone,
            birthdate: self.birthdate,
            customer_since: self.customer_since,
            note: self.note,
            responsible_employee: joined_employee(
                self.responsible_employee_id,
                self.responsible_employee_name,
            ),
        }
    }
}

/// The values that a customer's columns take from an edit, in the order of
/// the insert's placeholders.
pub open spec fn fields(edit: EditCustomerDto) -> Seq<SqlValue> {
    seq![
        SqlValue::Text(edit.title),
        SqlValue::Text(edit.first_name),
        SqlValue::Text(edit.last_name),
        SqlValue::Text(edit.address_street),
        SqlValue::Text(edit.address_city),
        SqlValue::Text(edit.phone),
        SqlValue::Text(edit.mobile_phone),
        SqlValue::OptionalDate(edit.birthdate),
        SqlValue::OptionalDate(edit.customer_since),
        SqlValue::Text(edit.note),
        SqlValue::OptionalInteger(edit.responsible_employee_id),
    ]
}

/// The statement that an edit is stored with, and its values: an insert of
/// the fields, or an update with the identity in front of the same fields.
pub open spec fn stores(edit: EditCustomerDto) -> (Query, Seq<SqlValue>) {
    match edit.id {
        Some(id) => (Query::CustomerUpdate, seq![SqlValue::Integer(id)] + fields(edit)),
        None => (Query::CustomerInsert, fields(edit)),
    }
}

/// The statement that selects every customer.
pub fn list_statement() -> (result: Statement)
    ensures
        result.binds(Query::CustomerList, Seq::empty()),
        result.complete(),
{
    Statement::plain(Query::CustomerList)
}

/// The statement that selects the customer `id`.
pub fn by_id_statement(id: i64) -> (result: Statement)
    ensures
        result.binds(Query::CustomerById, seq![SqlValue::Integer(id)]),
        result.complete(),
{
    Statement::by_id(Query::CustomerById, id)
}

/// The statement that removes the customer `id`.
pub fn delete_statement(id: i64) -> (result: Statement)
    ensures
        result.binds(Query::CustomerDelete, seq![SqlValue::Integer(id)]),
        result.complete(),
{
    Statement::by_id(Query::CustomerDelete, id)
}

/// The statement that stores an edit. Insert and update bind the fields in
/// one order.
pub fn store_statement(edit: &EditCustomerDto) -> (result: Statement)
    ensures
        result.binds(stores(*edit).0, stores(*edit).1),
        result.complete(),
{
    let mut params: Vec<SqlValue> = Vec::new();
    let query = match edit.id {
        Some(id) => {
            params.push(SqlValue::Integer(id));
            Query::CustomerUpdate
        },
        None => Query::CustomerInsert,
    };
    params.push(SqlValue::Text(edit.title.clone()));
    params.push(SqlValue::Text(edit.first_name.clone()));
    params.push(SqlValue::Text(edit.last_name.clone()));
    params.push(SqlValue::Text(edit.address_street.clone()));
    params.push(SqlValue::Text(edit.address_city.clone()));
    params.push(SqlValue::Text(edit.phone.clone()));
    params.push(SqlValue::Text(edit.mobile_phone.clone()));
    params.push(SqlValue::OptionalDate(edit.birthdate));
    params.push(SqlValue::OptionalDate(edit.customer_since));
    params.push(SqlValue::Text(edit.note.clone()));
    params.push(SqlValue::OptionalInteger(edit.responsible_employee_id));
    assert(params@ =~= stores(*edit).1);
    Statement { query, params }
}

/// The customers that the rows of the list statement hold, in the rows'
/// order.
pub fn get_customer_list(rows: Vec<CustomerRow>) -> (result: Vec<CustomerDto>)
    ensures
        result@.len() == rows@.len(),
        forall|i: int| 0 <= i < rows@.len() ==> result@[i] == (#[trigger] rows@[i]).dto(),
{
    let mut pending = reversed(rows);
    let mut list: Vec<CustomerDto> = Vec::new();
    while pending.len() > 0
        invariant
            pending@.len() + list@.len() == rows@.len(),
            forall|k: int| 0 <= k < pending@.len() ==> pending@[k] == rows@[rows@.len() - 1 - k],
            forall|i: int| 0 <= i < list@.len() ==> list@[i] == (#[trigger] rows@[i]).dto(),
        decreases pending@.len(),
    {
        let row = pending.pop().unwrap();
        list.push(row.into_dto());
    }
    list
}

/// The customer that the row of the by-identity statement holds, if the
/// store found one.
pub fn get_customer_by_id(row: Option<CustomerRow>) -> (result: Option<CustomerDto>)
    ensures
        result == match row {
            Some(row) => Some(row.dto()),
            None => None,
        },
{
    match row {
        Some(row) => Some(row.into_dto()),
        None => None,
    }
}

/// The next move of storing a customer. The result of the operation is the
/// identity of the edit where it has one, else the identity that the store
/// assigned.
pub fn store_customer(edit: &EditCustomerDto, state: StoreState, event: StoreEvent) -> (step: Step)
    ensures
        upserts(edit.id, stores(*edit).0, stores(*edit).1, state, event, step),
{
    advance_upsert(edit.id, store_statement(edit), state, event)
}

/// The next move of deleting the customer `id`. The operation succeeds
/// whether or not there was such a customer.
pub fn delete_customer(id: i64, state: StoreState, event: StoreEvent) -> (step: Step)
    ensures
        writes_once(Query::CustomerDelete, seq![SqlValue::Integer(id)], state, event, step),
{
    advance_write(delete_statement(id), state, event)
}

/// Insert and update bind the fields of an edit in one order: the values of
/// an update are its identity, followed by the values of the insert of the
/// same fields.
pub proof fn lemma_one_binding_order(edit: EditCustomerDto, id: i64)
    ensures
        stores(EditCustomerDto { id: None, ..edit }) == (Query::CustomerInsert, fields(edit)),
        stores(EditCustomerDto { id: Some(id), ..edit }) == (
            Query::CustomerUpdate,
            seq![SqlValue::Integer(id)] + stores(EditCustomerDto { id: None, ..edit }).1,
        ),
        fields(edit).len() == Query::CustomerInsert.arity(),
        fields(edit).len() + 1 == Query::CustomerUpdate.arity(),
{
    assert(fields(EditCustomerDto { id: None, ..edit }) =~= fields(edit));
    assert(fields(EditCustomerDto { id: Some(id), ..edit }) =~= fields(edit));
}

} // verus!
