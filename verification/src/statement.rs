//! Parameterized statements: which text is sent to the store, and which
//! values are bound to its placeholders, in order.

use crate::time::Timestamp;
use chrono::NaiveDate;
use vstd::prelude::*;

verus! {

/// A value bound to a placeholder of a statement.
#[derive(Clone, Debug, PartialEq, Eq)]
pub enum SqlValue {
    Integer(i64),
    OptionalInteger(Option<i64>),
    Text(String),
    OptionalDate(Option<NaiveDate>),
    DateTime(Timestamp),
}

/// The statements that the repositories send.
#[derive(Clone, Copy, Debug, PartialEq, Eq, Structural)]
pub enum Query {
    EmployeeList,
    EmployeeById,
    EmployeeInsert,
    EmployeeUpdate,
    EmployeeDelete,
    CustomerList,
    CustomerById,
    CustomerInsert,
    CustomerUpdate,
    CustomerDelete,
    AppointmentList,
    AppointmentById,
    AppointmentMaxNumber,
    AppointmentInsert,
    AppointmentUpdate,
    AppointmentDelete,
    PreferenceList,
    PreferenceUpsert,
    PreferenceDelete,
    LastInsertId,
}

/// A statement with the values for its placeholders `$1`, `$2`, ... in that
/// order.
#[derive(Clone, Debug, PartialEq, Eq)]
pub struct Statement {
    pub query: Query,
    pub params: Vec<SqlValue>,
}

impl Query {
    /// The number of placeholders in the statement's text.
    pub open spec fn arity(self) -> nat {
        match self {
            Query::EmployeeList | Query::CustomerList | Query::PreferenceList | Query::LastInsertId => 0,
            Query::EmployeeById | Query::EmployeeInsert | Query::EmployeeDelete => 1,
            Query::CustomerById | Query::CustomerDelete => 1,
            Query::AppointmentList | Query::AppointmentById | Query::AppointmentMaxNumber => 1,
            Query::AppointmentDelete | Query::PreferenceDelete => 1,
            Query::EmployeeUpdate | Query::PreferenceUpsert => 2,
            Query::AppointmentInsert | Query::AppointmentUpdate => 7,
            Query::CustomerInsert => 11,
            Query::CustomerUpdate => 12,
        }
    }

    /// The statement's text as a value of specifications.
    pub open spec fn text(self) -> Seq<char> {
        match self {
            Query::EmployeeList => "SELECT e.id, e.name FROM employee e;"@,
            Query::EmployeeById => "SELECT e.id, e.name FROM employee e WHERE e.id = $1;"@,
            Query::EmployeeInsert => "INSERT INTO employee (name) VALUES ($1);"@,
            Query::EmployeeUpdate => "UPDATE employee SET name = $2 WHERE id = $1;"@,
            Query::EmployeeDelete => "DELETE FROM employee WHERE id = $1;"@,
            Query::CustomerList => "SELECT c.id, c.title, c.first_name, c.last_name, c.address_street, c.address_city, c.phone, c.mobile_phone, c.birthdate, c.customer_since, c.note, e.id AS responsible_employee_id, e.name AS responsible_employee_name FROM customer c LEFT JOIN employee e ON c.responsible_employee_id = e.id;"@,
            Query::CustomerById => "SELECT c.id, c.title, c.first_name, c.last_name, c.address_street, c.address_city, c.phone, c.mobile_phone, c.birthdate, c.customer_since, c.note, e.id AS responsible_employee_id, e.name AS responsible_employee_name FROM customer c LEFT JOIN employee e ON c.responsible_employee_id = e.id WHERE c.id = $1;"@,
            Query::CustomerInsert => "INSERT INTO customer (title, first_name, last_name, address_street, address_city, phone, mobile_phone, birthdate, customer_since, note, responsible_employee_id) VALUES ($1, $2, $3, $4, $5, $6, $7, $8, $9, $10, $11);"@,
            Query::CustomerUpdate => "UPDATE customer SET title = $2, first_name = $3, last_name = $4, address_street = $5, address_city = $6, phone = $7, mobile_phone = $8, birthdate = $9, customer_since = $10, note = $11, responsible_employee_id = $12 WHERE id = $1;"@,
            Query::CustomerDelete => "DELETE FROM customer WHERE id = $1;"@,
            Query::AppointmentList => "SELECT a.id, a.customer_id, a.number, a.start_date, a.duration_minutes, a.treatment, a.price, e.id AS employee_id, e.name AS employee_name FROM appointment a LEFT JOIN employee e ON a.employee_id = e.id WHERE a.customer_id = $1 ORDER BY a.start_date ASC;"@,
            Query::AppointmentById => "SELECT a.id, a.customer_id, a.number, a.start_date, a.duration_minutes, a.treatment, a.price, e.id AS employee_id, e.name AS employee_name FROM appointment a LEFT JOIN employee e ON a.employee_id = e.id WHERE a.id = $1;"@,
            Query::AppointmentMaxNumber => "SELECT a.number FROM appointment a WHERE a.customer_id = $1 ORDER BY number DESC LIMIT 1;"@,
            Query::AppointmentInsert => "INSERT INTO appointment (number, customer_id, start_date, duration_minutes, treatment, price, employee_id) VALUES ($1, $2, $3, $4, $5, $6, $7);"@,
            Query::AppointmentUpdate => "UPDATE appointment SET customer_id = $2, start_date = $3, duration_minutes = $4, treatment = $5, price = $6, employee_id = $7 WHERE id = $1;"@,
            Query::AppointmentDelete => "DELETE FROM appointment WHERE id = $1;"@,
            Query::PreferenceList => "SELECT p.key, p.value FROM preference p;"@,
            Query::PreferenceUpsert => "INSERT INTO preference (key, value) VALUES ($1, $2) ON CONFLICT (key) DO UPDATE SET value=$2;"@,
            Query::PreferenceDelete => "DELETE FROM preference WHERE key = $1;"@,
            Query::LastInsertId => "SELECT last_insert_rowid() as id;"@,
        }
    }

    /// The statement's text.
    pub fn sql(&self) -> (result: &'static str)
        ensures
            result@ == self.text(),
    {
        match self {
            Query::EmployeeList => "SELECT e.id, e.name FROM employee e;",
            Query::EmployeeById => "SELECT e.id, e.name FROM employee e WHERE e.id = $1;",
            Query::EmployeeInsert => "INSERT INTO employee (name) VALUES ($1);",
            Query::EmployeeUpdate => "UPDATE employee SET name = $2 WHERE id = $1;",
            Query::EmployeeDelete => "DELETE FROM employee WHERE id = $1;",
            Query::CustomerList => "SELECT c.id, c.title, c.first_name, c.last_name, c.address_street, c.address_city, c.phone, c.mobile_phone, c.birthdate, c.customer_since, c.note, e.id AS responsible_employee_id, e.name AS responsible_employee_name FROM customer c LEFT JOIN employee e ON c.responsible_employee_id = e.id;",
            Query::CustomerById => "SELECT c.id, c.title, c.first_name, c.last_name, c.address_street, c.address_city, c.phone, c.mobile_phone, c.birthdate, c.customer_since, c.note, e.id AS responsible_employee_id, e.name AS responsible_employee_name FROM customer c LEFT JOIN employee e ON c.responsible_employee_id = e.id WHERE c.id = $1;",
            Query::CustomerInsert => "INSERT INTO customer (title, first_name, last_name, address_street, address_city, phone, mobile_phone, birthdate, customer_since, note, responsible_employee_id) VALUES ($1, $2, $3, $4, $5, $6, $7, $8, $9, $10, $11);",
            Query::CustomerUpdate => "UPDATE customer SET title = $2, first_name = $3, last_name = $4, address_street = $5, address_city = $6, phone = $7, mobile_phone = $8, birthdate = $9, customer_since = $10, note = $11, responsible_employee_id = $12 WHERE id = $1;",
            Query::CustomerDelete => "DELETE FROM customer WHERE id = $1;",
            Query::AppointmentList => "SELECT a.id, a.customer_id, a.number, a.start_date, a.duration_minutes, a.treatment, a.price, e.id AS employee_id, e.name AS employee_name FROM appointment a LEFT JOIN employee e ON a.employee_id = e.id WHERE a.customer_id = $1 ORDER BY a.start_date ASC;",
            Query::AppointmentById => "SELECT a.id, a.customer_id, a.number, a.start_date, a.duration_minutes, a.treatment, a.price, e.id AS employee_id, e.name AS employee_name FROM appointment a LEFT JOIN employee e ON a.employee_id = e.id WHERE a.id = $1;",
            Query::AppointmentMaxNumber => "SELECT a.number FROM appointment a WHERE a.customer_id = $1 ORDER BY number DESC LIMIT 1;",
            Query::AppointmentInsert => "INSERT INTO appointment (number, customer_id, start_date, duration_minutes, treatment, price, employee_id) VALUES ($1, $2, $3, $4, $5, $6, $7);",
            Query::AppointmentUpdate => "UPDATE appointment SET customer_id = $2, start_date = $3, duration_minutes = $4, treatment = $5, price = $6, employee_id = $7 WHERE id = $1;",
            Query::AppointmentDelete => "DELETE FROM appointment WHERE id = $1;",
            Query::PreferenceList => "SELECT p.key, p.value FROM preference p;",
            Query::PreferenceUpsert => "INSERT INTO preference (key, value) VALUES ($1, $2) ON CONFLICT (key) DO UPDATE SET value=$2;",
            Query::PreferenceDelete => "DELETE FROM preference WHERE key = $1;",
            Query::LastInsertId => "SELECT last_insert_rowid() as id;",
        }
    }
}

impl Statement {
    /// Whether the statement is `query` with exactly the values `params`.
    pub open spec fn binds(self, query: Query, params: Seq<SqlValue>) -> bool {
        self.query == query && self.params@ == params
    }

    /// Whether every placeholder of the text has its value.
    pub open spec fn complete(self) -> bool {
        self.params@.len() == self.query.arity()
    }

    /// A statement without placeholders.
    pub fn plain(query: Query) -> (result: Statement)
        ensures
            result.binds(query, Seq::empty()),
    {
        Statement { query, params: Vec::new() }
    }

    /// A statement that looks one row up, or removes it, by its identity.
    pub fn by_id(query: Query, id: i64) -> (result: Statement)
        ensures
            result.binds(query, seq![SqlValue::Integer(id)]),
    {
        let mut params = Vec::new();
        params.push(SqlValue::Integer(id));
        Statement { query, params }
    }

    /// The statement that asks the store for the identity it assigned to the
    /// row inserted last on this connection.
    pub fn last_insert_id() -> (result: Statement)
        ensures
            result.binds(Query::LastInsertId, Seq::empty()),
    {
        Statement::plain(Query::LastInsertId)
    }
}

} // verus!
