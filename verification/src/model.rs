//! The typed records that callers send and receive.

use crate::time::Timestamp;
use chrono::NaiveDate;
use vstd::prelude::*;

verus! {

/// A calendar date of the `chrono` crate. The library reads nothing in it: a
/// date is stored and handed back as it came.
#[verifier::external_type_specification]
#[verifier::external_body]
pub struct ExNaiveDate(chrono::NaiveDate);

/// An employee as stored.
#[derive(Clone, Debug, PartialEq, Eq)]
pub struct EmployeeDto {
    pub id: i64,
    pub name: String,
}

/// A request to create (`id` absent) or update (`id` present) an employee.
#[derive(Clone, Debug, PartialEq, Eq)]
pub struct EditEmployeeDto {
    pub id: Option<i64>,
    pub name: String,
}

/// A customer as stored, with the responsible employee where there is one.
#[derive(Clone, Debug, PartialEq, Eq)]
pub struct CustomerDto {
    pub id: i64,
    pub title: String,
    pub first_name: String,
    pub last_name: String,
    pub address_street: String,
    pub address_city: String,
    pub phone: String,
    pub mobile_phone: String,
    pub birthdate: Option<NaiveDate>,
    pub customer_since: Option<NaiveDate>,
    pub note: String,
    pub responsible_employee: Option<EmployeeDto>,
}

/// A request to create (`id` absent) or update (`id` present) a customer.
#[derive(Clone, Debug, PartialEq, Eq)]
pub struct EditCustomerDto {
    pub id: Option<i64>,
    pub title: String,
    pub first_name: String,
    pub last_name: String,
    pub address_street: String,
    pub address_city: String,
    pub phone: String,
    pub mobile_phone: String,
    pub birthdate: Option<NaiveDate>,
    pub customer_since: Option<NaiveDate>,
    pub note: String,
    pub responsible_employee_id: Option<i64>,
}

/// An appointment of a customer. `end_date` and `period_days` are derived
/// when the appointment is read and never stored.
#[derive(Clone, Debug, PartialEq, Eq)]
pub struct CustomerAppointmentDto {
    pub id: i64,
    pub customer_id: i64,
    pub number: i64,
    pub start_date: Timestamp,
    pub duration_minutes: i64,
    pub end_date: Timestamp,
    pub period_days: Option<i64>,
    pub treatment: String,
    pub price: i64,
    pub employee: Option<EmployeeDto>,
}

/// A request to create (`id` absent) or update (`id` present) an appointment.
#[derive(Clone, Debug, PartialEq, Eq)]
pub struct EditCustomerAppointmentDto {
    pub id: Option<i64>,
    pub customer_id: i64,
    pub start_date: Timestamp,
    pub duration_minutes: i64,
    pub treatment: String,
    pub price: i64,
    pub employee_id: Option<i64>,
}

/// A preference that is set.
#[derive(Clone, Debug, PartialEq, Eq)]
pub struct PreferenceDto {
    pub key: String,
    pub value: String,
}

/// A request to set a preference (`value` present) or to unset it.
#[derive(Clone, Debug, PartialEq, Eq)]
pub struct EditPreferenceDto {
    pub key: String,
    pub value: Option<String>,
}

} // verus!
