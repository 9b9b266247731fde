//! The appointment repository: rows joined with the performing employee, the
//! fields derived at read time, and the numbering of a customer's
//! appointments.

use crate::employee::{joined, joined_employee};
use crate::error::ServiceError;
use crate::model::{CustomerAppointmentDto, EditCustomerAppointmentDto};
use crate::sequence::reversed;
use crate::statement::{Query, SqlValue, Statement};
use crate::store::{
    advance_upsert, advance_write, conclude, concludes, upserts, writes_once, Step, StoreAction,
    StoreEvent, StoreState,
};
use crate::time::{nanos_per_minute, representable, whole_days, Timestamp};
use vstd::prelude::*;

verus! {

/// A row of the appointment table, joined with the employee table.
#[derive(Clone, Debug, PartialEq, Eq)]
pub struct AppointmentRow {
    pub id: i64,
    pub customer_id: i64,
    pub number: i64,
    pub start_date: Timestamp,
    pub duration_minutes: i64,
    pub treatment: String,
    pub price: i64,
    pub employee_id: Option<i64>,
    pub employee_name: Option<String>,
}

/// The detail text of the failure on an appointment whose end cannot be
/// represented.
pub open spec fn end_out_of_range() -> Seq<char> {
    "appointment ends outside the supported range of dates"@
}

/// The detail text of the failure on a customer whose numbers are used up.
pub open spec fn numbers_exhausted() -> Seq<char> {
    "no appointment number is left for the customer"@
}

impl AppointmentRow {
    /// The instant at which the appointment ends: its start and its duration
    /// in minutes.
    pub open spec fn end_instant(self) -> int {
        self.start_date@ + self.duration_minutes * nanos_per_minute()
    }
}

/// Whether `dto` is the appointment of `row`, read with `previous` as the
/// start of the appointment before it in time, if there is one: the stored
/// fields as they are, the employee as the join gave it, the end at start
/// plus duration, and as period the whole days since `previous`.
pub open spec fn presents(dto: CustomerAppointmentDto, row: AppointmentRow, previous: Option<Timestamp>) -> bool {
    &&& dto.id == row.id
    &&& dto.customer_id == row.customer_id
    &&& dto.number == row.number
    &&& dto.start_date == row.start_date
    &&& dto.duration_minutes == row.duration_minutes
    &&& dto.end_date@ == row.end_instant()
    &&& dto.period_days.is_some() == previous.is_some()
    &&& previous.is_some() ==> dto.period_days.unwrap() == whole_days(row.start_date@, previous.unwrap()@)
    &&& dto.treatment == row.treatment
    &&& dto.price == row.price
    &&& dto.employee == joined(row.employee_id, row.employee_name)
}

/// The start of the row before position `i`, where there is one.
pub open spec fn start_before(rows: Seq<AppointmentRow>, i: int) -> Option<Timestamp> {
    if 0 < i <= rows.len() {
        Some(rows[i - 1].start_date)
    } else {
        None
    }
}

/// Whether the rows are in the order of their starts, earliest first.
pub open spec fn chronological(rows: Seq<AppointmentRow>) -> bool {
    forall|i: int, j: int| 0 <= i <= j < rows.len() ==> rows[i].start_date@ <= rows[j].start_date@
}

/// Whether the appointments are in the order of their starts, latest first.
pub open spec fn most_recent_first(list: Seq<CustomerAppointmentDto>) -> bool {
    forall|i: int, j: int| 0 <= i <= j < list.len() ==> list[i].start_date@ >= list[j].start_date@
}

/// Whether the end of every row can be represented.
pub open spec fn ends_representable(rows: Seq<AppointmentRow>) -> bool {
    forall|i: int| 0 <= i < rows.len() ==> representable((#[trigger] rows[i]).end_instant())
}

/// Whether `list` is what a customer is shown for `rows`, which the store
/// gave earliest first: the same appointments latest first, each read with
/// its predecessor in time.
pub open spec fn lists(list: Seq<CustomerAppointmentDto>, rows: Seq<AppointmentRow>) -> bool {
    &&& list.len() == rows.len()
    &&& forall|i: int|
        0 <= i < list.len() ==> presents(
            #[trigger] list[i],
            rows[rows.len() - 1 - i],
            start_before(rows, rows.len() - 1 - i),
        )
}

/// The appointment of a row, with its derived fields, or the failure where
/// its end cannot be represented.
pub fn present(row: AppointmentRow, previous: Option<Timestamp>) -> (result: Result<CustomerAppointmentDto, ServiceError>)
    ensures
        result.is_ok() <==> representable(row.end_instant()),
        result.is_ok() ==> presents(result.unwrap(), row, previous),
        result.is_err() ==> result.unwrap_err().label() == "Conversion error"@
            && result.unwrap_err().detail() == end_out_of_range(),
{
    let end_date = match row.start_date.plus_minutes(row.duration_minutes) {
        Some(end_date) => end_date,
        None => {
            return Err(
                ServiceError::conversion("appointment ends outside the supported range of dates"),
            );
        },
    };
    let period_days = match previous {
        Some(previous) => Some(row.start_date.whole_days_since(&previous)),
        None => None,
    };
    Ok(
        CustomerAppointmentDto {
            id: row.id,
            customer_id: row.customer_id,
            number: row.number,
            start_date: row.start_date,
            duration_minutes: row.duration_minutes,
            end_date,
            period_days,
            treatment: row.treatment,
            price: row.price,
            employee: joined_employee(row.employee_id, row.employee_name),
        },
    )
}

/// The pass over a customer's rows in the order of time: each appointment
/// with its end, and with the days since the one before it.
pub fn derive_fields(rows: Vec<AppointmentRow>) -> (result: Result<Vec<CustomerAppointmentDto>, ServiceError>)
    ensures
        result.is_ok() <==> ends_representable(rows@),
        result.is_ok() ==> result.unwrap()@.len() == rows@.len(),
        result.is_ok() ==> forall|i: int|
            0 <= i < rows@.len() ==> presents(
                #[trigger] result.unwrap()@[i],
                rows@[i],
                start_before(rows@, i),
            ),
        result.is_err() ==> result.unwrap_err().label() == "Conversion error"@
            && result.unwrap_err().detail() == end_out_of_range(),
{
    let mut pending = reversed(rows);
    let mut list: Vec<CustomerAppointmentDto> = Vec::new();
    let mut last_start_date: Option<Timestamp> = None;
    while pending.len() > 0
        invariant
            pending@.len() + list@.len() == rows@.len(),
            forall|k: int| 0 <= k < pending@.len() ==> pending@[k] == rows@[rows@.len() - 1 - k],
            forall|i: int| 0 <= i < list@.len() ==> representable((#[trigger] rows@[i]).end_instant()),
            forall|i: int|
                0 <= i < list@.len() ==> presents(#[trigger] list@[i], rows@[i], start_before(rows@, i)),
            last_start_date == start_before(rows@, list@.len() as int),
        decreases pending@.len(),
    {
        let ghost at = list@.len() as int;
        let row = pending.pop().unwrap();
        assert(row == rows@[at]);
        let start_date = row.start_date;
        match present(row, last_start_date) {
            Ok(appointment) => {
                list.push(appointment);
            },
            Err(error) => {
                assert(!representable(rows@[at].end_instant()));
                return Err(error);
            },
        }
        last_start_date = Some(start_date);
    }
    Ok(list)
}

/// A customer's appointments as the caller sees them, from the rows of the
/// list statement, which the store hands over earliest first: latest first,
/// each with its end and with the whole days since the appointment before it
/// in time. The earliest, which comes last, has no period.
pub fn get_appointment_list(rows: Vec<AppointmentRow>) -> (result: Result<Vec<CustomerAppointmentDto>, ServiceError>)
    ensures
        result.is_ok() <==> ends_representable(rows@),
        result.is_ok() ==> lists(result.unwrap()@, rows@),
        result.is_ok() && chronological(rows@) ==> most_recent_first(result.unwrap()@),
        result.is_err() ==> result.unwrap_err().label() == "Conversion error"@
            && result.unwrap_err().detail() == end_out_of_range(),
{
    match derive_fields(rows) {
        Ok(appointments) => {
            let list = reversed(appointments);
            proof {
                if chronological(rows@) {
                    lemma_latest_first(list@, rows@);
                }
            }
            Ok(list)
        },
        Err(error) => Err(error),
    }
}

/// The appointment that the row of the by-identity statement holds, if the
/// store found one. Its end is derived; it has no period, which is a matter
/// of its neighbours.
pub fn get_appointment_by_id(row: Option<AppointmentRow>) -> (result: Result<Option<CustomerAppointmentDto>, ServiceError>)
    ensures
        result.is_ok() <==> (row.is_some() ==> representable(row.unwrap().end_instant())),
        result.is_ok() ==> result.unwrap().is_some() == row.is_some(),
        result.is_ok() && row.is_some() ==> presents(result.unwrap().unwrap(), row.unwrap(), None),
        result.is_err() ==> result.unwrap_err().label() == "Conversion error"@
            && result.unwrap_err().detail() == end_out_of_range(),
{
    match row {
        Some(row) => match present(row, None) {
            Ok(appointment) => Ok(Some(appointment)),
            Err(error) => Err(error),
        },
        None => Ok(None),
    }
}

/// A listing of rows that came earliest first is latest first.
pub proof fn lemma_latest_first(list: Seq<CustomerAppointmentDto>, rows: Seq<AppointmentRow>)
    requires
        lists(list, rows),
        chronological(rows),
    ensures
        most_recent_first(list),
{
    assert forall|i: int, j: int| 0 <= i <= j < list.len() implies list[i].start_date@
        >= list[j].start_date@ by {
        assert(presents(list[i], rows[rows.len() - 1 - i], start_before(rows, rows.len() - 1 - i)));
        assert(presents(list[j], rows[rows.len() - 1 - j], start_before(rows, rows.len() - 1 - j)));
    }
}

/// The number that a customer's next appointment gets, given the highest
/// number among the customer's appointments so far: one more, and 1 where
/// there is none yet.
pub open spec fn following(highest: Option<i64>) -> int {
    match highest {
        Some(highest) => highest + 1,
        None => 1,
    }
}

/// Whether `highest` is the highest of `numbers`: absent where there are
/// none.
pub open spec fn is_highest(numbers: Seq<i64>, highest: Option<i64>) -> bool {
    match highest {
        Some(highest) => numbers.contains(highest) && forall|i: int|
            0 <= i < numbers.len() ==> numbers[i] <= highest,
        None => numbers.len() == 0,
    }
}

/// The values that an appointment's columns take from an edit, in the order
/// of the placeholders after the first.
pub open spec fn fields(edit: EditCustomerAppointmentDto) -> Seq<SqlValue> {
    seq![
        SqlValue::Integer(edit.customer_id),
        SqlValue::DateTime(edit.start_date),
        SqlValue::Integer(edit.duration_minutes),
        SqlValue::Text(edit.treatment),
        SqlValue::Integer(edit.price),
        SqlValue::OptionalInteger(edit.employee_id),
    ]
}

/// How an appointment is stored. An update rewrites the fields of the row
/// with the edit's identity, the customer among them, and leaves the number
/// alone. An insert first asks for the highest number of the edit's customer,
/// then writes the row with the number that follows it.
pub open spec fn stores(edit: EditCustomerAppointmentDto, state: StoreState, event: StoreEvent, step: Step) -> bool {
    match edit.id {
        Some(id) => upserts(
            Some(id),
            Query::AppointmentUpdate,
            seq![SqlValue::Integer(id)] + fields(edit),
            state,
            event,
            step,
        ),
        None => match (state, event) {
            (StoreState::Start, StoreEvent::Begin) => step.fetches_number(
                Query::AppointmentMaxNumber,
                seq![SqlValue::Integer(edit.customer_id)],
            ),
            (StoreState::AwaitNumber, StoreEvent::Number(highest)) => if following(highest) <= i64::MAX {
                step.writes(
                    Query::AppointmentInsert,
                    seq![SqlValue::Integer(following(highest) as i64)] + fields(edit),
                )
            } else {
                step.fails_with("Conversion error"@, numbers_exhausted())
            },
            _ => concludes(None, state, event, step),
        },
    }
}

/// The number of a customer's next appointment, or `None` where the highest
/// number has no successor.
pub fn next_number(highest: Option<i64>) -> (result: Option<i64>)
    ensures
        result.is_some() <==> following(highest) <= i64::MAX,
        result.is_some() ==> result.unwrap() == following(highest),
{
    match highest {
        Some(highest) => highest.checked_add(1),
        None => Some(1),
    }
}

/// The statement that selects a customer's appointments, earliest first.
pub fn list_statement(customer_id: i64) -> (result: Statement)
    ensures
        result.binds(Query::AppointmentList, seq![SqlValue::Integer(customer_id)]),
        result.complete(),
{
    Statement::by_id(Query::AppointmentList, customer_id)
}

/// The statement that selects the appointment `id`.
pub fn by_id_statement(id: i64) -> (result: Statement)
    ensures
        result.binds(Query::AppointmentById, seq![SqlValue::Integer(id)]),
        result.complete(),
{
    Statement::by_id(Query::AppointmentById, id)
}

/// The statement that selects the highest number among the appointments of
/// one customer, and of no other.
pub fn max_number_statement(customer_id: i64) -> (result: Statement)
    ensures
        result.binds(Query::AppointmentMaxNumber, seq![SqlValue::Integer(customer_id)]),
        result.complete(),
{
    Statement::by_id(Query::AppointmentMaxNumber, customer_id)
}

/// The statement that removes the appointment `id`.
pub fn delete_statement(id: i64) -> (result: Statement)
    ensures
        result.binds(Query::AppointmentDelete, seq![SqlValue::Integer(id)]),
        result.complete(),
{
    Statement::by_id(Query::AppointmentDelete, id)
}

/// A writing statement: `first`, then the fields of the edit.
fn write_statement(query: Query, first: i64, edit: &EditCustomerAppointmentDto) -> (result: Statement)
    ensures
        result.binds(query, seq![SqlValue::Integer(first)] + fields(*edit)),
        result.params@.len() == 7,
{
    let mut params: Vec<SqlValue> = Vec::new();
    params.push(SqlValue::Integer(first));
    params.push(SqlValue::Integer(edit.customer_id));
    params.push(SqlValue::DateTime(edit.start_date));
    params.push(SqlValue::Integer(edit.duration_minutes));
    params.push(SqlValue::Text(edit.treatment.clone()));
    params.push(SqlValue::Integer(edit.price));
    params.push(SqlValue::OptionalInteger(edit.employee_id));
    assert(params@ =~= seq![SqlValue::Integer(first)] + fields(*edit));
    Statement { query, params }
}

/// The statement that rewrites the appointment `id` with the fields of the
/// edit. The number is not among them.
pub fn update_statement(id: i64, edit: &EditCustomerAppointmentDto) -> (result: Statement)
    ensures
        result.binds(Query::AppointmentUpdate, seq![SqlValue::Integer(id)] + fields(*edit)),
        result.complete(),
{
    write_statement(Query::AppointmentUpdate, id, edit)
}

/// The statement that inserts the edit as the appointment `number` of its
/// customer.
pub fn insert_statement(number: i64, edit: &EditCustomerAppointmentDto) -> (result: Statement)
    ensures
        result.binds(Query::AppointmentInsert, seq![SqlValue::Integer(number)] + fields(*edit)),
        result.complete(),
{
    write_statement(Query::AppointmentInsert, number, edit)
}

/// The next move of storing an appointment. The result of the operation is
/// the identity of the edit where it has one, else the identity that the
/// store assigned.
pub fn store_appointment(edit: &EditCustomerAppointmentDto, state: StoreState, event: StoreEvent) -> (step: Step)
    ensures
        stores(*edit, state, event, step),
{
    match edit.id {
        Some(id) => advance_upsert(Some(id), update_statement(id, edit), state, event),
        None => match (state, &event) {
            (StoreState::Start, StoreEvent::Begin) => Step {
                state: StoreState::AwaitNumber,
                action: StoreAction::FetchNumber(max_number_statement(edit.customer_id)),
            },
            (StoreState::AwaitNumber, StoreEvent::Number(highest)) => match next_number(*highest) {
                Some(number) => Step {
                    state: StoreState::AwaitWrite,
                    action: StoreAction::Write(insert_statement(number, edit)),
                },
                None => Step {
                    state: StoreState::Finished,
                    action: StoreAction::Fail(
                        ServiceError::conversion("no appointment number is left for the customer"),
                    ),
                },
            },
            _ => conclude(None, state, event),
        },
    }
}

/// The next move of deleting the appointment `id`. The operation succeeds
/// whether or not there was such an appointment.
pub fn delete_appointment(id: i64, state: StoreState, event: StoreEvent) -> (step: Step)
    ensures
        writes_once(Query::AppointmentDelete, seq![SqlValue::Integer(id)], state, event, step),
{
    advance_write(delete_statement(id), state, event)
}

/// The number that an insert assigns is 1 for a customer without
/// appointments, and otherwise lies above every number that the customer's
/// appointments have, directly above the highest. Where the numbers so far
/// are 1, 2, ... without a gap, it is their count plus one.
pub proof fn lemma_number_is_next(numbers: Seq<i64>, highest: Option<i64>)
    requires
        is_highest(numbers, highest),
    ensures
        numbers.len() == 0 ==> following(highest) == 1,
        forall|i: int| 0 <= i < numbers.len() ==> numbers[i] < following(highest),
        highest.is_some() ==> following(highest) == highest.unwrap() + 1,
        (forall|i: int| 0 <= i < numbers.len() ==> numbers[i] == i + 1) ==> following(highest)
            == numbers.len() + 1,
{
    if highest.is_some() {
        let at = choose|i: int| 0 <= i < numbers.len() && numbers[i] == highest.unwrap();
        assert(0 <= at < numbers.len() && numbers[at] == highest.unwrap());
        if forall|i: int| 0 <= i < numbers.len() ==> numbers[i] == i + 1 {
            assert(numbers[numbers.len() - 1] == numbers.len());
        }
    }
}

/// Whether each number is higher than those before it.
pub open spec fn increasing(numbers: Seq<i64>) -> bool {
    forall|i: int, j: int| 0 <= i < j < numbers.len() ==> numbers[i] < numbers[j]
}

/// The numbers of a customer's appointments, taken in the order of their
/// creation, stay strictly increasing, and so distinct, when an appointment
/// is created: the new number is higher than every one before it.
pub proof fn lemma_numbers_stay_increasing(numbers: Seq<i64>, highest: Option<i64>)
    requires
        increasing(numbers),
        is_highest(numbers, highest),
        following(highest) <= i64::MAX,
    ensures
        increasing(numbers.push(following(highest) as i64)),
        numbers.push(following(highest) as i64).no_duplicates(),
{
    let next = following(highest) as i64;
    let grown = numbers.push(next);
    lemma_number_is_next(numbers, highest);
    assert forall|i: int, j: int| 0 <= i < j < grown.len() implies grown[i] < grown[j] by {
        if j < numbers.len() {
            assert(grown[i] == numbers[i] && grown[j] == numbers[j]);
        } else {
            assert(grown[i] == numbers[i]);
        }
    }
    assert forall|i: int, j: int| 0 <= i < grown.len() && 0 <= j < grown.len() && i != j implies grown[i]
        != grown[j] by {
        if i < j {
            assert(grown[i] < grown[j]);
        } else {
            assert(grown[j] < grown[i]);
        }
    }
}

/// An update leaves the number alone: whatever the state and the answer of
/// the store, storing under an identity neither asks for a number nor sends
/// a statement other than the update of the edit's fields.
pub proof fn lemma_update_keeps_number(
    edit: EditCustomerAppointmentDto,
    state: StoreState,
    event: StoreEvent,
    step: Step,
)
    requires
        edit.id.is_some(),
        stores(edit, state, event, step),
    ensures
        step.state != StoreState::AwaitNumber,
        !(step.action is FetchNumber),
        step.action is Write ==> step.writes(
            Query::AppointmentUpdate,
            seq![SqlValue::Integer(edit.id.unwrap())] + fields(edit),
        ),
{
}

} // verus!
