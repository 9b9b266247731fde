use chrono::NaiveDate;
use customer_manager::appointment::{
    by_id_statement, delete_appointment, delete_statement, derive_fields, get_appointment_by_id,
    get_appointment_list, insert_statement, list_statement, max_number_statement, next_number, present,
    store_appointment, update_statement, AppointmentRow,
};
use customer_manager::error::ServiceError;
use customer_manager::model::{CustomerAppointmentDto, EditCustomerAppointmentDto, EmployeeDto};
use customer_manager::statement::{Query, SqlValue, Statement};
use customer_manager::store::{Step, StoreAction, StoreEvent, StoreState};
use customer_manager::time::{Timestamp, MAX_SECONDS};

fn moment(year: i32, month: u32, day: u32, hour: u32, minute: u32) -> Timestamp {
    let naive = NaiveDate::from_ymd_opt(year, month, day).unwrap().and_hms_opt(hour, minute, 0).unwrap();
    Timestamp::new(naive.and_utc().timestamp(), 0).unwrap()
}

fn row(id: i64, number: i64, start_date: Timestamp, duration_minutes: i64) -> AppointmentRow {
    AppointmentRow {
        id,
        customer_id: 7,
        number,
        start_date,
        duration_minutes,
        treatment: format!("treatment {}", id),
        price: 100 * id,
        employee_id: None,
        employee_name: None,
    }
}

fn edit(id: Option<i64>) -> EditCustomerAppointmentDto {
    EditCustomerAppointmentDto {
        id,
        customer_id: 7,
        start_date: moment(2024, 1, 1, 9, 0),
        duration_minutes: 60,
        treatment: "cut".to_string(),
        price: 2500,
        employee_id: Some(3),
    }
}

fn edit_fields() -> Vec<SqlValue> {
    vec![
        SqlValue::Integer(7),
        SqlValue::DateTime(moment(2024, 1, 1, 9, 0)),
        SqlValue::Integer(60),
        SqlValue::Text("cut".to_string()),
        SqlValue::Integer(2500),
        SqlValue::OptionalInteger(Some(3)),
    ]
}

fn with_first(first: i64) -> Vec<SqlValue> {
    let mut params = vec![SqlValue::Integer(first)];
    params.extend(edit_fields());
    params
}

#[test]
fn two_appointments_are_listed_latest_first() {
    let rows = vec![
        row(1, 1, moment(2024, 1, 1, 9, 0), 60),
        row(2, 2, moment(2024, 1, 10, 9, 0), 30),
    ];
    let list = get_appointment_list(rows).unwrap();
    assert_eq!(list.len(), 2);
    assert_eq!(list[0].id, 2);
    assert_eq!(list[0].start_date, moment(2024, 1, 10, 9, 0));
    assert_eq!(list[0].end_date, moment(2024, 1, 10, 9, 30));
    assert_eq!(list[0].period_days, Some(9));
    assert_eq!(list[1].id, 1);
    assert_eq!(list[1].start_date, moment(2024, 1, 1, 9, 0));
    assert_eq!(list[1].end_date, moment(2024, 1, 1, 10, 0));
    assert_eq!(list[1].period_days, None);
}

#[test]
fn listing_keeps_the_stored_fields() {
    let mut first = row(1, 1, moment(2024, 1, 1, 9, 0), 60);
    first.employee_id = Some(3);
    first.employee_name = Some("Ada".to_string());
    let list = get_appointment_list(vec![first]).unwrap();
    assert_eq!(
        list,
        vec![CustomerAppointmentDto {
            id: 1,
            customer_id: 7,
            number: 1,
            start_date: moment(2024, 1, 1, 9, 0),
            duration_minutes: 60,
            end_date: moment(2024, 1, 1, 10, 0),
            period_days: None,
            treatment: "treatment 1".to_string(),
            price: 100,
            employee: Some(EmployeeDto { id: 3, name: "Ada".to_string() }),
        }]
    );
}

#[test]
fn listing_nothing_gives_nothing() {
    assert_eq!(get_appointment_list(Vec::new()), Ok(Vec::new()));
}

#[test]
fn periods_follow_the_order_of_time() {
    let rows = vec![
        row(1, 1, moment(2024, 1, 1, 9, 0), 15),
        row(2, 2, moment(2024, 1, 1, 18, 0), 15),
        row(3, 3, moment(2024, 1, 3, 8, 0), 15),
        row(4, 4, moment(2024, 3, 3, 8, 0), 15),
    ];
    let list = get_appointment_list(rows).unwrap();
    let ids: Vec<i64> = list.iter().map(|a| a.id).collect();
    let periods: Vec<Option<i64>> = list.iter().map(|a| a.period_days).collect();
    assert_eq!(ids, vec![4, 3, 2, 1]);
    assert_eq!(periods, vec![Some(60), Some(1), Some(0), None]);
    for appointment in &list {
        assert_eq!(Some(appointment.end_date), appointment.start_date.plus_minutes(15));
    }
}

#[test]
fn rows_out_of_order_give_negative_periods() {
    let rows = vec![
        row(2, 2, moment(2024, 1, 10, 9, 0), 30),
        row(1, 1, moment(2024, 1, 1, 9, 0), 60),
    ];
    let list = get_appointment_list(rows).unwrap();
    assert_eq!(list[0].id, 1);
    assert_eq!(list[0].period_days, Some(-9));
    assert_eq!(list[1].id, 2);
    assert_eq!(list[1].period_days, None);
}

#[test]
fn an_end_out_of_range_fails_the_listing() {
    let last = Timestamp::new(MAX_SECONDS, 0).unwrap();
    let rows = vec![row(1, 1, moment(2024, 1, 1, 9, 0), 60), row(2, 2, last, 1)];
    assert_eq!(
        get_appointment_list(rows),
        Err(ServiceError::InternalServerError(
            "Conversion error",
            "appointment ends outside the supported range of dates".to_string()
        ))
    );
    assert!(get_appointment_list(vec![row(2, 2, last, 0)]).is_ok());
    assert!(get_appointment_list(vec![row(2, 2, last, -1)]).is_ok());
}

#[test]
fn a_single_appointment_has_an_end_and_no_period() {
    let found = get_appointment_by_id(Some(row(5, 2, moment(2024, 5, 5, 23, 30), 45))).unwrap().unwrap();
    assert_eq!(found.id, 5);
    assert_eq!(found.number, 2);
    assert_eq!(found.end_date, moment(2024, 5, 6, 0, 15));
    assert_eq!(found.period_days, None);
    assert_eq!(found.employee, None);
    assert_eq!(get_appointment_by_id(None), Ok(None));
    let last = Timestamp::new(MAX_SECONDS, 0).unwrap();
    assert!(get_appointment_by_id(Some(row(5, 2, last, 1))).is_err());
}

#[test]
fn a_partial_join_is_no_employee() {
    let mut only_id = row(1, 1, moment(2024, 1, 1, 9, 0), 60);
    only_id.employee_id = Some(3);
    let mut only_name = row(2, 2, moment(2024, 1, 2, 9, 0), 60);
    only_name.employee_name = Some("Ada".to_string());
    let list = get_appointment_list(vec![only_id, only_name]).unwrap();
    assert_eq!(list[0].employee, None);
    assert_eq!(list[1].employee, None);
}

#[test]
fn numbers_start_at_one_and_count_up() {
    assert_eq!(next_number(None), Some(1));
    assert_eq!(next_number(Some(1)), Some(2));
    assert_eq!(next_number(Some(41)), Some(42));
    assert_eq!(next_number(Some(0)), Some(1));
    assert_eq!(next_number(Some(-3)), Some(-2));
    assert_eq!(next_number(Some(i64::MAX - 1)), Some(i64::MAX));
    assert_eq!(next_number(Some(i64::MAX)), None);
}

#[test]
fn an_insert_asks_for_the_number_first() {
    let edit = edit(None);
    let step = store_appointment(&edit, StoreState::Start, StoreEvent::Begin);
    assert_eq!(
        step,
        Step {
            state: StoreState::AwaitNumber,
            action: StoreAction::FetchNumber(Statement {
                query: Query::AppointmentMaxNumber,
                params: vec![SqlValue::Integer(7)],
            }),
        }
    );
    let step = store_appointment(&edit, step.state, StoreEvent::Number(None));
    assert_eq!(
        step,
        Step {
            state: StoreState::AwaitWrite,
            action: StoreAction::Write(Statement { query: Query::AppointmentInsert, params: with_first(1) }),
        }
    );
    let step = store_appointment(&edit, step.state, StoreEvent::Written(1));
    assert_eq!(
        step,
        Step {
            state: StoreState::AwaitId,
            action: StoreAction::FetchId(Statement { query: Query::LastInsertId, params: Vec::new() }),
        }
    );
    let step = store_appointment(&edit, step.state, StoreEvent::Id(12));
    assert_eq!(step, Step { state: StoreState::Finished, action: StoreAction::Return(12) });
}

#[test]
fn a_second_insert_gets_the_next_number() {
    let step = store_appointment(&edit(None), StoreState::AwaitNumber, StoreEvent::Number(Some(1)));
    assert_eq!(
        step.action,
        StoreAction::Write(Statement { query: Query::AppointmentInsert, params: with_first(2) })
    );
    let step = store_appointment(&edit(None), StoreState::AwaitNumber, StoreEvent::Number(Some(8)));
    assert_eq!(
        step.action,
        StoreAction::Write(Statement { query: Query::AppointmentInsert, params: with_first(9) })
    );
}

#[test]
fn an_insert_fails_when_the_numbers_are_used_up() {
    let step = store_appointment(&edit(None), StoreState::AwaitNumber, StoreEvent::Number(Some(i64::MAX)));
    assert_eq!(
        step,
        Step {
            state: StoreState::Finished,
            action: StoreAction::Fail(ServiceError::InternalServerError(
                "Conversion error",
                "no appointment number is left for the customer".to_string()
            )),
        }
    );
}

#[test]
fn an_update_writes_at_once_and_returns_its_identity() {
    let edit = edit(Some(12));
    let step = store_appointment(&edit, StoreState::Start, StoreEvent::Begin);
    assert_eq!(
        step,
        Step {
            state: StoreState::AwaitWrite,
            action: StoreAction::Write(Statement { query: Query::AppointmentUpdate, params: with_first(12) }),
        }
    );
    for touched in [0, 1, 2] {
        let step = store_appointment(&edit, StoreState::AwaitWrite, StoreEvent::Written(touched));
        assert_eq!(step, Step { state: StoreState::Finished, action: StoreAction::Return(12) });
    }
}

#[test]
fn an_update_never_asks_for_a_number() {
    let edit = edit(Some(12));
    let step = store_appointment(&edit, StoreState::AwaitNumber, StoreEvent::Number(Some(4)));
    assert_eq!(
        step,
        Step {
            state: StoreState::Finished,
            action: StoreAction::Fail(ServiceError::InternalServerError(
                "Protocol error",
                "unexpected answer from the store".to_string()
            )),
        }
    );
}

#[test]
fn a_failure_of_the_store_ends_the_operation() {
    for state in [StoreState::Start, StoreState::AwaitNumber, StoreState::AwaitWrite, StoreState::AwaitId] {
        for id in [None, Some(12)] {
            let step = store_appointment(&edit(id), state, StoreEvent::Failed("disk full".to_string()));
            assert_eq!(
                step,
                Step {
                    state: StoreState::Finished,
                    action: StoreAction::Fail(ServiceError::InternalServerError(
                        "Sqlx error",
                        "disk full".to_string()
                    )),
                }
            );
        }
    }
}

#[test]
fn deleting_an_appointment_needs_no_match() {
    let step = delete_appointment(4, StoreState::Start, StoreEvent::Begin);
    assert_eq!(
        step,
        Step {
            state: StoreState::AwaitWrite,
            action: StoreAction::Write(Statement {
                query: Query::AppointmentDelete,
                params: vec![SqlValue::Integer(4)],
            }),
        }
    );
    for touched in [0, 1] {
        let step = delete_appointment(4, StoreState::AwaitWrite, StoreEvent::Written(touched));
        assert_eq!(step, Step { state: StoreState::Finished, action: StoreAction::Complete });
    }
}

#[test]
fn the_pass_runs_in_the_order_of_time() {
    let rows = vec![
        row(1, 1, moment(2024, 1, 1, 9, 0), 60),
        row(2, 2, moment(2024, 1, 10, 9, 0), 30),
        row(3, 3, moment(2024, 1, 10, 21, 0), 90),
    ];
    let list = derive_fields(rows).unwrap();
    let ids: Vec<i64> = list.iter().map(|a| a.id).collect();
    let periods: Vec<Option<i64>> = list.iter().map(|a| a.period_days).collect();
    assert_eq!(ids, vec![1, 2, 3]);
    assert_eq!(periods, vec![None, Some(9), Some(0)]);
    assert_eq!(list[2].end_date, moment(2024, 1, 10, 22, 30));
    assert_eq!(derive_fields(Vec::new()), Ok(Vec::new()));
}

#[test]
fn one_row_is_read_with_the_start_before_it() {
    let read = present(row(2, 2, moment(2024, 1, 10, 9, 0), 30), Some(moment(2024, 1, 1, 9, 0))).unwrap();
    assert_eq!(read.period_days, Some(9));
    assert_eq!(read.end_date, moment(2024, 1, 10, 9, 30));
    let read = present(row(2, 2, moment(2024, 1, 10, 9, 0), -30), None).unwrap();
    assert_eq!(read.period_days, None);
    assert_eq!(read.end_date, moment(2024, 1, 10, 8, 30));
    assert_eq!(read.treatment, "treatment 2");
    assert_eq!(read.price, 200);
    let last = Timestamp::new(MAX_SECONDS, 0).unwrap();
    assert!(present(row(2, 2, last, i64::MAX), None).is_err());
    assert!(present(row(2, 2, last, i64::MIN), None).is_err());
}

#[test]
fn appointment_statements_bind_their_values() {
    assert_eq!(
        list_statement(7),
        Statement { query: Query::AppointmentList, params: vec![SqlValue::Integer(7)] }
    );
    assert_eq!(
        by_id_statement(8),
        Statement { query: Query::AppointmentById, params: vec![SqlValue::Integer(8)] }
    );
    assert_eq!(
        max_number_statement(7),
        Statement { query: Query::AppointmentMaxNumber, params: vec![SqlValue::Integer(7)] }
    );
    assert_eq!(
        delete_statement(8),
        Statement { query: Query::AppointmentDelete, params: vec![SqlValue::Integer(8)] }
    );
    assert_eq!(
        update_statement(8, &edit(Some(8))),
        Statement { query: Query::AppointmentUpdate, params: with_first(8) }
    );
    assert_eq!(
        insert_statement(3, &edit(None)),
        Statement { query: Query::AppointmentInsert, params: with_first(3) }
    );
    assert!(Query::AppointmentList.sql().contains("ORDER BY a.start_date ASC"));
    assert!(Query::AppointmentMaxNumber.sql().contains("WHERE a.customer_id = $1"));
    assert!(!Query::AppointmentUpdate.sql().contains("number"));
}
