use rust_api::db_mock::{DataBaseMock, MockCalls};
use rust_api::db_object::DataBase;
use rust_api::db_object_enum::DataObjectEnum;
use rust_api::records::{RecordBase, RecordBaseMock, RecordCalls, RecordStore};
use rust_api::utils::{error_text, Reply, UserController};
use rust_api::{Errors, Record};

fn create_db() -> (Vec<Record>, RecordStore) {
    let record_1 = Record {
        time: "2025-05-12T18:00".to_string(),
        pm10: 13.5f64.to_bits(),
        dust: 0.0f64.to_bits(),
        carbon_dioxide: 446.0f64.to_bits(),
    };
    let record_2 = Record {
        time: "2026-05-12T18:00".to_string(),
        pm10: 10.0f64.to_bits(),
        dust: 1.0f64.to_bits(),
        carbon_dioxide: 300.0f64.to_bits(),
    };

    let records = vec![record_1, record_2];
    let db = RecordStore::DataBaseMock(RecordBaseMock::new(records.clone()));

    (records, db)
}

fn create_record() -> Record {
    Record {
        time: "2027-05-12T18:00".to_string(),
        pm10: 1.0f64.to_bits(),
        dust: 2.0f64.to_bits(),
        carbon_dioxide: 3.0f64.to_bits(),
    }
}

fn create_controller(records: RecordStore) -> UserController {
    UserController::new(DataObjectEnum::new(), records)
}

fn record_mock(controller: &UserController) -> RecordBaseMock {
    match controller.records.clone() {
        RecordStore::DataBaseMock(database_mock) => database_mock,
        _ => panic!("error"),
    }
}

#[test]
fn test_show_timestamp() {
    let (_, db) = create_db();
    let mut controller = create_controller(db);
    controller
        .show_timestamp("2025-05-12T18:00".to_string())
        .unwrap();

    let mock = record_mock(&controller);

    let call_id = mock
        .calls
        .iter()
        .position(|call| matches!(call, RecordCalls::GetByTimestamp { timestamp: _ }))
        .unwrap();
    let call = mock.calls.get(call_id).unwrap();
    assert_eq!(
        *call,
        RecordCalls::GetByTimestamp {
            timestamp: "2025-05-12T18:00".to_string()
        }
    );
}

#[test]
fn test_adds_record_to_the_end() {
    let (_, db) = create_db();
    let mut controller = create_controller(db);
    let data = create_record();
    controller.add_record(data).unwrap();

    let mock = record_mock(&controller);

    let call_id = mock
        .calls
        .iter()
        .position(|call| matches!(call, RecordCalls::AddEntry { record: _ }))
        .unwrap();
    let call = mock.calls.get(call_id).unwrap();

    let expected_call = RecordCalls::AddEntry {
        record: create_record(),
    };
    assert_eq!(*call, expected_call);
}

#[test]
fn add_record_appends_to_real_store() {
    let mut controller = create_controller(RecordStore::new());
    assert_eq!(controller.add_record(create_record()), Ok("0".to_string()));
    match &controller.records {
        RecordStore::DataBase(d) => assert_eq!(d.records, vec![create_record()]),
        _ => panic!("error"),
    }
}

#[test]
fn add_record_rejects_empty_timestamp() {
    let mut controller = create_controller(RecordStore::new());
    let mut record = create_record();
    record.time = String::new();
    assert_eq!(controller.add_record(record), Err(Errors::UserError(400)));
}

#[test]
fn show_timestamp_finds_reading_by_key() {
    let (records, _) = create_db();
    let store = RecordStore::DataBase(RecordBase {
        records: records.clone(),
    });
    let mut controller = create_controller(store);
    assert_eq!(
        controller.show_timestamp("2026-05-12T18:00".to_string()),
        Ok(records[1].clone())
    );
    assert_eq!(
        controller.show_timestamp("2030-01-01T00:00".to_string()),
        Err(Errors::UserError(400))
    );
}

#[test]
fn rejected_route_makes_no_store_call() {
    let mock = DataBaseMock::new(vec![]);
    let mut controller = UserController::new(
        DataObjectEnum::DataBaseMock(mock),
        RecordStore::DataBaseMock(RecordBaseMock::new(vec![])),
    );
    let reply = controller.handle("GET", "/users/test/", "", None);
    assert_eq!(reply, Reply::Failed(Errors::UserError(400)));
    match &controller.database {
        DataObjectEnum::DataBaseMock(m) => assert!(m.calls.is_empty()),
        _ => panic!("error"),
    }
    assert!(record_mock(&controller).calls.is_empty());
}

#[test]
fn mock_logs_user_calls() {
    let mut controller = UserController::new(
        DataObjectEnum::DataBaseMock(DataBaseMock::new(vec![])),
        RecordStore::new(),
    );
    controller.handle("DELETE", "/users/4", "", None);
    controller.handle("GET", "/users", "", None);
    match &controller.database {
        DataObjectEnum::DataBaseMock(m) => assert_eq!(
            m.calls,
            vec![MockCalls::RemoveEntry { id: 4 }, MockCalls::GetAll]
        ),
        _ => panic!("error"),
    }
}

#[test]
fn error_texts_are_fixed() {
    assert_eq!(error_text(Errors::UserError(400)), "Invalid input".to_string());
    assert_eq!(error_text(Errors::UserError(404)), "Not found".to_string());
    assert_eq!(error_text(Errors::UserError(418)), "User error".to_string());
    assert_eq!(
        error_text(Errors::ServerError(500)),
        "Internal serve error".to_string()
    );
}

#[test]
fn reply_statuses() {
    assert_eq!(Reply::Users(vec![]).status(), 200);
    assert_eq!(Reply::Created("0".to_string()).status(), 201);
    assert_eq!(Reply::Done("Removed user".to_string()).status(), 204);
    assert_eq!(Reply::Failed(Errors::UserError(404)).status(), 404);
    assert_eq!(Reply::Failed(Errors::ServerError(500)).status(), 500);
}

#[test]
fn full_store_reports_server_error() {
    let mut db = DataBase::new();
    db.add_entry(
        rust_api::User {
            id: 0,
            name: "a".to_string(),
            lastname: "b".to_string(),
            birth_year: 1,
            group: rust_api::UserGroup::User,
        },
        Some(u32::MAX),
    );
    let mut controller = UserController::new(DataObjectEnum::DataBase(db), RecordStore::new());
    let body = r#"{"name":"a","lastname":"b","birth_year":"1","group":"user"}"#;
    assert_eq!(
        controller.handle("POST", "/users", body, None),
        Reply::Failed(Errors::ServerError(500))
    );
}
