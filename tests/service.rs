use rust_api::db_object::DataBase;
use rust_api::db_object_enum::DataObjectEnum;
use rust_api::fields::{decode_changes, decode_new_user};
use rust_api::http::{parse_decimal, route, Route};
use rust_api::records::{RecordBase, RecordStore};
use rust_api::utils::{error_text, Reply, UserController};
use rust_api::{Errors, Record, User, UserGroup};

fn create_users() -> DataObjectEnum {
    let user_1 = User {
        id: 1,
        name: "Hlib".to_string(),
        lastname: "Shutov".to_string(),
        birth_year: 2000,
        group: UserGroup::Admin,
    };
    let user_2 = User {
        id: 2,
        name: "Wojciech".to_string(),
        lastname: "Oczkowski".to_string(),
        birth_year: 2000,
        group: UserGroup::User,
    };
    let db = DataBase {
        db: vec![user_1, user_2],
    };
    DataObjectEnum::DataBase(db)
}

/// Runs one request against a fresh service state; answers the status, the
/// reply and the user store afterwards.
fn get_response(path: &str, method: &str, body: &str, db: DataObjectEnum) -> (String, Reply, DataObjectEnum) {
    let mut controller = UserController::new(db, RecordStore::new());
    let reply = controller.handle(method, path, body, None);
    (reply.status().to_string(), reply, controller.database)
}

fn text_of(reply: &Reply) -> String {
    match reply {
        Reply::Created(t) | Reply::Done(t) => t.clone(),
        Reply::Failed(e) => error_text(*e),
        _ => panic!("error"),
    }
}

fn users_of(db: DataObjectEnum) -> Vec<User> {
    match db {
        DataObjectEnum::DataBase(database) => database.db,
        _ => panic!("error"),
    }
}

#[test]
fn test_empty_users() {
    let (code, reply, _) = get_response("/users", "GET", "", DataObjectEnum::new());
    assert_eq!(code, "200".to_string());
    assert_eq!(reply, Reply::Users(vec![]));
}

#[test]
fn test_show_users() {
    let users = create_users();
    let users_db = users_of(users.clone());
    let (code, reply, _) = get_response("/users", "GET", "", users);
    assert_eq!(code, "200".to_string());
    assert_eq!(reply, Reply::Users(users_db));
}

#[test]
fn test_show_user() {
    let users = create_users();
    let user_1 = users_of(users.clone())[0].clone();
    let (code, reply, _) = get_response("/users/1", "GET", "", users);
    assert_eq!(code, "200".to_string());
    assert_eq!(reply, Reply::OneUser(user_1));
}

#[test]
fn test_invalid_user_id() {
    let (code, reply, _) = get_response("/users/test/", "GET", "", create_users());
    assert_eq!(code, "400".to_string());
    assert_eq!(text_of(&reply), "Invalid input");
}

#[test]
fn test_adding_user() {
    let user_3 = User {
        id: 3,
        name: "test".to_string(),
        lastname: "test1".to_string(),
        birth_year: 2025,
        group: UserGroup::Premium,
    };
    let body = r#"{"name":"test","lastname":"test1","birth_year":"2025","group":"premium"}"#;
    let (code, reply, db) = get_response("/users", "POST", body, create_users());
    let users_db = users_of(db);
    assert_eq!(code, "201".to_string());
    assert_eq!(text_of(&reply), "3");
    assert_eq!(users_db[2], user_3);
}

#[test]
fn test_adding_user_to_empty() {
    let user = User {
        id: 0,
        name: "test".to_string(),
        lastname: "test1".to_string(),
        birth_year: 2025,
        group: UserGroup::Premium,
    };
    let body = r#"{"name":"test","lastname":"test1","birth_year":"2025","group":"premium"}"#;
    let (code, reply, db) = get_response("/users", "POST", body, DataObjectEnum::new());
    let users_db = users_of(db);
    assert_eq!(code, "201".to_string());
    assert_eq!(text_of(&reply), "0");
    assert_eq!(users_db[0], user);
}

#[test]
fn test_adding_user_invalid_data() {
    let (code, reply, _) = get_response("/users", "POST", "test", create_users());
    assert_eq!(code, "400".to_string());
    assert_eq!(text_of(&reply), "Invalid input");
}

#[test]
fn test_change_user_name() {
    let body = r#"{"name":"Test","group":"user"}"#;
    let (code, _, db) = get_response("/users/1", "PATCH", body, create_users());
    let users_db = users_of(db);
    assert_eq!(code, "204".to_string());
    assert_eq!(
        *users_db.get(0).unwrap(),
        User {
            id: 1,
            name: "Test".to_string(),
            lastname: "Shutov".to_string(),
            birth_year: 2000,
            group: UserGroup::User,
        }
    );
}

#[test]
fn test_change_user_name_invalid_id() {
    let body = r#"{"name":"Test"}"#;
    let (code, reply, _) = get_response("/users/5", "PATCH", body, create_users());
    assert_eq!(code, "400".to_string());
    assert_eq!(text_of(&reply), "Invalid input".to_string());
}

#[test]
fn test_change_user_name_invalid_body() {
    let body = r#"{"test":"Test"}"#;
    let (code, reply, _) = get_response("/users/1", "PATCH", body, create_users());
    assert_eq!(code, "400".to_string());
    assert_eq!(text_of(&reply), "Invalid input".to_string());
}

#[test]
fn test_change_user_name_invalid_body_json() {
    let (code, reply, _) = get_response("/users/1", "PATCH", "test", create_users());
    assert_eq!(code, "400".to_string());
    assert_eq!(text_of(&reply), "Invalid input".to_string());
}

#[test]
fn test_delete_user() {
    let (code, reply, db) = get_response("/users/2", "DELETE", "", create_users());
    let expected_db = vec![User {
        id: 1,
        name: "Hlib".to_string(),
        lastname: "Shutov".to_string(),
        birth_year: 2000,
        group: UserGroup::Admin,
    }];
    assert_eq!(code, "204".to_string());
    assert_eq!(text_of(&reply), "Removed user".to_string());
    assert_eq!(users_of(db), expected_db);
}

#[test]
fn test_delete_user_invalid_id() {
    let (code, reply, db) = get_response("/users/3", "DELETE", "", create_users());
    assert_eq!(code, "400".to_string());
    assert_eq!(text_of(&reply), "Invalid input".to_string());
    assert_eq!(users_of(db), users_of(create_users()));
}

#[test]
fn unknown_route_is_not_found() {
    let (code, reply, _) = get_response("/nothing", "GET", "", create_users());
    assert_eq!(code, "404".to_string());
    assert_eq!(text_of(&reply), "Not found");
    let (code, _, _) = get_response("/users", "PUT", "", create_users());
    assert_eq!(code, "404".to_string());
}

#[test]
fn added_user_can_be_read_back() {
    let body = r#"{"name":"test","lastname":"test1","birth_year":"2025","group":"premium"}"#;
    let mut controller = UserController::new(create_users(), RecordStore::new());
    assert_eq!(
        controller.handle("POST", "/users", body, None),
        Reply::Created("3".to_string())
    );
    let reply = controller.handle("GET", "/users/3", "", None);
    assert_eq!(
        reply,
        Reply::OneUser(User {
            id: 3,
            name: "test".to_string(),
            lastname: "test1".to_string(),
            birth_year: 2025,
            group: UserGroup::Premium,
        })
    );
}

#[test]
fn reading_is_shown_by_timestamp() {
    let reading = Record {
        time: "2025-05-12T18:00".to_string(),
        pm10: 13.5f64.to_bits(),
        dust: 0.0f64.to_bits(),
        carbon_dioxide: 446.0f64.to_bits(),
    };
    let store = RecordStore::DataBase(RecordBase {
        records: vec![reading.clone()],
    });
    let mut controller = UserController::new(DataObjectEnum::new(), store);
    let reply = controller.handle("GET", "/weather/2025-05-12T18:00", "", None);
    assert_eq!(reply.status(), 200);
    assert_eq!(reply, Reply::Reading(reading));
}

#[test]
fn reading_with_invalid_body_is_rejected() {
    let mut controller = UserController::new(DataObjectEnum::new(), RecordStore::new());
    let reply = controller.handle("POST", "/weather", "test", None);
    assert_eq!(reply.status(), 400);
    assert_eq!(text_of(&reply), "Invalid input");
}

#[test]
fn routes_by_method_and_path() {
    assert_eq!(route("GET", "/users"), Route::ListUsers);
    assert_eq!(route("GET", "/users/12"), Route::ShowUser(12));
    assert_eq!(route("PATCH", "/users/0"), Route::ChangeUser(0));
    assert_eq!(route("DELETE", "/users/4294967295"), Route::DeleteUser(4294967295));
    assert_eq!(
        route("DELETE", "/users/4294967296"),
        Route::Rejected(Errors::UserError(400))
    );
    assert_eq!(route("GET", "/users/"), Route::Rejected(Errors::UserError(400)));
    assert_eq!(route("POST", "/users"), Route::AddUser);
    assert_eq!(route("POST", "/weather"), Route::AddReading);
    assert_eq!(
        route("GET", "/weather/2025-05-12T18:00"),
        Route::ShowReading("2025-05-12T18:00".to_string())
    );
    assert_eq!(route("POST", "/users/1"), Route::Rejected(Errors::UserError(404)));
    assert_eq!(route("GET", "/"), Route::Rejected(Errors::UserError(404)));
}

#[test]
fn parses_decimal_numbers() {
    assert_eq!(parse_decimal(b"2025", 65535), Some(2025));
    assert_eq!(parse_decimal(b"65535", 65535), Some(65535));
    assert_eq!(parse_decimal(b"65536", 65535), None);
    assert_eq!(parse_decimal(b"", 65535), None);
    assert_eq!(parse_decimal(b"12a", 65535), None);
    assert_eq!(parse_decimal(b"007", 65535), Some(7));
}

#[test]
fn decodes_new_user_fields() {
    let body = r#"{"name":"a","lastname":"b","birth_year":"1990","group":"admin","x":"y"}"#;
    let user = decode_new_user(body).unwrap();
    assert_eq!(user.name, "a".to_string());
    assert_eq!(user.lastname, "b".to_string());
    assert_eq!(user.birth_year, 1990);
    assert_eq!(user.group, UserGroup::Admin);
    let missing = r#"{"name":"a","lastname":"b","birth_year":"1990"}"#;
    assert_eq!(decode_new_user(missing), Err(Errors::UserError(400)));
    let bad_group = r#"{"name":"a","lastname":"b","birth_year":"1990","group":"root"}"#;
    assert_eq!(decode_new_user(bad_group), Err(Errors::UserError(400)));
    let bad_year = r#"{"name":"a","lastname":"b","birth_year":"19x0","group":"user"}"#;
    assert_eq!(decode_new_user(bad_year), Err(Errors::UserError(400)));
}

#[test]
fn decodes_change_sets() {
    let changes = decode_changes(r#"{"birth_year":"1999"}"#).unwrap();
    assert_eq!(changes, vec![rust_api::db_object::UserEnum::BirthYear(1999)]);
    assert_eq!(decode_changes("{}").unwrap(), vec![]);
    assert_eq!(decode_changes(r#"{"group":"boss"}"#), Err(Errors::UserError(400)));
    assert_eq!(decode_changes("[1]"), Err(Errors::UserError(400)));
}
