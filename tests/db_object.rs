use rust_api::db_object::{DataBase, UserEnum};
use rust_api::{Errors, User, UserGroup};

fn create_users() -> Vec<User> {
    let user_1 = User {
        id: 1,
        name: "Hlib".to_string(),
        lastname: "Shutov".to_string(),
        birth_year: 2000,
        group: UserGroup::Admin,
    };
    let user_2 = User {
        id: 2,
        name: "Wojciech".to_string(),
        lastname: "Oczkowski".to_string(),
        birth_year: 2000,
        group: UserGroup::User,
    };
    vec![user_1, user_2]
}

fn create_database() -> DataBase {
    DataBase { db: create_users() }
}

fn create_user(id: u32) -> User {
    User {
        id,
        name: "test".to_string(),
        lastname: "test1".to_string(),
        birth_year: 2000,
        group: UserGroup::Premium,
    }
}

#[test]
fn test_add_entry() {
    let mut database = create_database();
    database.add_entry(create_user(3), None);

    let mut expected = create_users();
    expected.push(create_user(3));

    assert_eq!(database.db, expected);
}

#[test]
fn test_remove_entry() {
    let mut database = create_database();
    database.remove_entry(1).unwrap();

    let mut expected = create_users();
    expected.remove(0);

    assert_eq!(database.db, expected);
}

#[test]
fn test_change_user() {
    let mut database = create_database();
    let change_data = vec![
        UserEnum::Name("test".to_string()),
        UserEnum::Lastname("test1".to_string()),
        UserEnum::Group(UserGroup::Premium),
    ];
    database.change_user(1, change_data).unwrap();

    assert_eq!(database.db[0], create_user(1));
}

#[test]
fn test_get_all() {
    let database = create_database();
    assert_eq!(*database.get_all(), create_users());
}

#[test]
fn test_get_one() {
    let database = create_database();
    let user = User {
        id: 1,
        name: "Hlib".to_string(),
        lastname: "Shutov".to_string(),
        birth_year: 2000,
        group: UserGroup::Admin,
    };
    assert_eq!(*database.get_one(1).unwrap(), user);
}

#[test]
fn test_error_if_id_does_not_exist() {
    let database = create_database();
    assert_eq!(database.get_one(0), Err(Errors::UserError(400)));
}

#[test]
fn auto_key_is_one_past_the_last() {
    let mut database = create_database();
    assert_eq!(database.add_entry(create_user(77), None), 3);
    assert_eq!(database.db[2].id, 3);
}

#[test]
fn auto_key_on_empty_store_is_zero() {
    let mut database = DataBase::new();
    assert_eq!(database.add_entry(create_user(9), None), 0);
    assert_eq!(database.db, vec![create_user(0)]);
}

#[test]
fn insert_then_get_returns_the_entry_with_its_key() {
    let mut database = create_database();
    let key = database.add_entry(create_user(50), None);
    assert_eq!(*database.get_one(key).unwrap(), create_user(key));
}

#[test]
fn explicit_key_is_kept_even_when_taken() {
    let mut database = create_database();
    assert_eq!(database.add_entry(create_user(0), Some(1)), 1);
    assert_eq!(database.db.len(), 3);
    assert_eq!(database.db[2], create_user(1));
    // the lookup still finds the first entry with that key
    assert_eq!(database.get_one(1).unwrap().name, "Hlib".to_string());
}

#[test]
fn missing_key_leaves_store_unchanged() {
    let mut database = create_database();
    assert_eq!(database.remove_entry(7), Err(Errors::UserError(400)));
    assert_eq!(
        database.change_user(7, vec![UserEnum::Name("x".to_string())]),
        Err(Errors::UserError(400))
    );
    assert_eq!(database.db, create_users());
}

#[test]
fn changes_touch_only_named_fields() {
    let mut database = create_database();
    let pos = database
        .change_user(2, vec![UserEnum::BirthYear(1999)])
        .unwrap();
    assert_eq!(pos, 1);
    let mut expected = create_users();
    expected[1].birth_year = 1999;
    assert_eq!(database.db, expected);
}

#[test]
fn later_change_of_a_field_wins() {
    let mut database = create_database();
    database
        .change_user(
            1,
            vec![
                UserEnum::Name("first".to_string()),
                UserEnum::Name("second".to_string()),
            ],
        )
        .unwrap();
    assert_eq!(database.db[0].name, "second".to_string());
}

#[test]
fn two_auto_inserts_get_distinct_keys() {
    let mut database = create_database();
    let a = database.add_entry(create_user(0), None);
    let b = database.add_entry(create_user(0), None);
    assert_ne!(a, b);
    assert_eq!((a, b), (3, 4));
    assert_eq!(database.db.len(), 4);
}

#[test]
fn remove_returns_position() {
    let mut database = create_database();
    assert_eq!(database.remove_entry(2), Ok(1));
    assert_eq!(database.db, vec![create_users()[0].clone()]);
}
