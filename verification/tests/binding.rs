use kragdb::args::create::{CreateUser, CreateUserPass};
use kragdb::args::update::Update;
use kragdb::args::query::{QueryUser, QueryUserPass};
use kragdb::codec::{encode_session_pass, encode_time_pass};
use kragdb::email::EmailAddr;
use kragdb::pass::session::SessionPass;
use kragdb::pass::time::TimePass;
use kragdb::pass::UserPass;
use kragdb::table::{BindValues, SqlValue, Table};
use kragdb::timestamp::Timestamp;
use kragdb::user::password::PasswordHash;
use kragdb::user::permissions::{self, Permissions};
use kragdb::user::User;

#[test]
fn table_names_and_columns() {
    assert_eq!(User::table_name(), "user");
    assert_eq!(
        User::column_names(),
        vec!["id", "username", "number", "email", "permissions", "password"]
    );
    assert_eq!(UserPass::table_name(), "userpass");
    assert_eq!(
        UserPass::column_names(),
        vec!["id", "user_id", "time_pass", "session_pass"]
    );
}

#[test]
fn query_user_skips_unset_optional_field() {
    let q = QueryUser {
        id: Some(7),
        username: Some("ada".to_string()),
        email: Some(EmailAddr::from_str("default@gmail.com").unwrap()),
        number: None,
    };
    let names = q.bound_values();
    assert_eq!(names, vec!["id", "username", "email"]);
    let values = q.bind_values();
    assert_eq!(values.len(), names.len());
    assert_eq!(values[0], SqlValue::Int(7));
    assert_eq!(values[1], SqlValue::Text("ada".to_string()));
    assert_eq!(values[2], SqlValue::Text("default@gmail.com".to_string()));
}

#[test]
fn empty_query_binds_nothing() {
    let q = QueryUser::default();
    assert!(q.bound_values().is_empty());
    assert!(q.bind_values().is_empty());
    let q = QueryUserPass::default();
    assert!(q.bound_values().is_empty());
    assert!(q.bind_values().is_empty());
}

#[test]
fn user_binds_every_field_in_order() {
    let mut user = User::default();
    user.id = 3;
    user.username = "ada".to_string();
    user.permissions = Permissions {
        bits: permissions::ADMIN,
    };
    let names = user.bound_values();
    assert_eq!(
        names,
        vec!["id", "username", "email", "password", "permissions"]
    );
    user.number = Some(5550123);
    let names = user.bound_values();
    assert_eq!(
        names,
        vec!["id", "username", "email", "number", "password", "permissions"]
    );
    let values = user.bind_values();
    assert_eq!(values.len(), 6);
    assert_eq!(values[0], SqlValue::Int(3));
    assert_eq!(values[1], SqlValue::Text("ada".to_string()));
    assert_eq!(values[2], SqlValue::Text("default@email.com".to_string()));
    assert_eq!(values[3], SqlValue::Int(5550123));
    assert_eq!(values[5], SqlValue::Int(permissions::ADMIN as i64));
}

#[test]
fn user_pass_binds_codec_blobs() {
    let up = UserPass {
        id: 9,
        user_id: 3,
        time_pass: TimePass {
            expiry: Timestamp {
                secs: 1_700_000_000,
                nanos: 5,
            },
        },
        session_pass: SessionPass {
            sessions_left: 2,
            last_time_used: Timestamp { secs: 77, nanos: 0 },
        },
    };
    assert_eq!(
        up.bound_values(),
        vec!["id", "user_id", "time_pass", "session_pass"]
    );
    let values = up.bind_values();
    assert_eq!(values[0], SqlValue::Int(9));
    assert_eq!(values[1], SqlValue::Int(3));
    assert_eq!(values[2], SqlValue::Blob(encode_time_pass(&up.time_pass)));
    assert_eq!(
        values[3],
        SqlValue::Blob(encode_session_pass(&up.session_pass))
    );
}

#[test]
fn update_carries_two_query_shapes() {
    let upd: Update<User> = Update {
        match_params: QueryUser {
            id: Some(1),
            username: None,
            email: None,
            number: None,
        },
        new_params: QueryUser {
            id: None,
            username: Some("ada".to_string()),
            email: None,
            number: None,
        },
    };
    assert_eq!(upd.match_params.bound_values(), vec!["id"]);
    assert_eq!(upd.new_params.bound_values(), vec!["username"]);
}

#[test]
fn create_shapes_skip_unset_identity() {
    let cu = CreateUser {
        id: None,
        username: "ada".to_string(),
        email: EmailAddr::from_str("default@gmail.com").unwrap(),
        number: None,
        password: PasswordHash::from_raw("pw"),
        permissions: Permissions { bits: permissions::NONE },
    };
    assert_eq!(cu.bound_values(), vec!["username", "email", "password", "permissions"]);
    assert_eq!(cu.bind_values().len(), 4);

    let cup = CreateUserPass {
        id: Some(4),
        user_id: 1,
        time_pass: TimePass::default(),
        session_pass: SessionPass::default(),
    };
    assert_eq!(
        cup.bound_values(),
        vec!["id", "user_id", "time_pass", "session_pass"]
    );
    assert_eq!(cup.bind_values().len(), 4);
}
