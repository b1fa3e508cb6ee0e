use taco_chat::account::{log_in, register, RegisterError, UserRecord, MAX_USERNAME_LENGTH};
use taco_chat::guest::{Guest, GuestPage, InputData};
use taco_chat::requests::LoginInfo;

fn info(name: &str, password: &str) -> LoginInfo {
    LoginInfo { username: name.to_string(), password: password.to_string() }
}

const HELLO_DIGEST: &str = "2cf24dba5fb0a30e26e83b2ac5b9e29e1b161e5c1fa7425e73043362938b9824";

#[test]
fn register_keeps_the_digest_of_the_password() {
    assert_eq!(
        register(&info("alice", "hello")),
        Ok(UserRecord {
            id: "alice".to_string(),
            password: HELLO_DIGEST.to_string(),
            display_name: "alice".to_string(),
        })
    );
}

#[test]
fn register_digests_the_empty_password() {
    let user = register(&info("alice", "")).unwrap();
    assert_eq!(user.password, "e3b0c44298fc1c149afbf4c8996fb92427ae41e4649b934ca495991b7852b855");
}

#[test]
fn register_refuses_names_over_twenty_bytes() {
    assert_eq!(MAX_USERNAME_LENGTH, 20);
    assert!(register(&info(&"a".repeat(20), "pw")).is_ok());
    assert_eq!(register(&info(&"a".repeat(21), "pw")), Err(RegisterError::UsernameTooLong));
    assert!(register(&info("десятьбукв", "pw")).is_ok());
    assert_eq!(register(&info("одиннадцать", "pw")), Err(RegisterError::UsernameTooLong));
}

#[test]
fn register_error_statuses() {
    assert_eq!(RegisterError::UsernameTooLong.status(), 400);
    assert_eq!(RegisterError::NameTaken.status(), 409);
    assert_eq!(RegisterError::Storage.status(), 500);
    assert_eq!(RegisterError::from_storage(true), RegisterError::NameTaken);
    assert_eq!(RegisterError::from_storage(false), RegisterError::Storage);
}

#[test]
fn log_in_compares_name_and_digest() {
    let user = register(&info("alice", "hello")).unwrap();
    assert!(log_in(&user, &info("alice", "hello")));
    assert!(!log_in(&user, &info("alice", "Hello")));
    assert!(!log_in(&user, &info("alice", HELLO_DIGEST)));
    assert!(!log_in(&user, &info("bob", "hello")));
}

#[test]
fn guest_starts_on_the_registration_page() {
    let guest = Guest::new();
    assert_eq!(guest.get_id(), 0);
    assert_eq!(guest.page, GuestPage::Register);
    assert_eq!(
        guest.input,
        InputData {
            linput: String::new(),
            pinput: String::new(),
            ninput: String::new(),
            fncheck: false,
            dcheck: false,
            fninput: String::new(),
            dinput: String::new(),
        }
    );
}
