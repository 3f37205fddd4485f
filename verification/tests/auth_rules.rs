use summarizer_api::auth::{check_password, find_user_outcome, register_failure_message, signed_in, valid_email, Login, StoredUser};

fn user() -> StoredUser {
    StoredUser {
        id: "u-1".to_string(),
        name: "Ana".to_string(),
        email: "ana@example.com".to_string(),
        password: "hash".to_string(),
    }
}

#[test]
fn duplicate_key_means_taken_email() {
    let db = "error returned from database: duplicate key value violates unique constraint \"users_email_key\"";
    assert_eq!(register_failure_message(db), "email already exist");
}

#[test]
fn other_insert_failures() {
    assert_eq!(register_failure_message("connection refused"), "error inserting new user");
    assert_eq!(register_failure_message(""), "error inserting new user");
}

#[test]
fn lookup_outcomes() {
    assert_eq!(find_user_outcome(Ok(Some(user()))), Ok(user()));
    assert_eq!(find_user_outcome(Ok(None)), Err("error find user".to_string()));
    assert_eq!(find_user_outcome(Err("pool timed out".to_string())), Err("error find user".to_string()));
}

#[test]
fn password_check() {
    assert_eq!(check_password(true), Ok(()));
    assert_eq!(check_password(false), Err("invalid email or password".to_string()));
}

#[test]
fn sign_in_result() {
    assert_eq!(signed_in(&user(), "tok".to_string()), Login { name: "Ana".to_string(), token: "tok".to_string() });
}

#[test]
fn email_needs_at_sign() {
    assert!(valid_email("a@b"));
    assert!(valid_email("@"));
    assert!(!valid_email("ab.example.com"));
    assert!(!valid_email(""));
}
