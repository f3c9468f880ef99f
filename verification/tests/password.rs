use rust_flutter_application::utils::password::{
    check_password, compare, hash, settle_comparison, MAX_PASSWORD_LENGTH,
};

#[test]
fn hash_refuses_an_empty_password() {
    assert_eq!(hash(""), Err("Password cannot be empty".to_string()));
}

#[test]
fn hash_refuses_a_password_that_is_too_long() {
    let long = "a".repeat(MAX_PASSWORD_LENGTH + 1);
    assert_eq!(hash(&long), Err("Password must not be more than 64 characters".to_string()));
    // the limit is in bytes
    let wide = "\u{e9}".repeat(33);
    assert_eq!(wide.chars().count(), 33);
    assert_eq!(hash(&wide), Err("Password must not be more than 64 characters".to_string()));
}

#[test]
fn hash_takes_a_password_at_the_limit() {
    let longest = "a".repeat(MAX_PASSWORD_LENGTH);
    let hashed = hash(&longest).unwrap();
    assert_eq!(compare(&longest, &hashed), Ok(true));
}

#[test]
fn hash_is_a_phc_string_that_accepts_its_password() {
    let hashed = hash("password123").unwrap();
    assert!(hashed.starts_with("$argon2id$v=19$"));
    assert_ne!(hashed, "password123");
    assert_eq!(compare("password123", &hashed), Ok(true));
    assert_eq!(compare("password124", &hashed), Ok(false));
}

#[test]
fn hash_draws_a_salt_of_its_own_each_time() {
    let a = hash("password123").unwrap();
    let b = hash("password123").unwrap();
    assert_ne!(a, b);
    assert_eq!(compare("password123", &a), Ok(true));
    assert_eq!(compare("password123", &b), Ok(true));
}

#[test]
fn compare_refuses_a_password_outside_the_limits() {
    let hashed = hash("password123").unwrap();
    assert_eq!(compare("", &hashed), Err("Password cannot be empty".to_string()));
    let long = "a".repeat(65);
    assert_eq!(
        compare(&long, &hashed),
        Err("Password must not be more than 64 characters".to_string())
    );
    // the password is judged before the hash
    assert_eq!(compare("", "no hash"), Err("Password cannot be empty".to_string()));
}

#[test]
fn compare_refuses_what_is_no_hash() {
    for text in ["", "no hash", "password123", "$argon2id$"] {
        assert_eq!(
            compare("password123", text),
            Err("Invalid password hash format".to_string()),
            "{}",
            text
        );
    }
}

#[test]
fn compare_accepts_a_known_hash() {
    // Argon2id, m=19456, t=2, p=1, of "password" under the salt "saltsaltsalt"
    let hasher = argon2::Argon2::default();
    let salt = argon2::password_hash::SaltString::from_b64("c2FsdHNhbHRzYWx0").unwrap();
    let known = argon2::PasswordHasher::hash_password(&hasher, b"password", &salt)
        .unwrap()
        .to_string();
    assert!(known.starts_with("$argon2id$v=19$m=19456,t=2,p=1$c2FsdHNhbHRzYWx0$"));
    assert_eq!(compare("password", &known), Ok(true));
    assert_eq!(compare("Password", &known), Ok(false));
}

#[test]
fn check_password_names_the_fault() {
    assert_eq!(check_password(""), Some("Password cannot be empty".to_string()));
    assert_eq!(
        check_password(&"x".repeat(65)),
        Some("Password must not be more than 64 characters".to_string())
    );
    assert_eq!(check_password("x"), None);
    assert_eq!(check_password(&"x".repeat(64)), None);
}

#[test]
fn settle_comparison_goes_by_what_the_hash_said() {
    assert_eq!(settle_comparison("pw", Some(true)), Ok(true));
    assert_eq!(settle_comparison("pw", Some(false)), Ok(false));
    assert_eq!(settle_comparison("pw", None), Err("Invalid password hash format".to_string()));
    assert_eq!(settle_comparison("", Some(true)), Err("Password cannot be empty".to_string()));
    assert_eq!(
        settle_comparison(&"x".repeat(65), None),
        Err("Password must not be more than 64 characters".to_string())
    );
}
