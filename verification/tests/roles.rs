use rust_flutter_application::models::user::UserRole;

#[test]
fn role_names_are_lower_case() {
    assert_eq!(UserRole::Admin.to_str(), "admin");
    assert_eq!(UserRole::Moderator.to_str(), "moderator");
    assert_eq!(UserRole::User.to_str(), "user");
}

#[test]
fn role_from_name_ignores_case() {
    assert_eq!(UserRole::from("ADMIN".to_string()), UserRole::Admin);
    assert_eq!(UserRole::from("Moderator".to_string()), UserRole::Moderator);
    assert_eq!(UserRole::from("user".to_string()), UserRole::User);
}

#[test]
fn unknown_role_name_is_least_privileged() {
    assert_eq!(UserRole::from("root".to_string()), UserRole::User);
    assert_eq!(UserRole::from("".to_string()), UserRole::User);
}
