use rust_flutter_application::dtos::barang::BarangDto;
use rust_flutter_application::dtos::user::UserDto;
use rust_flutter_application::models::barang::BarangModel;
use rust_flutter_application::models::user::{UserModel, UserRole};
use rust_flutter_application::schemas::auth::{
    AuthFault, LoginUserSchema, RefreshTokenSchema, RegisterUserSchema,
};
use rust_flutter_application::schemas::barang::{BarangFault, InsertBarangSchema, SyncBarangSchema};
use rust_flutter_application::services::barang_service::name_pattern;
use rust_flutter_application::services::user_services::{destination, photo_name};
use rust_flutter_application::utils::codec::{contains_bytes, push_hex, same_text, write_uuid};
use rust_flutter_application::utils::session::session_key;

fn user(verified: i8) -> UserModel {
    UserModel {
        id: "u1".to_string(),
        name: "User Name".to_string(),
        email: "user1@mail.com".to_string(),
        password: "$argon2id$secret".to_string(),
        role: UserRole::Moderator,
        photo: "default.png".to_string(),
        verified,
        created_at: Some(1_700_000_000),
        updated_at: None,
    }
}

fn barang(name: &str, price: i32, stock: i32) -> InsertBarangSchema {
    InsertBarangSchema { name: name.to_string(), price, stock, expired_at: None }
}

#[test]
fn filter_shows_everything_but_the_password() {
    let dto = UserDto::filter(&user(1));
    assert_eq!(dto.id, "u1");
    assert_eq!(dto.name, "User Name");
    assert_eq!(dto.email, "user1@mail.com");
    assert_eq!(dto.role, UserRole::Moderator);
    assert_eq!(dto.photo, "default.png");
    assert!(dto.verified);
    assert_eq!(dto.created_at, Some(1_700_000_000));
    assert_eq!(dto.updated_at, None);
}

#[test]
fn verified_is_everything_but_zero() {
    assert!(!UserDto::filter(&user(0)).verified);
    assert!(UserDto::filter(&user(1)).verified);
    assert!(UserDto::filter(&user(-1)).verified);
    assert!(UserDto::filter(&user(i8::MIN)).verified);
}

#[test]
fn filter_iter_keeps_the_order() {
    let mut second = user(0);
    second.id = "u2".to_string();
    let dtos = UserDto::filter_iter(&[user(1), second]);
    assert_eq!(dtos.len(), 2);
    assert_eq!(dtos[0].id, "u1");
    assert!(dtos[0].verified);
    assert_eq!(dtos[1].id, "u2");
    assert!(!dtos[1].verified);
    assert!(UserDto::filter_iter(&[]).is_empty());
}

#[test]
fn into_model_has_no_password() {
    let model = UserDto::filter(&user(5)).into_model();
    assert_eq!(model.id, "u1");
    assert_eq!(model.password, "");
    assert_eq!(model.verified, 1);
    assert_eq!(model.role, UserRole::Moderator);
    assert_eq!(UserDto::filter(&user(0)).into_model().verified, 0);
}

#[test]
fn account_turns_into_what_a_client_sees() {
    let dto: UserDto = user(-3).into();
    assert_eq!(dto.id, "u1");
    assert_eq!(dto.email, "user1@mail.com");
    assert_eq!(dto.role, UserRole::Moderator);
    assert!(dto.verified);
    assert!(!UserDto::from(user(0)).verified);
}

#[test]
fn principal_is_the_id_and_the_role() {
    let principal = user(1).principal();
    assert_eq!(principal.id, "u1");
    assert_eq!(principal.role, UserRole::Moderator);
}

#[test]
fn barang_is_shown_whole() {
    let model = BarangModel {
        id: "b1".to_string(),
        name: "Barang 1".to_string(),
        price: 11_000,
        stock: 100,
        expired_at: Some(738_926),
        created_at: Some(1_700_000_000),
        updated_at: Some(1_700_000_001),
    };
    let dto = BarangDto::filter(&model);
    assert_eq!(dto.id, "b1");
    assert_eq!(dto.name, "Barang 1");
    assert_eq!(dto.price, 11_000);
    assert_eq!(dto.stock, 100);
    assert_eq!(dto.expired_at, Some(738_926));
    assert_eq!(dto.created_at, Some(1_700_000_000));
    assert_eq!(dto.updated_at, Some(1_700_000_001));
    let dtos = BarangDto::filter_iter(std::slice::from_ref(&model));
    assert_eq!(dtos.len(), 1);
    assert_eq!(dtos[0].id, "b1");
    let back: BarangModel = dto.into();
    assert_eq!(back.id, "b1");
    assert_eq!(back.name, "Barang 1");
    assert_eq!(back.stock, 100);
    assert_eq!(back.created_at, Some(1_700_000_000));
    let again = BarangDto::from(back);
    assert_eq!(again.price, 11_000);
    assert_eq!(again.expired_at, Some(738_926));
    assert_eq!(again.updated_at, Some(1_700_000_001));
}

#[test]
fn barang_needs_a_name_and_no_negative_numbers() {
    assert_eq!(barang("Barang 1", 11_000, 100).validate(), Ok(()));
    assert_eq!(barang("b", 0, 0).validate(), Ok(()));
    assert_eq!(barang("", 1, 1).validate(), Err(BarangFault::NameRequired));
    assert_eq!(barang("b", -1, 1).validate(), Err(BarangFault::NegativePrice));
    assert_eq!(barang("b", 1, -1).validate(), Err(BarangFault::NegativeStock));
    assert_eq!(barang("b", i32::MIN, i32::MIN).validate(), Err(BarangFault::NegativePrice));
    assert_eq!(barang("", -1, -1).validate(), Err(BarangFault::NameRequired));
    assert_eq!(BarangFault::NameRequired.message(), "Name is required");
    assert_eq!(BarangFault::NegativePrice.message(), "price must not be below zero");
    assert_eq!(BarangFault::NegativeStock.message(), "stock must not be below zero");
}

#[test]
fn sync_reports_every_record_that_is_not_acceptable() {
    let sync = SyncBarangSchema {
        barang: vec![barang("a", 1, 1), barang("", 1, 1), barang("c", 1, 1), barang("d", 1, -5)],
    };
    assert_eq!(
        sync.validate(),
        vec![(1, BarangFault::NameRequired), (3, BarangFault::NegativeStock)]
    );
    let sync = SyncBarangSchema { barang: vec![barang("a", 1, 1), barang("b", 2, 2)] };
    assert!(sync.validate().is_empty());
    assert!(SyncBarangSchema { barang: vec![] }.validate().is_empty());
}

#[test]
fn login_needs_an_email_address_and_a_password() {
    let body = |email: &str, password: &str| LoginUserSchema {
        email: email.to_string(),
        password: password.to_string(),
    };
    assert_eq!(body("user1@mail.com", "user1").validate(), Ok(()));
    assert_eq!(body("user1", "user1").validate(), Err(AuthFault::EmailInvalid));
    assert_eq!(body("", "").validate(), Err(AuthFault::EmailInvalid));
    assert_eq!(body("@mail.com", "user1").validate(), Err(AuthFault::EmailInvalid));
    assert_eq!(body("user1@mail.com", "").validate(), Err(AuthFault::PasswordRequired));
    assert_eq!(body("anything", "x").check(true), Ok(()));
    assert_eq!(body("user1@mail.com", "x").check(false), Err(AuthFault::EmailInvalid));
}

#[test]
fn registration_needs_a_name_an_email_and_the_password_twice() {
    let body = |name: &str, email: &str, password: &str, confirm: &str| RegisterUserSchema {
        name: name.to_string(),
        email: email.to_string(),
        password: password.to_string(),
        password_confirm: confirm.to_string(),
    };
    assert_eq!(body("User Name", "user1@mail.com", "user1", "user1").validate(), Ok(()));
    assert_eq!(
        body("", "user1@mail.com", "user1", "user1").validate(),
        Err(AuthFault::NameRequired)
    );
    assert_eq!(body("n", "mail.com", "user1", "user1").validate(), Err(AuthFault::EmailInvalid));
    assert_eq!(
        body("n", "user1@mail.com", "", "").validate(),
        Err(AuthFault::PasswordRequired)
    );
    assert_eq!(
        body("n", "user1@mail.com", "user1", "User1").validate(),
        Err(AuthFault::PasswordMismatch)
    );
    assert_eq!(body("n", "x", "a", "a").check(true), Ok(()));
}

#[test]
fn refresh_needs_a_token() {
    assert_eq!(RefreshTokenSchema { refresh_token: "t".to_string() }.validate(), Ok(()));
    assert_eq!(
        RefreshTokenSchema { refresh_token: "".to_string() }.validate(),
        Err(AuthFault::TokenRequired)
    );
}

#[test]
fn faults_have_their_words() {
    assert_eq!(AuthFault::NameRequired.message(), "Name is required");
    assert_eq!(AuthFault::EmailInvalid.message(), "Email is invalid");
    assert_eq!(AuthFault::PasswordRequired.message(), "Password is required");
    assert_eq!(AuthFault::PasswordMismatch.message(), "Passwords do not match");
    assert_eq!(AuthFault::TokenRequired.message(), "Refresh token is required");
}

#[test]
fn hex_is_two_lower_case_digits_a_byte() {
    let mut out = "x".to_string();
    push_hex(&mut out, &[0x00, 0x0f, 0xa0, 0xff, 0x7b]);
    assert_eq!(out, "x000fa0ff7b");
    push_hex(&mut out, &[]);
    assert_eq!(out, "x000fa0ff7b");
}

#[test]
fn same_text_compares_whole_texts() {
    assert!(same_text("", ""));
    assert!(same_text("admin", "admin"));
    assert!(!same_text("admin", "Admin"));
    assert!(!same_text("admin", "admi"));
}

#[test]
fn uuid_is_written_as_the_uuid_crate_writes_it() {
    assert_eq!(
        write_uuid(0xa1a2a3a4_b1b2_c1c2_d1d2_d3d4d5d6d7d8),
        "a1a2a3a4-b1b2-c1c2-d1d2-d3d4d5d6d7d8"
    );
    assert_eq!(write_uuid(0), "00000000-0000-0000-0000-000000000000");
    assert_eq!(write_uuid(u128::MAX), "ffffffff-ffff-ffff-ffff-ffffffffffff");
    assert_eq!(write_uuid(1), "00000000-0000-0000-0000-000000000001");
    for _ in 0..32 {
        let id = uuid::Uuid::new_v4();
        assert_eq!(write_uuid(id.as_u128()), id.to_string());
    }
}

#[test]
fn session_key_is_the_session_id_as_a_uuid() {
    let id = uuid::Uuid::parse_str("67e55044-10b1-426f-9247-bb680e5fe0c8").unwrap();
    assert_eq!(session_key(id.as_u128()), "67e55044-10b1-426f-9247-bb680e5fe0c8");
}

#[test]
fn photo_is_kept_under_its_id_and_the_extension_of_the_file() {
    assert_eq!(photo_name(Some("p1"), Some("me.png")), "p1.png");
    assert_eq!(photo_name(Some("p1"), Some("archive.tar.gz")), "p1.gz");
    assert_eq!(photo_name(Some("p1"), Some(".hidden")), "p1.hidden");
    assert_eq!(photo_name(Some("p1"), Some("trailing.")), "p1.");
    assert_eq!(photo_name(Some("p1"), Some("\u{e9}t\u{e9}.jp\u{e9}g")), "p1.jp\u{e9}g");
    assert_eq!(photo_name(Some(""), Some("a.b")), ".b");
}

#[test]
fn photo_without_id_name_or_extension_is_the_default_one() {
    assert_eq!(photo_name(Some("p1"), Some("noextension")), "default.png");
    assert_eq!(photo_name(Some("p1"), Some("")), "default.png");
    assert_eq!(photo_name(Some("p1"), None), "default.png");
    assert_eq!(photo_name(None, Some("me.png")), "default.png");
    assert_eq!(photo_name(None, None), "default.png");
}

#[test]
fn destination_is_the_directory_and_the_name_as_they_are() {
    assert_eq!(destination("/var/app/", "p1.png"), "/var/app/p1.png");
    assert_eq!(destination("/var/app", "p1.png"), "/var/appp1.png");
    assert_eq!(destination("", ""), "");
}

#[test]
fn name_pattern_finds_names_that_hold_the_text() {
    assert_eq!(name_pattern(Some("Barang")), "%Barang%");
    assert_eq!(name_pattern(Some("")), "%%");
    assert_eq!(name_pattern(None), "%%");
    assert_eq!(name_pattern(Some("50%")), "%50%%");
}

#[test]
fn contains_bytes_finds_a_stretch_anywhere() {
    assert!(contains_bytes(b"abcabd", b"abd"));
    assert!(contains_bytes(b"abcabd", b"abc"));
    assert!(contains_bytes(b"aab", b"ab"));
    assert!(contains_bytes(b"abc", b""));
    assert!(contains_bytes(b"", b""));
    assert!(contains_bytes(b"abc", b"abc"));
    assert!(!contains_bytes(b"abc", b"abcd"));
    assert!(!contains_bytes(b"", b"a"));
    assert!(!contains_bytes(b"abcabd", b"abe"));
    assert!(!contains_bytes(b"abcabd", b"ba"));
}
