use ravix::users::{collect_failures, has_bearer, registered_user, CreateUserDto, InMemoryUserRepository, LoginDto, UserController, UserResponse};
use ravix::response::{Answer, ReplyBody};

fn dto(username: &str, email: &str, password: &str) -> CreateUserDto {
    CreateUserDto { username: username.to_string(), email: email.to_string(), password: password.to_string() }
}

#[test]
fn registration_rules() {
    assert!(dto("testuser_duplicate", "test_duplicate@example.com", "password123").validate().is_ok());
    let f = dto("ab", "not-an-email", "short").validate().err().unwrap();
    assert_eq!(f.fields, vec!["username", "email", "password"]);
    let long = "x".repeat(51);
    assert_eq!(dto(&long, "a@b.co", "password123").validate().err().unwrap().fields, vec!["username"]);
    assert!(dto(&"y".repeat(50), "a@b.co", "12345678").validate().is_ok());
    assert!(dto("日本語", "a@b.co", "12345678").validate().is_ok());
}

#[test]
fn login_rules() {
    let ok = LoginDto { email: "test_wrong_pass@example.com".to_string(), password: "wrongpassword".to_string() };
    assert!(ok.validate().is_ok());
    let bad = LoginDto { email: "x@y.z".to_string(), password: "".to_string() };
    assert_eq!(bad.validate().err().unwrap().fields, vec!["password"]);
}

#[test]
fn bearer_guard() {
    assert!(has_bearer(Some("Bearer abc")));
    assert!(has_bearer(Some("Bearer ")));
    assert!(!has_bearer(Some("bearer abc")));
    assert!(!has_bearer(Some("Basic xyz")));
    assert!(!has_bearer(None));
}

#[test]
fn in_memory_users_roundtrip() {
    let mut repo = InMemoryUserRepository::new();
    assert!(repo.find_all().is_empty());
    let u = repo.save_with_identity(42, dto("alice", "a@x.io", "password123"), 5);
    assert_eq!(u.id, "00000000-0000-0000-0000-00000000002a");
    assert_eq!(u.username, "alice");
    assert!(u.password_hash.is_empty());
    let found = repo.find_by_id(42).unwrap();
    assert_eq!(found.email, "a@x.io");
    assert!(repo.find_by_id(7).is_none());
    let v = repo.save(dto("bob", "b@x.io", "password123"));
    assert_eq!(v.id.len(), 36);
    assert_eq!(repo.find_all().len(), 2);
    let shown = UserResponse::from_user(found);
    assert_eq!(shown.username, "alice");
    assert_eq!(shown.created_at, 5);
}

#[test]
fn user_controller_answers() {
    let mut ctrl = UserController::new(InMemoryUserRepository::new());
    let user = match ctrl.create_user(dto("carol", "carol@example.com", "password123")) {
        Answer::Data { status, data } => {
            assert_eq!(status, 201);
            data
        }
        Answer::Reply(_) => panic!("create refused"),
    };
    assert_eq!(user.username, "carol");
    let id = u128::from_str_radix(&user.id.replace('-', ""), 16).unwrap();
    match ctrl.get_user(id) {
        Answer::Data { status, data } => {
            assert_eq!(status, 200);
            assert_eq!(data.email, "carol@example.com");
        }
        Answer::Reply(_) => panic!("stored user not found"),
    }
    match ctrl.get_user(id.wrapping_add(1)) {
        Answer::Reply(r) => {
            assert_eq!(r.status, 404);
            assert!(matches!(r.body, ReplyBody::ErrorMessage(ref m) if m == "User not found"));
        }
        Answer::Data { .. } => panic!("found a user never stored"),
    }
    match ctrl.list_users() {
        Answer::Data { status, data } => {
            assert_eq!(status, 200);
            assert_eq!(data.len(), 1);
        }
        Answer::Reply(_) => panic!("list refused"),
    }
}

#[test]
fn registered_users_keep_no_credential() {
    let u = registered_user("id-1".to_string(), dto("dave", "d@x.io", "password123"), 99);
    assert_eq!(u.id, "id-1");
    assert_eq!(u.username, "dave");
    assert_eq!(u.email, "d@x.io");
    assert!(u.password_hash.is_empty());
    assert_eq!(u.created_at, 99);
}

#[test]
fn failures_are_collected_in_order() {
    assert!(collect_failures(vec![("a", true), ("b", true)]).is_ok());
    let f = collect_failures(vec![("a", false), ("b", true), ("c", false)]).err().unwrap();
    assert_eq!(f.fields, vec!["a", "c"]);
    assert!(collect_failures(vec![]).is_ok());
}

#[test]
fn registered_ids_are_version_4_uuids() {
    let mut repo = InMemoryUserRepository::new();
    let u = repo.save(dto("erin", "e@x.io", "password123"));
    let chars: Vec<char> = u.id.chars().collect();
    assert_eq!(chars.len(), 36);
    assert_eq!(chars[8], '-');
    assert_eq!(chars[13], '-');
    assert_eq!(chars[14], '4');
    assert!(matches!(chars[19], '8' | '9' | 'a' | 'b'));
    assert!(u.id.chars().all(|c| c == '-' || c.is_ascii_digit() || ('a'..='f').contains(&c)));
}
