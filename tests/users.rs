use shopped::db::{CreateUser, Database, LoginUser};
use shopped::response::{
    ServerResponse, ACCEPTED, BAD_REQUEST, CONFLICT, CREATED, INTERNAL_SERVER_ERROR, NOT_FOUND,
};
use shopped::users::{
    check_login, check_registration, has_at_sign, login, login_after_lookup, register,
    registration_after_insert, registration_after_lookup,
};

fn create(name: &str, email: &str) -> CreateUser {
    CreateUser { name: name.to_string(), email: email.to_string(), avatar_url: None }
}

fn login_as(email: &str) -> LoginUser {
    LoginUser { email: email.to_string() }
}

#[test]
fn register_and_login_scenario() {
    let mut db = Database::new();

    let r = register(&mut db, create("ab", "a@b.com"));
    assert_eq!(r.status, 400);
    assert_eq!(r.msg, "The value of the name property must be greater than 3");
    assert!(r.data.is_none());

    let r = register(&mut db, create("abc", "abc.com"));
    assert_eq!(r.status, 400);
    assert_eq!(r.msg, "The value of the email property must have an @");
    assert!(r.data.is_none());

    let r = register(&mut db, create("abc", "a@b.com"));
    assert_eq!(r.status, 201);
    assert_eq!(r.msg, "User was created successfully");
    let user = r.data.expect("created user");
    assert_eq!(user.name, "abc");
    assert_eq!(user.email, "a@b.com");
    assert_eq!(user.avatar_url, None);
    assert_eq!(user.id, 0);

    let r = register(&mut db, create("abc", "a@b.com"));
    assert_eq!(r.status, 409);
    assert_eq!(r.msg, "The user you tried to create already exists");
    assert!(r.data.is_none());
    assert_eq!(db.len(), 1);

    let r = login(&db, login_as("a@b.com"));
    assert_eq!(r.status, 202);
    assert_eq!(r.msg, "Welcome to shopped");
    assert_eq!(r.data, Some(()));

    let r = login(&db, login_as("x@y.com"));
    assert_eq!(r.status, 404);
    assert_eq!(r.msg, "User not found");
    assert!(r.data.is_none());
}

#[test]
fn register_empty_fields_refused() {
    let mut db = Database::new();
    for (name, email) in [("", "a@b.com"), ("abc", ""), ("", "")] {
        let r = register(&mut db, create(name, email));
        assert_eq!(r.status, BAD_REQUEST);
        assert_eq!(r.msg, "\"{ name, email }\" cannot be empty");
        assert!(r.data.is_none());
    }
    assert_eq!(db.len(), 0);
}

#[test]
fn register_short_name_refused() {
    let mut db = Database::new();
    for name in ["a", "ab", "éa"] {
        let r = register(&mut db, create(name, "a@b.com"));
        assert_eq!(r.status, BAD_REQUEST);
        assert!(r.data.is_none());
    }
    assert_eq!(db.len(), 0);
}

#[test]
fn register_name_of_three_characters_accepted() {
    let mut db = Database::new();
    let r = register(&mut db, create("éab", "a@b.com"));
    assert_eq!(r.status, CREATED);
}

#[test]
fn register_email_without_at_refused() {
    let mut db = Database::new();
    let r = register(&mut db, create("alice", "alice.example.com"));
    assert_eq!(r.status, BAD_REQUEST);
    assert_eq!(r.msg, "The value of the email property must have an @");
    assert!(r.data.is_none());
    assert_eq!(db.len(), 0);
}

#[test]
fn register_keeps_avatar_and_numbers_records() {
    let mut db = Database::new();
    let first = register(&mut db, create("alice", "alice@x.org")).data.unwrap();
    let input = CreateUser {
        name: "bob".to_string(),
        email: "bob@x.org".to_string(),
        avatar_url: Some("https://x.org/bob.png".to_string()),
    };
    let second = register(&mut db, input).data.unwrap();
    assert_eq!(first.id, 0);
    assert_eq!(second.id, 1);
    assert_eq!(second.avatar_url.as_deref(), Some("https://x.org/bob.png"));
    assert_eq!(db.len(), 2);
}

#[test]
fn register_twice_with_other_name_conflicts() {
    let mut db = Database::new();
    assert_eq!(register(&mut db, create("alice", "same@x.org")).status, CREATED);
    let r = register(&mut db, create("alicia", "same@x.org"));
    assert_eq!(r.status, CONFLICT);
    assert!(r.data.is_none());
    assert_eq!(db.len(), 1);
}

#[test]
fn login_email_without_at_refused() {
    let mut db = Database::new();
    register(&mut db, create("alice", "alice@x.org"));
    let r = login(&db, login_as("alicex.org"));
    assert_eq!(r.status, BAD_REQUEST);
    assert_eq!(r.msg, "The value of the email property must have an @");
    assert!(r.data.is_none());
    let r = login(&db, login_as(""));
    assert_eq!(r.status, BAD_REQUEST);
}

#[test]
fn login_unknown_email_not_found() {
    let db = Database::new();
    let r = login(&db, login_as("nobody@x.org"));
    assert_eq!(r.status, NOT_FOUND);
    assert!(r.data.is_none());
}

#[test]
fn login_known_email_accepted() {
    let mut db = Database::new();
    register(&mut db, create("alice", "alice@x.org"));
    register(&mut db, create("bob", "bob@x.org"));
    let r = login(&db, login_as("bob@x.org"));
    assert_eq!(r.status, ACCEPTED);
    assert_eq!(r.data, Some(()));
}

#[test]
fn has_at_sign_finds_the_character() {
    assert!(has_at_sign(&"a@b".to_string()));
    assert!(has_at_sign(&"@".to_string()));
    assert!(has_at_sign(&"ü@".to_string()));
    assert!(!has_at_sign(&"".to_string()));
    assert!(!has_at_sign(&"abc".to_string()));
}

#[test]
fn check_registration_order_of_rules() {
    let r: Result<(), ServerResponse<()>> = check_registration(&create("", "no-at"));
    assert_eq!(r.unwrap_err().msg, "\"{ name, email }\" cannot be empty");
    let r: Result<(), ServerResponse<()>> = check_registration(&create("ab", "no-at"));
    assert_eq!(r.unwrap_err().msg, "The value of the name property must be greater than 3");
    let r: Result<(), ServerResponse<()>> = check_registration(&create("abc", "no-at"));
    assert_eq!(r.unwrap_err().status, BAD_REQUEST);
    let r: Result<(), ServerResponse<()>> = check_registration(&create("abc", "a@b"));
    assert!(r.is_ok());
}

#[test]
fn registration_steps_after_store_answers() {
    let r: Option<ServerResponse<u32>> = registration_after_lookup(true);
    let r = r.unwrap();
    assert_eq!(r.status, CONFLICT);
    assert!(r.data.is_none());
    assert!(registration_after_lookup::<u32>(false).is_none());

    let r = registration_after_insert::<u32, ()>(Ok(7));
    assert_eq!(r.status, CREATED);
    assert_eq!(r.data, Some(7));
    let r = registration_after_insert::<u32, &str>(Err("disk full"));
    assert_eq!(r.status, INTERNAL_SERVER_ERROR);
    assert_eq!(r.msg, "The user could not be created");
    assert!(r.data.is_none());
}

#[test]
fn login_steps() {
    let r: Result<(), ServerResponse<()>> = check_login(&login_as("a@b"));
    assert!(r.is_ok());
    let r: Result<(), ServerResponse<()>> = check_login(&login_as("ab"));
    assert_eq!(r.unwrap_err().status, BAD_REQUEST);
    let r = login_after_lookup(true);
    assert_eq!((r.status, r.data), (ACCEPTED, Some(())));
    let r = login_after_lookup(false);
    assert_eq!((r.status, r.data), (NOT_FOUND, None));
}

#[test]
fn database_lookup_returns_first_match() {
    let mut db = Database::new();
    assert!(db.get_user_by_email(&"a@b".to_string()).is_none());
    db.insert_user(create("first", "a@b"));
    db.insert_user(create("second", "a@b"));
    let u = db.get_user_by_email(&"a@b".to_string()).unwrap();
    assert_eq!(u.name, "first");
    assert_eq!(u.id, 0);
    assert_eq!(db.len(), 2);
}
