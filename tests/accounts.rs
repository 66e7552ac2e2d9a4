use amelio::accounts::{course_service, generate_code, login_service, user_service, Credentials};
use amelio::email::{new_mail_renderer, Mail};
use amelio::error::WorkflowError;
use amelio::hashing::{new_hasher, BcryptHasher, Hasher, HASH_COST};
use amelio::models::{NewUser, Role};
use amelio::store::Database;

fn fast_hasher() -> BcryptHasher {
    BcryptHasher { cost: 4 }
}

#[test]
fn generated_codes_are_alphanumeric() {
    let a = generate_code();
    let b = generate_code();
    assert_eq!(a.chars().count(), 20);
    assert!(a.chars().all(|c| c.is_ascii_alphanumeric()));
    assert_ne!(a, b);
}

#[test]
fn hashes_verify_only_their_password() {
    let hasher = fast_hasher();
    let hash = hasher.hash("geheim").unwrap();
    assert_ne!(hash, "geheim");
    assert_eq!(hasher.verify("geheim", &hash), Some(true));
    assert_eq!(hasher.verify("falsch", &hash), Some(false));
    assert_eq!(hasher.verify("geheim", "kein hash"), None);
    assert_eq!(new_hasher().cost, HASH_COST);
}

#[test]
fn invitation_activation_and_login() {
    let mut db = Database::new();
    let mut outbox: Vec<Mail> = Vec::new();
    let users = user_service(new_mail_renderer("https://amelio.example"), fast_hasher());
    users.create(&mut db, &mut outbox, "max".to_owned(), "Max".to_owned(), Role::Student).unwrap();
    assert_eq!(outbox.len(), 1);
    assert_eq!(outbox[0].to.0, "max@iubh-fernstudium.de");
    assert_eq!(outbox[0].subject, "Amelio Registrierung");
    let code = db.list_users()[0].code.clone();
    assert_eq!(code.len(), 20);
    assert!(outbox[0].message.contains(&format!("https://amelio.example/activate/{}", code)));

    // Not active yet: neither listed as activated nor able to sign in.
    assert_eq!(users.list(&db).0.len(), 0);
    let login = login_service(fast_hasher());
    let cred = Credentials { username: "max".to_owned(), password: "pw".to_owned() };
    assert_eq!(login.login(&db, &cred), Err(WorkflowError::NotFound));

    assert_eq!(users.activate(&mut db, "falsch", "pw"), Err(WorkflowError::NotFound));
    users.activate(&mut db, &code, "pw").unwrap();
    assert_eq!(login.login(&db, &cred), Ok(1));
    let wrong = Credentials { username: "max".to_owned(), password: "nein".to_owned() };
    assert_eq!(login.login(&db, &wrong), Err(WorkflowError::Unauthorized));

    let (active, inactive) = users.list(&db);
    assert_eq!(active.len(), 1);
    assert!(inactive.is_empty());
    users.enable(&mut db, 1, false).unwrap();
    assert_eq!(users.list(&db).1.len(), 1);
    assert!(matches!(users.get(&db, 1), Err(WorkflowError::NotFound)));
    assert_eq!(login.login(&db, &cred), Err(WorkflowError::NotFound));
    assert_eq!(users.enable(&mut db, 2, true), Err(WorkflowError::NotFound));
}

#[test]
fn usernames_are_unique() {
    let mut db = Database::new();
    let new = |name: &str| NewUser {
        username: "max".to_owned(),
        name: name.to_owned(),
        role: Role::Student,
        code: name.to_owned(),
    };
    assert_eq!(db.create_user(new("a")), Ok(1));
    assert_eq!(db.create_user(new("b")), Err(WorkflowError::PersistenceFailure));
    assert_eq!(db.list_users().len(), 1);
}

#[test]
fn courses_name_existing_staff() {
    let mut db = Database::new();
    let new = |u: &str, role| NewUser {
        username: u.to_owned(),
        name: u.to_uppercase(),
        role,
        code: u.to_owned(),
    };
    db.create_user(new("anna", Role::Author)).unwrap();
    db.create_user(new("tim", Role::Tutor)).unwrap();
    let courses = course_service();
    assert_eq!(
        courses.create(&mut db, "C1".to_owned(), "Kurs".to_owned(), 1, 3),
        Err(WorkflowError::PersistenceFailure)
    );
    assert_eq!(courses.create(&mut db, "C1".to_owned(), "Kurs".to_owned(), 1, 2), Ok(1));
    let listed = courses.list(&db);
    assert_eq!(listed.len(), 1);
    assert_eq!(listed[0].author_name, "ANNA");
    assert_eq!(listed[0].tutor_name, "TIM");
    let (authors, tutors) = courses.list_authors_tutors(&db);
    assert_eq!(authors, vec![(1, "ANNA".to_owned())]);
    assert_eq!(tutors, vec![(2, "TIM".to_owned())]);
    assert_eq!(courses.update(&mut db, 1, "Neu".to_owned(), 2, 1), Ok(()));
    assert_eq!(courses.get(&db, 1).unwrap().title, "Neu");
    assert_eq!(courses.update(&mut db, 2, "x".to_owned(), 1, 2), Err(WorkflowError::NotFound));
    assert_eq!(
        courses.update(&mut db, 1, "x".to_owned(), 1, 9),
        Err(WorkflowError::PersistenceFailure)
    );
    assert_eq!(courses.enable(&mut db, 1, false), Ok(()));
    assert!(!courses.get(&db, 1).unwrap().active);
}

#[test]
fn first_admin_is_created_once() {
    let mut db = Database::new();
    let password = amelio::accounts::ensure_admin(&mut db, &fast_hasher()).unwrap().unwrap();
    assert_eq!(password.len(), 16);
    let admin = db.find(1).unwrap();
    assert!(admin.is_admin());
    assert_eq!(admin.username, "admin");
    let login = login_service(fast_hasher());
    let cred = Credentials { username: "admin".to_owned(), password };
    assert_eq!(login.login(&db, &cred), Ok(1));
    assert_eq!(amelio::accounts::ensure_admin(&mut db, &fast_hasher()), Ok(None));
    assert_eq!(db.list_users().len(), 1);
}
