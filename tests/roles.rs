use amelio::models::Role;
use amelio::roles::authorized;

/// The role order runs from the most to the least privileged.
#[test]
fn role_order() {
    assert!(Role::Admin < Role::Author);
    assert!(Role::Author < Role::Tutor);
    assert!(Role::Tutor < Role::Student);
}

#[test]
fn tutor_capability_admits_authors_but_not_students() {
    assert!(authorized(Role::Tutor, Role::Tutor));
    assert!(authorized(Role::Author, Role::Tutor));
    assert!(authorized(Role::Admin, Role::Tutor));
    assert!(!authorized(Role::Student, Role::Tutor));
}
