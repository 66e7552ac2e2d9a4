//! Login, user management and course management.

use vstd::prelude::*;

use crate::email::{invitation_body, invitation_subject, Mail, MailRenderer};
use crate::error::WorkflowError;
use crate::hashing::{bcrypt_verdict, BcryptHasher};
use crate::models::{
    Course, CourseWithNames, EditCourse, EditUser, Id, NewCourse, NewUser, Role, User,
};
use crate::services::{is_mail_to, queued_one};
use crate::store::{DbView, Database, MAX_ROWS};

verus! {

/// An ASCII letter or digit.
pub open spec fn is_alphanumeric(c: char) -> bool {
    ('a' <= c && c <= 'z') || ('A' <= c && c <= 'Z') || ('0' <= c && c <= '9')
}

/// The length of account activation codes.
pub const CODE_LEN: usize = 20;

/// Relies on rand's `Alphanumeric` distribution, sampled from `thread_rng`: one character drawn
/// from A-Z, a-z and 0-9.
#[verifier::external_body]
fn random_alphanumeric() -> (r: String)
    ensures
        r@.len() == 1,
        is_alphanumeric(r@[0]),
{
    (rand::Rng::sample(&mut rand::thread_rng(), rand::distributions::Alphanumeric) as char).to_string()
}

/// The length of the generated password of the first administrator.
pub const ADMIN_PASSWORD_LEN: usize = 16;

/// Generate a new random code for activating an account.
pub fn generate_code() -> (r: String)
    ensures
        r@.len() == CODE_LEN,
        forall|i: int| 0 <= i < r@.len() ==> is_alphanumeric(#[trigger] r@[i]),
{
    random_text(CODE_LEN)
}

/// A random text of `len` letters and digits.
pub fn random_text(len: usize) -> (r: String)
    ensures
        r@.len() == len,
        forall|i: int| 0 <= i < r@.len() ==> is_alphanumeric(#[trigger] r@[i]),
{
    let mut code = String::new();
    let mut n: usize = 0;
    while n < len
        invariant
            n <= len,
            code@.len() == n,
            forall|i: int| 0 <= i < code@.len() ==> is_alphanumeric(#[trigger] code@[i]),
        decreases len - n,
    {
        let c = random_alphanumeric();
        let ghost before = code@;
        code.append(c.as_str());
        proof {
            assert forall|i: int| 0 <= i < code@.len() implies is_alphanumeric(#[trigger] code@[i]) by {
                if i < before.len() {
                    assert(code@[i] == before[i]);
                } else {
                    assert(code@[i] == c@[0]);
                }
            }
        }
        n += 1;
    }
    code
}

/// Create the first administrator, named `admin`, when the store holds no user yet. Its
/// password is drawn at random and returned so that it can be shown once; only its hash is
/// stored. A store that has users is left alone.
pub fn ensure_admin(db: &mut Database, hasher: &BcryptHasher) -> (r: Result<
    Option<String>,
    WorkflowError,
>)
    requires
        old(db).wf(),
    ensures
        final(db).wf(),
        old(db)@.users.len() > 0 ==> r == Ok::<Option<String>, WorkflowError>(None),
        old(db)@.users.len() > 0 ==> final(db)@ == old(db)@,
        r is Err ==> r->Err_0 == WorkflowError::PersistenceFailure && final(db)@ == old(db)@,
        r matches Ok(Some(password)) ==> ({
            let admin = final(db)@.user(1);
            &&& old(db)@.users.len() == 0
            &&& final(db)@.users.len() == 1
            &&& admin.spec_is_admin()
            &&& admin.username@ == "admin"@
            &&& admin.name@ == "Administrator"@
            &&& admin.active
            &&& admin.code@.len() == 0
            &&& password@.len() == ADMIN_PASSWORD_LEN
            &&& bcrypt_verdict(password@, admin.password@) == Some(true)
        }),
{
    if db.list_users().len() > 0 {
        return Ok(None);
    }
    let password = random_text(ADMIN_PASSWORD_LEN);
    let hash = match hasher.hash_password(password.as_str()) {
        Some(h) => h,
        None => return Err(WorkflowError::PersistenceFailure),
    };
    let setup = String::from_str("setup");
    let created = db.create_user(
        NewUser {
            username: String::from_str("admin"),
            name: String::from_str("Administrator"),
            role: Role::Admin,
            code: setup.clone(),
        },
    );
    if created.is_err() {
        return Err(WorkflowError::PersistenceFailure);
    }
    let ghost created_view = db@;
    match db.activate_user(setup.as_str(), hash) {
        Ok(()) => {},
        Err(_) => {
            proof {
                assert(created_view.users[0].code@ == setup@);
                assert forall|j: int|
                    0 <= j < created_view.users.len() && #[trigger] created_view.users[j].code@
                        == setup@ implies j == 0 by {}
            }
            return Err(WorkflowError::PersistenceFailure);
        },
    }
    Ok(Some(password))
}

/// The credentials that a user signs in with.
pub struct Credentials {
    pub username: String,
    pub password: String,
}

/// Signs users in.
pub struct LoginService {
    pub hasher: BcryptHasher,
}

/// Create a login service.
pub fn login_service(hasher: BcryptHasher) -> (r: LoginService)
    ensures
        r.hasher == hasher,
{
    LoginService { hasher }
}

impl LoginService {
    /// Sign in: the id of the active user with the username, if the password matches its
    /// stored hash.
    pub fn login(&self, db: &Database, cred: &Credentials) -> (r: Result<Id, WorkflowError>)
        requires
            db.wf(),
        ensures
            (forall|i: int|
                0 <= i < db@.users.len() ==> !(#[trigger] db@.users[i].username@ == cred.username@
                    && db@.users[i].active)) ==> r == Err::<Id, WorkflowError>(
                WorkflowError::NotFound,
            ),
            forall|i: int|
                0 <= i < db@.users.len() && #[trigger] db@.users[i].username@ == cred.username@
                    && db@.users[i].active ==> r == match bcrypt_verdict(
                    cred.password@,
                    db@.users[i].password@,
                ) {
                    Some(true) => Ok(db@.users[i].id),
                    Some(false) => Err(WorkflowError::Unauthorized),
                    None => Err(WorkflowError::PersistenceFailure),
                },
    {
        let user = match db.find_by_username(cred.username.as_str()) {
            Ok(u) => u,
            Err(e) => return Err(e),
        };
        proof {
            let j = choose|j: int| 0 <= j < db@.users.len() && db@.users[j] == user;
            assert forall|i: int|
                0 <= i < db@.users.len() && #[trigger] db@.users[i].username@ == cred.username@
                    && db@.users[i].active implies db@.users[i] == user by {
                if i != j {
                    assert(db@.users[i].username@ != db@.users[j].username@);
                }
            }
        }
        match self.hasher.verify_password(cred.password.as_str(), user.password.as_str()) {
            Some(true) => Ok(user.id),
            Some(false) => Err(WorkflowError::Unauthorized),
            None => Err(WorkflowError::PersistenceFailure),
        }
    }
}

/// Manages user accounts: invitation, activation, enabling and editing.
pub struct UserService {
    pub renderer: MailRenderer,
    pub hasher: BcryptHasher,
}

/// Create a user service.
pub fn user_service(renderer: MailRenderer, hasher: BcryptHasher) -> (r: UserService)
    ensures
        r.renderer == renderer,
        r.hasher == hasher,
{
    UserService { renderer, hasher }
}

/// The activated users, split into enabled and disabled ones, each in id order.
pub open spec fn activated_split(users: Seq<User>) -> (Seq<User>, Seq<User>) {
    (
        users.filter(|u: User| u.code@.len() == 0 && u.active),
        users.filter(|u: User| u.code@.len() == 0 && !u.active),
    )
}

impl UserService {
    /// List the users that finished activation, split into active and inactive ones.
    pub fn list(&self, db: &Database) -> (r: (Vec<User>, Vec<User>))
        requires
            db.wf(),
        ensures
            (r.0@, r.1@) == activated_split(db@.users),
    {
        let users = db.list_users();
        let ghost fa = |u: User| u.code@.len() == 0 && u.active;
        let ghost fi = |u: User| u.code@.len() == 0 && !u.active;
        let mut active: Vec<User> = Vec::new();
        let mut inactive: Vec<User> = Vec::new();
        let mut i: usize = 0;
        while i < users.len()
            invariant
                users@ == db@.users,
                i <= users@.len(),
                fa == (|u: User| u.code@.len() == 0 && u.active),
                fi == (|u: User| u.code@.len() == 0 && !u.active),
                active@ == users@.take(i as int).filter(fa),
                inactive@ == users@.take(i as int).filter(fi),
            decreases users@.len() - i,
        {
            proof {
                assert(users@.take(i + 1) =~= users@.take(i as int).push(users@[i as int]));
                users@.take(i as int).lemma_filter_push(users@[i as int], fa);
                users@.take(i as int).lemma_filter_push(users@[i as int], fi);
            }
            let u = &users[i];
            if u.code.as_str().unicode_len() == 0 {
                if u.active {
                    active.push(u.clone());
                } else {
                    inactive.push(u.clone());
                }
            }
            i += 1;
        }
        proof {
            assert(users@.take(i as int) =~= users@);
        }
        (active, inactive)
    }

    /// Get a single active user.
    pub fn get(&self, db: &Database, id: Id) -> (r: Result<User, WorkflowError>)
        requires
            db.wf(),
        ensures
            r is Ok <==> (db@.has_user(id as int) && db@.user(id as int).active),
            r is Ok ==> r->Ok_0 == db@.user(id as int),
            r is Err ==> r->Err_0 == WorkflowError::NotFound,
    {
        db.find(id)
    }

    /// Invite a new user: store the account with a fresh activation code and queue the
    /// invitation mail.
    pub fn create(
        &self,
        db: &mut Database,
        outbox: &mut Vec<Mail>,
        username: String,
        name: String,
        role: Role,
    ) -> (r: Result<(), WorkflowError>)
        requires
            old(db).wf(),
        ensures
            final(db).wf(),
            r is Ok <==> (old(db)@.users.len() < MAX_ROWS && forall|i: int|
                0 <= i < old(db)@.users.len() ==> #[trigger] old(db)@.users[i].username@
                    != username@),
            r is Ok ==> ({
                let u = final(db)@.users.last();
                &&& final(db)@.users.drop_last() == old(db)@.users
                &&& final(db)@ == (DbView { users: final(db)@.users, ..old(db)@ })
                &&& u.id == old(db)@.users.len() + 1
                &&& u.username == username
                &&& u.name == name
                &&& u.role == role
                &&& !u.active
                &&& u.code@.len() == CODE_LEN
                &&& queued_one(old(outbox)@, final(outbox)@)
                &&& is_mail_to(
                    final(outbox)@.last(),
                    u,
                    invitation_subject(),
                    invitation_body(self.renderer.host@, name@, u.code@),
                )
            }),
            r is Err ==> r->Err_0 == WorkflowError::PersistenceFailure && final(db)@ == old(db)@
                && final(outbox)@ == old(outbox)@,
    {
        let code = generate_code();
        let (subject, message) = self.renderer.invitation(name.as_str(), code.as_str());
        let mut address = username.clone();
        address.append("@iubh-fernstudium.de");
        let to_name = name.clone();
        match db.create_user(NewUser { username, name, role, code }) {
            Ok(_) => {},
            Err(e) => return Err(e),
        }
        outbox.push(
            Mail {
                from: (String::from_str("amelio@dnaka91.rocks"), String::from_str("Amelio")),
                to: (address, to_name),
                subject,
                message,
            },
        );
        proof {
            assert(outbox@.drop_last() =~= old(outbox)@);
            assert(db@.users.drop_last() =~= old(db)@.users);
        }
        Ok(())
    }

    /// Activate the account holding `code` with a new password, stored as a hash.
    pub fn activate(&self, db: &mut Database, code: &str, password: &str) -> (r: Result<
        (),
        WorkflowError,
    >)
        requires
            old(db).wf(),
        ensures
            final(db).wf(),
            r is Ok ==> exists|i: int|
                0 <= i < old(db)@.users.len() && #[trigger] old(db)@.users[i].code@ == code@
                    && final(db)@.users[i].active && final(db)@.users[i].code@.len() == 0
                    && bcrypt_verdict(password@, final(db)@.users[i].password@) == Some(true)
                    && final(db)@ == old(db)@.with_user(i + 1, final(db)@.users[i]),
            r is Err ==> final(db)@ == old(db)@,
            r is Err ==> r->Err_0 == WorkflowError::NotFound || r->Err_0
                == WorkflowError::PersistenceFailure,
    {
        let hash = match self.hasher.hash_password(password) {
            Some(h) => h,
            None => return Err(WorkflowError::PersistenceFailure),
        };
        db.activate_user(code, hash)
    }

    /// Enable or disable a user.
    pub fn enable(&self, db: &mut Database, id: Id, enable: bool) -> (r: Result<(), WorkflowError>)
        requires
            old(db).wf(),
        ensures
            final(db).wf(),
            r is Ok <==> old(db)@.has_user(id as int),
            r is Ok ==> final(db)@ == old(db)@.with_user(
                id as int,
                User { active: enable, ..old(db)@.user(id as int) },
            ),
            r is Err ==> r->Err_0 == WorkflowError::NotFound && final(db)@ == old(db)@,
    {
        db.enable_user(id, enable)
    }

    /// Change the name and role of a user.
    pub fn update(&self, db: &mut Database, id: Id, name: String, role: Role) -> (r: Result<
        (),
        WorkflowError,
    >)
        requires
            old(db).wf(),
        ensures
            final(db).wf(),
            r is Ok <==> old(db)@.has_user(id as int),
            r is Ok ==> final(db)@ == old(db)@.with_user(
                id as int,
                User { name, role, ..old(db)@.user(id as int) },
            ),
            r is Err ==> r->Err_0 == WorkflowError::NotFound && final(db)@ == old(db)@,
    {
        db.update_user(EditUser { id, name, role })
    }
}

/// Manages courses.
pub struct CourseService;

/// Create a course service.
pub fn course_service() -> CourseService {
    CourseService
}

impl CourseService {
    /// List all courses with their author and tutor names.
    pub fn list(&self, db: &Database) -> (r: Vec<CourseWithNames>)
        requires
            db.wf(),
        ensures
            r@ == db@.courses.map_values(|c: Course| db@.course_with_names(c)),
    {
        db.list_courses()
    }

    /// List the ids and names of all authors and of all tutors.
    pub fn list_authors_tutors(&self, db: &Database) -> (r: (Vec<(Id, String)>, Vec<(Id, String)>))
        requires
            db.wf(),
        ensures
            r.0@ == db@.users.filter_map(
                |u: User|
                    if u.role == Role::Author {
                        Some((u.id, u.name))
                    } else {
                        None
                    },
            ),
            r.1@ == db@.users.filter_map(
                |u: User|
                    if u.role == Role::Tutor {
                        Some((u.id, u.name))
                    } else {
                        None
                    },
            ),
    {
        (db.list_names_by_role(Role::Author), db.list_names_by_role(Role::Tutor))
    }

    /// Get a single course.
    pub fn get(&self, db: &Database, id: Id) -> (r: Result<Course, WorkflowError>)
        requires
            db.wf(),
        ensures
            r is Ok <==> db@.has_course(id as int),
            r is Ok ==> r->Ok_0 == db@.course(id as int),
            r is Err ==> r->Err_0 == WorkflowError::NotFound,
    {
        db.get_course(id)
    }

    /// Create a new course. Its author and tutor must exist.
    pub fn create(
        &self,
        db: &mut Database,
        code: String,
        title: String,
        author_id: Id,
        tutor_id: Id,
    ) -> (r: Result<Id, WorkflowError>)
        requires
            old(db).wf(),
        ensures
            final(db).wf(),
            r is Ok <==> (old(db)@.courses.len() < MAX_ROWS && old(db)@.has_user(author_id as int)
                && old(db)@.has_user(tutor_id as int)),
            r is Ok ==> r->Ok_0 == old(db)@.courses.len() + 1 && final(db)@ == (DbView {
                courses: old(db)@.courses.push(
                    Course { id: r->Ok_0, code, title, author_id, tutor_id, active: true },
                ),
                ..old(db)@
            }),
            r is Err ==> r->Err_0 == WorkflowError::PersistenceFailure && final(db)@ == old(db)@,
    {
        db.create_course(NewCourse { code, title, author_id, tutor_id })
    }

    /// Enable or disable a course.
    pub fn enable(&self, db: &mut Database, id: Id, enable: bool) -> (r: Result<(), WorkflowError>)
        requires
            old(db).wf(),
        ensures
            final(db).wf(),
            r is Ok <==> old(db)@.has_course(id as int),
            r is Ok ==> final(db)@ == old(db)@.with_course(
                id as int,
                Course { active: enable, ..old(db)@.course(id as int) },
            ),
            r is Err ==> r->Err_0 == WorkflowError::NotFound && final(db)@ == old(db)@,
    {
        db.enable_course(id, enable)
    }

    /// Change the title, author and tutor of a course.
    pub fn update(
        &self,
        db: &mut Database,
        id: Id,
        title: String,
        author_id: Id,
        tutor_id: Id,
    ) -> (r: Result<(), WorkflowError>)
        requires
            old(db).wf(),
        ensures
            final(db).wf(),
            !old(db)@.has_course(id as int) ==> r == Err::<(), WorkflowError>(
                WorkflowError::NotFound,
            ),
            r is Ok <==> (old(db)@.has_course(id as int) && old(db)@.has_user(author_id as int)
                && old(db)@.has_user(tutor_id as int)),
            r is Ok ==> final(db)@ == old(db)@.with_course(
                id as int,
                Course { title, author_id, tutor_id, ..old(db)@.course(id as int) },
            ),
            old(db)@.has_course(id as int) && r is Err ==> r->Err_0
                == WorkflowError::PersistenceFailure,
            r is Err ==> final(db)@ == old(db)@,
    {
        db.update_course(EditCourse { id, title, author_id, tutor_id })
    }
}

} // verus!
