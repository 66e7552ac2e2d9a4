//! What the pages and redirects of the web front end show, independent of how they are drawn.

use vstd::prelude::*;

use crate::error::WorkflowError;
use crate::models::Role;
use crate::roles::AuthUser;

verus! {

/// The path of the login page.
pub open spec fn login_path() -> Seq<char> {
    "/login"@
}

/// The name of the cookie that holds the signed-in user's id.
pub open spec fn session_cookie() -> Seq<char> {
    "session"@
}

/// A redirect to another path.
pub struct Redirect {
    pub location: String,
}

fn to_login_page() -> (r: Redirect)
    ensures
        r.location@ == login_path(),
{
    Redirect { location: String::from_str("/login") }
}

/// The start page for visitors who are not signed in sends them to the login page.
pub fn index() -> (r: Redirect)
    ensures
        r.location@ == login_path(),
{
    to_login_page()
}

/// The FAQ page for visitors who are not signed in sends them to the login page.
pub fn faq() -> (r: Redirect)
    ensures
        r.location@ == login_path(),
{
    to_login_page()
}

/// Requests that the authentication rules refused for want of a user go to the login page.
pub fn to_login() -> (r: Redirect)
    ensures
        r.location@ == login_path(),
{
    to_login_page()
}

/// Signing out: the session cookie to remove and where to go next.
pub struct Logout {
    pub remove_cookie: String,
    pub redirect: Redirect,
}

/// Sign out: remove the session cookie and go to the login page.
pub fn post_logout() -> (r: Logout)
    ensures
        r.remove_cookie@ == session_cookie(),
        r.redirect.location@ == login_path(),
{
    Logout { remove_cookie: String::from_str("session"), redirect: to_login_page() }
}

/// The FAQ page, shown according to the role of the signed-in user.
pub struct Faq {
    pub role: Role,
}

/// The FAQ page for a signed-in user.
pub fn faq_user(user: &AuthUser) -> (r: Faq)
    ensures
        r.role == user.0.role,
{
    Faq { role: user.0.role }
}

/// The login page with the message of the last attempt, as flash name and message.
pub struct LoginPage {
    pub flash: Option<(String, String)>,
}

/// The login page.
pub fn login(flash: Option<(String, String)>) -> (r: LoginPage)
    ensures
        r.flash == flash,
{
    LoginPage { flash }
}

/// The form for inviting a new user.
pub struct NewUserPage {
    pub role: Role,
    pub flash: Option<String>,
}

/// The form for inviting a new user, shown to an administrator.
pub fn new_user(user: &AuthUser, flash: Option<String>) -> (r: NewUserPage)
    ensures
        r.role == user.0.role,
        r.flash == flash,
{
    NewUserPage { role: user.0.role, flash }
}

/// The form for activating an account with its code.
pub struct ActivatePage {
    pub flash: Option<String>,
    pub code: String,
}

/// The activation form for the account holding `code`.
pub fn activate(code: String, flash: Option<String>) -> (r: ActivatePage)
    ensures
        r.code == code,
        r.flash == flash,
{
    ActivatePage { flash, code }
}

/// The error pages.
#[derive(Clone, Copy, Debug, PartialEq, Eq, Structural)]
pub enum ErrorPage {
    Forbidden,
    NotFound,
    InternalServerError,
}

impl ErrorPage {
    pub open spec fn spec_status(self) -> u16 {
        match self {
            ErrorPage::Forbidden => 403,
            ErrorPage::NotFound => 404,
            ErrorPage::InternalServerError => 500,
        }
    }

    /// The HTTP status code that the page is answered with.
    pub fn status(self) -> (r: u16)
        ensures
            r == self.spec_status(),
    {
        match self {
            ErrorPage::Forbidden => 403,
            ErrorPage::NotFound => 404,
            ErrorPage::InternalServerError => 500,
        }
    }
}

/// The page for a request that the user's role does not allow.
pub fn forbidden() -> (r: ErrorPage)
    ensures
        r == ErrorPage::Forbidden,
{
    ErrorPage::Forbidden
}

/// The page for a path that names nothing.
pub fn not_found() -> (r: ErrorPage)
    ensures
        r == ErrorPage::NotFound,
{
    ErrorPage::NotFound
}

/// The page for a failure inside the server.
pub fn internal_server_error() -> (r: ErrorPage)
    ensures
        r == ErrorPage::InternalServerError,
{
    ErrorPage::InternalServerError
}

/// A failed workflow operation as the web front end answers it.
pub struct ServerError {
    pub error: WorkflowError,
}

impl ServerError {
    /// The HTTP status code for the failure: unknown ids are not found, refused requests are
    /// rejected, and storage failures are server errors.
    pub fn status(&self) -> (r: u16)
        ensures
            r == match self.error {
                WorkflowError::NotFound => 404u16,
                WorkflowError::InvalidTransition => 400u16,
                WorkflowError::Unauthorized => 403u16,
                WorkflowError::PersistenceFailure => 500u16,
            },
    {
        match self.error {
            WorkflowError::NotFound => 404,
            WorkflowError::InvalidTransition => 400,
            WorkflowError::Unauthorized => 403,
            WorkflowError::PersistenceFailure => 500,
        }
    }
}

/// A form value that is not empty.
pub struct NonEmptyString(pub String);

impl NonEmptyString {
    /// Accept a value with at least one character.
    pub fn new(value: String) -> (r: Option<NonEmptyString>)
        ensures
            r is Some <==> value@.len() > 0,
            r is Some ==> r->Some_0.0 == value,
    {
        if value.as_str().unicode_len() == 0 {
            None
        } else {
            Some(NonEmptyString(value))
        }
    }
}

/// An hour of the day, from 0 to 23.
pub struct Hour(pub u8);

impl Hour {
    pub fn new(value: u8) -> (r: Option<Hour>)
        ensures
            r is Some <==> value < 24,
            r is Some ==> r->Some_0.0 == value,
    {
        if value >= 24 {
            None
        } else {
            Some(Hour(value))
        }
    }
}

/// A minute or second, from 0 to 59.
pub struct Minute(pub u8);

impl Minute {
    pub fn new(value: u8) -> (r: Option<Minute>)
        ensures
            r is Some <==> value < 60,
            r is Some ==> r->Some_0.0 == value,
    {
        if value >= 60 {
            None
        } else {
            Some(Minute(value))
        }
    }
}

} // verus!
