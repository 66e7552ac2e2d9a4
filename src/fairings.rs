//! Request and response rules that apply to every route.

use vstd::prelude::*;

use crate::models::Role;
use crate::text::same_text;

verus! {

/// The header that carries the content security policy.
pub open spec fn csp_header_name() -> Seq<char> {
    "Content-Security-Policy"@
}

/// The policy: nothing but own images, scripts, forms, and the CDN's scripts, styles and fonts.
pub open spec fn csp_policy() -> Seq<char> {
    "default-src 'none'; img-src 'self'; script-src 'self' https://cdn.jsdelivr.net; style-src https://cdn.jsdelivr.net; font-src https://cdn.jsdelivr.net; base-uri 'none'; form-action 'self'; frame-ancestors 'none'"@
}

/// Adds the content security policy header to responses that do not set one.
pub struct Csp;

impl Csp {
    /// The header to add to a response, given whether it already has one.
    pub fn on_response(has_header: bool) -> (r: Option<(&'static str, &'static str)>)
        ensures
            r is Some <==> !has_header,
            r is Some ==> r->Some_0.0@ == csp_header_name() && r->Some_0.1@ == csp_policy(),
    {
        if has_header {
            None
        } else {
            Some(
                (
                    "Content-Security-Policy",
                    "default-src 'none'; img-src 'self'; script-src 'self' https://cdn.jsdelivr.net; style-src https://cdn.jsdelivr.net; font-src https://cdn.jsdelivr.net; base-uri 'none'; form-action 'self'; frame-ancestors 'none'",
                ),
            )
        }
    }
}

/// Where the authentication rules send a request.
#[derive(Clone, Copy, Debug, PartialEq, Eq, Structural)]
pub enum Routing {
    /// The request goes on to its route.
    Pass,
    /// A signed-in user lacks the role: the request is answered as forbidden.
    Forbidden,
    /// No user is signed in: the request is sent to the login page.
    ToLogin,
}

/// The first path segments reserved for administrators.
pub open spec fn is_admin_area(segment: Seq<char>) -> bool {
    segment == "users"@ || segment == "courses"@
}

/// The first path segments reserved for signed-in users, students included.
pub open spec fn is_student_area(segment: Seq<char>) -> bool {
    segment == "tickets"@
}

/// Checks authentication and authorization of the protected areas before any route runs.
pub struct Auth;

impl Auth {
    pub open spec fn spec_route(segment: Option<Seq<char>>, user: Option<Role>) -> Routing {
        match segment {
            Some(seg) => if is_admin_area(seg) && user != Some(Role::Admin) {
                if user is Some {
                    Routing::Forbidden
                } else {
                    Routing::ToLogin
                }
            } else if is_student_area(seg) && user is None {
                Routing::ToLogin
            } else {
                Routing::Pass
            },
            None => Routing::Pass,
        }
    }

    /// Decide a request by the first segment of its path and the role of its signed-in user.
    pub fn route(segment: Option<&str>, user: Option<Role>) -> (r: Routing)
        ensures
            r == Self::spec_route(
                match segment {
                    Some(s) => Some(s@),
                    None => None,
                },
                user,
            ),
    {
        match segment {
            Some(seg) => {
                let admin_area = same_text(seg, "users") || same_text(seg, "courses");
                let student_area = same_text(seg, "tickets");
                let is_admin = match user {
                    Some(role) => role == Role::Admin,
                    None => false,
                };
                if admin_area && !is_admin {
                    if user.is_some() {
                        Routing::Forbidden
                    } else {
                        Routing::ToLogin
                    }
                } else if student_area && user.is_none() {
                    Routing::ToLogin
                } else {
                    Routing::Pass
                }
            },
            None => Routing::Pass,
        }
    }
}

} // verus!
