//! The rows of the persisted tables, with enumerations stored as their canonical text and the
//! time of recordings as `HH:MM:SS`. Reading a row checks every such field and refuses the row
//! with `PersistenceFailure` when one does not hold a known value.

use vstd::prelude::*;

use crate::email::{digit_char, digit_str};
use crate::error::WorkflowError;
use crate::models::{
    Category, Course, Id, Medium, NewCourse, NewTicket, NewUser, Priority, Role, Status, Ticket,
    TicketType, TimeOfDay, User,
};
use crate::names::{
    category_from_text, priority_from_text, role_from_text, status_from_text,
    ticket_type_from_text,
};

verus! {

/// What chrono reads from a text under a format, as hour, minute and second.
pub uninterp spec fn parsed_time(s: Seq<char>, format: Seq<char>) -> Option<(u8, u8, u8)>;

/// Relies on chrono::NaiveTime::parse_from_str and chrono's `Timelike` accessors, whose hours
/// lie below 24 and whose minutes and seconds lie below 60.
#[verifier::external_body]
fn parse_time(s: &str, format: &str) -> (r: Option<(u8, u8, u8)>)
    ensures
        r == parsed_time(s@, format@),
        r is Some ==> r->Some_0.0 < 24 && r->Some_0.1 < 60 && r->Some_0.2 < 60,
{
    match chrono::NaiveTime::parse_from_str(s, format) {
        Ok(t) => Some(
            (
                chrono::Timelike::hour(&t) as u8,
                chrono::Timelike::minute(&t) as u8,
                chrono::Timelike::second(&t) as u8,
            ),
        ),
        Err(_) => None,
    }
}

/// The stored form of a time of day.
pub open spec fn time_format() -> Seq<char> {
    "%H:%M:%S"@
}

/// Two decimal digits of a number below 100.
pub open spec fn two_digits(n: u8) -> Seq<char> {
    seq![digit_char((n / 10) as nat), digit_char((n % 10) as nat)]
}

/// A time of day as `HH:MM:SS`.
pub open spec fn time_text(t: TimeOfDay) -> Seq<char> {
    two_digits(t.hour) + seq![':'] + two_digits(t.minute) + seq![':'] + two_digits(t.second)
}

fn push_two_digits(out: &mut String, n: u8)
    requires
        n < 100,
    ensures
        final(out)@ == old(out)@ + two_digits(n),
{
    out.append(digit_str((n / 10) as u32));
    out.append(digit_str((n % 10) as u32));
    proof {
        assert(final(out)@ =~= old(out)@ + two_digits(n));
    }
}

/// Write a time of day as `HH:MM:SS`.
pub fn format_time(t: TimeOfDay) -> (r: String)
    requires
        t.wf(),
    ensures
        r@ == time_text(t),
{
    let mut out = String::new();
    push_two_digits(&mut out, t.hour);
    out.append(":");
    push_two_digits(&mut out, t.minute);
    out.append(":");
    push_two_digits(&mut out, t.second);
    proof {
        reveal_strlit(":");
        assert(out@ =~= time_text(t));
    }
    out
}

/// A full user row.
pub struct UserEntity {
    pub id: i32,
    pub username: String,
    pub password: String,
    pub name: String,
    pub role: String,
    pub active: bool,
    pub code: String,
}

impl UserEntity {
    /// Read the row as a user.
    pub fn into_user(self) -> (r: Result<User, WorkflowError>)
        ensures
            r is Ok <==> role_from_text(self.role@) is Some,
            r is Ok ==> r->Ok_0 == (User {
                id: self.id,
                username: self.username,
                password: self.password,
                name: self.name,
                role: role_from_text(self.role@)->Some_0,
                active: self.active,
                code: self.code,
            }),
            r is Err ==> r->Err_0 == WorkflowError::PersistenceFailure,
    {
        match Role::from_text(self.role.as_str()) {
            Some(role) => Ok(
                User {
                    id: self.id,
                    username: self.username,
                    password: self.password,
                    name: self.name,
                    role,
                    active: self.active,
                    code: self.code,
                },
            ),
            None => Err(WorkflowError::PersistenceFailure),
        }
    }
}

/// A new user row; its password stays empty until activation.
pub struct NewUserEntity {
    pub username: String,
    pub password: String,
    pub name: String,
    pub role: String,
    pub code: String,
}

impl NewUserEntity {
    pub fn from_new(u: NewUser) -> (r: NewUserEntity)
        ensures
            r.username == u.username,
            r.password@.len() == 0,
            r.name == u.name,
            r.role@ == u.role.text(),
            r.code == u.code,
    {
        NewUserEntity {
            username: u.username,
            password: String::new(),
            name: u.name,
            role: String::from_str(u.role.as_text()),
            code: u.code,
        }
    }
}

/// A user row written when the store is first filled.
pub struct InitUserEntity {
    pub username: String,
    pub password: String,
    pub name: String,
    pub role: String,
    pub active: bool,
}

impl InitUserEntity {
    /// The row names a known role.
    pub fn is_valid(&self) -> (r: bool)
        ensures
            r == role_from_text(self.role@) is Some,
    {
        Role::from_text(self.role.as_str()).is_some()
    }
}

/// A full course row.
pub struct CourseEntity {
    pub id: i32,
    pub code: String,
    pub title: String,
    pub author_id: i32,
    pub tutor_id: i32,
    pub active: bool,
}

impl CourseEntity {
    /// Read the row as a course.
    pub fn into_course(self) -> (r: Course)
        ensures
            r == (Course {
                id: self.id,
                code: self.code,
                title: self.title,
                author_id: self.author_id,
                tutor_id: self.tutor_id,
                active: self.active,
            }),
    {
        Course {
            id: self.id,
            code: self.code,
            title: self.title,
            author_id: self.author_id,
            tutor_id: self.tutor_id,
            active: self.active,
        }
    }
}

/// A new course row.
pub struct NewCourseEntity {
    pub code: String,
    pub title: String,
    pub author_id: i32,
    pub tutor_id: i32,
}

impl NewCourseEntity {
    pub fn from_new(c: NewCourse) -> (r: NewCourseEntity)
        ensures
            r.code == c.code,
            r.title == c.title,
            r.author_id == c.author_id,
            r.tutor_id == c.tutor_id,
    {
        NewCourseEntity {
            code: c.code,
            title: c.title,
            author_id: c.author_id,
            tutor_id: c.tutor_id,
        }
    }
}

/// A course row written when the store is first filled.
pub struct InitCourseEntity {
    pub code: String,
    pub title: String,
    pub author_id: i32,
    pub tutor_id: i32,
    pub active: bool,
}

/// A full ticket row.
pub struct TicketEntity {
    pub id: i32,
    pub type_: String,
    pub title: String,
    pub description: String,
    pub category: String,
    pub priority: String,
    pub status: String,
    pub course_id: i32,
    pub creator_id: i32,
    pub forwarded: bool,
}

impl TicketEntity {
    /// The row's type, category, priority and status name known values.
    pub open spec fn readable(self) -> bool {
        &&& ticket_type_from_text(self.type_@) is Some
        &&& category_from_text(self.category@) is Some
        &&& priority_from_text(self.priority@) is Some
        &&& status_from_text(self.status@) is Some
    }

    /// Read the row as a ticket.
    pub fn into_ticket(self) -> (r: Result<Ticket, WorkflowError>)
        ensures
            r is Ok <==> self.readable(),
            r is Ok ==> r->Ok_0 == (Ticket {
                id: self.id,
                type_: ticket_type_from_text(self.type_@)->Some_0,
                title: self.title,
                description: self.description,
                category: category_from_text(self.category@)->Some_0,
                priority: priority_from_text(self.priority@)->Some_0,
                status: status_from_text(self.status@)->Some_0,
                course_id: self.course_id,
                creator_id: self.creator_id,
                forwarded: self.forwarded,
            }),
            r is Err ==> r->Err_0 == WorkflowError::PersistenceFailure,
    {
        let type_ = match TicketType::from_text(self.type_.as_str()) {
            Some(v) => v,
            None => return Err(WorkflowError::PersistenceFailure),
        };
        let category = match Category::from_text(self.category.as_str()) {
            Some(v) => v,
            None => return Err(WorkflowError::PersistenceFailure),
        };
        let priority = match Priority::from_text(self.priority.as_str()) {
            Some(v) => v,
            None => return Err(WorkflowError::PersistenceFailure),
        };
        let status = match Status::from_text(self.status.as_str()) {
            Some(v) => v,
            None => return Err(WorkflowError::PersistenceFailure),
        };
        Ok(
            Ticket {
                id: self.id,
                type_,
                title: self.title,
                description: self.description,
                category,
                priority,
                status,
                course_id: self.course_id,
                creator_id: self.creator_id,
                forwarded: self.forwarded,
            },
        )
    }
}

/// A new ticket row with its derived priority.
pub struct NewTicketEntity {
    pub type_: String,
    pub title: String,
    pub description: String,
    pub category: String,
    pub priority: String,
    pub course_id: i32,
    pub creator_id: i32,
}

impl NewTicketEntity {
    pub fn from_new(t: NewTicket, priority: Priority) -> (r: NewTicketEntity)
        ensures
            r.type_@ == t.type_.text(),
            r.title == t.title,
            r.description == t.description,
            r.category@ == t.category.text(),
            r.priority@ == priority.text(),
            r.course_id == t.course_id,
            r.creator_id == t.creator_id,
    {
        NewTicketEntity {
            type_: String::from_str(t.type_.as_text()),
            title: t.title,
            description: t.description,
            category: String::from_str(t.category.as_text()),
            priority: String::from_str(priority.as_text()),
            course_id: t.course_id,
            creator_id: t.creator_id,
        }
    }
}

/// A ticket row written when the store is first filled.
pub struct InitTicketEntity {
    pub type_: String,
    pub title: String,
    pub description: String,
    pub category: String,
    pub priority: String,
    pub status: String,
    pub course_id: i32,
    pub creator_id: i32,
}

impl InitTicketEntity {
    /// The row's type, category, priority and status name known values.
    pub fn is_valid(&self) -> (r: bool)
        ensures
            r == (ticket_type_from_text(self.type_@) is Some && category_from_text(
                self.category@,
            ) is Some && priority_from_text(self.priority@) is Some && status_from_text(
                self.status@,
            ) is Some),
    {
        TicketType::from_text(self.type_.as_str()).is_some() && Category::from_text(
            self.category.as_str(),
        ).is_some() && Priority::from_text(self.priority.as_str()).is_some() && Status::from_text(
            self.status.as_str(),
        ).is_some()
    }
}

/// A text medium row.
pub struct MediumTextEntity {
    pub ticket_id: i32,
    pub page: i32,
    pub line: i32,
}

impl MediumTextEntity {
    pub fn new(ticket_id: Id, page: u16, line: u16) -> (r: MediumTextEntity)
        ensures
            r.ticket_id == ticket_id,
            r.page == page as i32,
            r.line == line as i32,
    {
        MediumTextEntity { ticket_id, page: page as i32, line: line as i32 }
    }

    /// Read the row; page and line must fit in 16 bits.
    pub fn into_medium(self) -> (r: Result<Medium, WorkflowError>)
        ensures
            r is Ok <==> (0 <= self.page <= u16::MAX && 0 <= self.line <= u16::MAX),
            r is Ok ==> r->Ok_0 == (Medium::Text {
                ticket_id: self.ticket_id,
                page: self.page as u16,
                line: self.line as u16,
            }),
            r is Err ==> r->Err_0 == WorkflowError::PersistenceFailure,
    {
        if 0 <= self.page && self.page <= 65535 && 0 <= self.line && self.line <= 65535 {
            Ok(Medium::Text { ticket_id: self.ticket_id, page: self.page as u16, line: self.line as u16 })
        } else {
            Err(WorkflowError::PersistenceFailure)
        }
    }
}

/// A recording medium row, the time stored as `HH:MM:SS`.
pub struct MediumRecordingEntity {
    pub ticket_id: i32,
    pub time: String,
}

impl MediumRecordingEntity {
    pub fn new(ticket_id: Id, time: TimeOfDay) -> (r: MediumRecordingEntity)
        requires
            time.wf(),
        ensures
            r.ticket_id == ticket_id,
            r.time@ == time_text(time),
    {
        MediumRecordingEntity { ticket_id, time: format_time(time) }
    }

    /// Read the row; the time must parse as `HH:MM:SS`.
    pub fn into_medium(self) -> (r: Result<Medium, WorkflowError>)
        ensures
            r is Ok <==> parsed_time(self.time@, time_format()) is Some,
            r is Ok ==> ({
                let (h, m, s) = parsed_time(self.time@, time_format())->Some_0;
                r->Ok_0 == (Medium::Recording {
                    ticket_id: self.ticket_id,
                    time: TimeOfDay { hour: h, minute: m, second: s },
                })
            }),
            r is Ok ==> (match r->Ok_0 {
                Medium::Recording { time, .. } => time.wf(),
                _ => false,
            }),
            r is Err ==> r->Err_0 == WorkflowError::PersistenceFailure,
    {
        match parse_time(self.time.as_str(), "%H:%M:%S") {
            Some((hour, minute, second)) => Ok(
                Medium::Recording {
                    ticket_id: self.ticket_id,
                    time: TimeOfDay { hour, minute, second },
                },
            ),
            None => Err(WorkflowError::PersistenceFailure),
        }
    }
}

/// An interactive medium row.
pub struct MediumInteractiveEntity {
    pub ticket_id: i32,
    pub url: String,
}

impl MediumInteractiveEntity {
    pub fn into_medium(self) -> (r: Medium)
        ensures
            r == (Medium::Interactive { ticket_id: self.ticket_id, url: self.url }),
    {
        Medium::Interactive { ticket_id: self.ticket_id, url: self.url }
    }
}

/// A questionaire medium row.
pub struct MediumQuestionaireEntity {
    pub ticket_id: i32,
    pub question: i32,
    pub answer: String,
}

impl MediumQuestionaireEntity {
    /// Read the row; the question number must fit in 16 bits.
    pub fn into_medium(self) -> (r: Result<Medium, WorkflowError>)
        ensures
            r is Ok <==> 0 <= self.question <= u16::MAX,
            r is Ok ==> r->Ok_0 == (Medium::Questionaire {
                ticket_id: self.ticket_id,
                question: self.question as u16,
                answer: self.answer,
            }),
            r is Err ==> r->Err_0 == WorkflowError::PersistenceFailure,
    {
        if 0 <= self.question && self.question <= 65535 {
            Ok(
                Medium::Questionaire {
                    ticket_id: self.ticket_id,
                    question: self.question as u16,
                    answer: self.answer,
                },
            )
        } else {
            Err(WorkflowError::PersistenceFailure)
        }
    }
}

} // verus!
