//! The ticket creation form: which fields each ticket type needs, and their checks.

use vstd::prelude::*;

use crate::models::{Category, Id, MediumType, NewMedium, NewTicket, TicketType, TimeOfDay};

verus! {

/// What the url crate makes of a text: its serialization when it parses as an absolute URL.
pub uninterp spec fn url_serialization(s: Seq<char>) -> Option<Seq<char>>;

/// Relies on url::Url::parse, which accepts absolute URLs only, and on the `String` form of
/// the parsed URL.
#[verifier::external_body]
fn parse_url(s: &str) -> (r: Option<String>)
    ensures
        match r {
            Some(u) => url_serialization(s@) == Some(u@),
            None => url_serialization(s@) is None,
        },
{
    match url::Url::parse(s) {
        Ok(u) => Some(u.into()),
        Err(_) => None,
    }
}

/// The fields of the ticket creation form.
#[derive(Clone, Copy, Debug, PartialEq, Eq, Structural)]
pub enum FormField {
    Title,
    Description,
    Course,
    Page,
    Line,
    Url,
    Question,
    Answer,
    Hour,
    Minute,
    Second,
}

/// Why a form was refused.
#[derive(Clone, Copy, Debug, PartialEq, Eq, Structural)]
pub enum FormError {
    /// A field that the ticket type needs was not sent.
    Missing(FormField),
    /// A field holds a value outside its range.
    Invalid(FormField),
}

/// The submitted ticket creation form. It carries the fields of every medium kind; the ticket
/// type decides which of them are read.
pub struct NewTicketForm {
    pub ty: TicketType,
    pub category: Category,
    pub title: String,
    pub description: String,
    pub course: Id,
    pub page: Option<u16>,
    pub line: Option<u16>,
    pub url: Option<String>,
    pub question: Option<u16>,
    pub answer: Option<String>,
    pub hour: Option<u8>,
    pub minute: Option<u8>,
    pub second: Option<u8>,
}

/// A positive number that the ticket type needs.
pub open spec fn positive_field(v: Option<u16>, field: FormField) -> Result<u16, FormError> {
    match v {
        None => Err(FormError::Missing(field)),
        Some(n) => if n == 0 {
            Err(FormError::Invalid(field))
        } else {
            Ok(n)
        },
    }
}

/// A number below `bound` that the ticket type needs.
pub open spec fn bounded_field(v: Option<u8>, bound: u8, field: FormField) -> Result<u8, FormError> {
    match v {
        None => Err(FormError::Missing(field)),
        Some(n) => if n >= bound {
            Err(FormError::Invalid(field))
        } else {
            Ok(n)
        },
    }
}

/// The medium that the form describes for its ticket type, or the first field that fails.
pub open spec fn form_medium(f: NewTicketForm) -> Result<NewMedium, FormError> {
    match f.ty.medium_kind() {
        MediumType::Text => match positive_field(f.page, FormField::Page) {
            Err(e) => Err(e),
            Ok(page) => match positive_field(f.line, FormField::Line) {
                Err(e) => Err(e),
                Ok(line) => Ok(NewMedium::Text { page, line }),
            },
        },
        MediumType::Interactive => match f.url {
            None => Err(FormError::Missing(FormField::Url)),
            Some(u) => match url_serialization(u@) {
                None => Err(FormError::Invalid(FormField::Url)),
                Some(s) => Ok(NewMedium::Interactive { url: choose|url: String| url@ == s }),
            },
        },
        MediumType::Questionaire => match positive_field(f.question, FormField::Question) {
            Err(e) => Err(e),
            Ok(question) => match f.answer {
                None => Err(FormError::Missing(FormField::Answer)),
                Some(answer) => if answer@.len() == 0 {
                    Err(FormError::Invalid(FormField::Answer))
                } else {
                    Ok(NewMedium::Questionaire { question, answer })
                },
            },
        },
        MediumType::Recording => match bounded_field(f.hour, 24, FormField::Hour) {
            Err(e) => Err(e),
            Ok(hour) => match bounded_field(f.minute, 60, FormField::Minute) {
                Err(e) => Err(e),
                Ok(minute) => match bounded_field(f.second, 60, FormField::Second) {
                    Err(e) => Err(e),
                    Ok(second) => Ok(
                        NewMedium::Recording { time: TimeOfDay { hour, minute, second } },
                    ),
                },
            },
        },
    }
}

/// The first failing check of the fields that every ticket needs.
pub open spec fn common_error(f: NewTicketForm) -> Option<FormError> {
    if f.title@.len() == 0 {
        Some(FormError::Invalid(FormField::Title))
    } else if f.description@.len() == 0 {
        Some(FormError::Invalid(FormField::Description))
    } else if f.course < 1 {
        Some(FormError::Invalid(FormField::Course))
    } else {
        None
    }
}

/// Two media agree, where URLs are compared by their text.
pub open spec fn same_medium(a: NewMedium, b: NewMedium) -> bool {
    match (a, b) {
        (NewMedium::Interactive { url: x }, NewMedium::Interactive { url: y }) => x@ == y@,
        _ => a == b,
    }
}

fn positive(v: Option<u16>, field: FormField) -> (r: Result<u16, FormError>)
    ensures
        r == positive_field(v, field),
{
    match v {
        None => Err(FormError::Missing(field)),
        Some(n) => if n == 0 {
            Err(FormError::Invalid(field))
        } else {
            Ok(n)
        },
    }
}

fn bounded(v: Option<u8>, bound: u8, field: FormField) -> (r: Result<u8, FormError>)
    ensures
        r == bounded_field(v, bound, field),
{
    match v {
        None => Err(FormError::Missing(field)),
        Some(n) => if n >= bound {
            Err(FormError::Invalid(field))
        } else {
            Ok(n)
        },
    }
}

impl NewTicketForm {
    /// Check the form and split it into the new ticket, created by `creator_id`, and its
    /// medium. Title, description and, for questionaires, the answer must not be empty; the
    /// course, page, line and question must be positive; hours lie below 24, minutes and
    /// seconds below 60; a URL must parse as an absolute URL and is kept in its normal form.
    pub fn into_parts(self, creator_id: Id) -> (r: Result<(NewTicket, NewMedium), FormError>)
        ensures
            common_error(self) is Some ==> r == Err::<(NewTicket, NewMedium), FormError>(
                common_error(self)->Some_0,
            ),
            common_error(self) is None && form_medium(self) is Err ==> r == Err::<
                (NewTicket, NewMedium),
                FormError,
            >(form_medium(self)->Err_0),
            r is Ok <==> common_error(self) is None && form_medium(self) is Ok,
            r is Ok ==> r->Ok_0.0 == (NewTicket {
                type_: self.ty,
                title: self.title,
                description: self.description,
                category: self.category,
                course_id: self.course,
                creator_id,
            }) && same_medium(r->Ok_0.1, form_medium(self)->Ok_0)
                && r->Ok_0.1.kind() == self.ty.medium_kind(),
    {
        if self.title.as_str().unicode_len() == 0 {
            return Err(FormError::Invalid(FormField::Title));
        }
        if self.description.as_str().unicode_len() == 0 {
            return Err(FormError::Invalid(FormField::Description));
        }
        if self.course < 1 {
            return Err(FormError::Invalid(FormField::Course));
        }
        let medium = match self.ty.medium() {
            MediumType::Text => {
                let page = match positive(self.page, FormField::Page) {
                    Ok(v) => v,
                    Err(e) => return Err(e),
                };
                let line = match positive(self.line, FormField::Line) {
                    Ok(v) => v,
                    Err(e) => return Err(e),
                };
                NewMedium::Text { page, line }
            },
            MediumType::Interactive => match &self.url {
                None => return Err(FormError::Missing(FormField::Url)),
                Some(u) => match parse_url(u.as_str()) {
                    None => return Err(FormError::Invalid(FormField::Url)),
                    Some(url) => NewMedium::Interactive { url },
                },
            },
            MediumType::Questionaire => {
                let question = match positive(self.question, FormField::Question) {
                    Ok(v) => v,
                    Err(e) => return Err(e),
                };
                match &self.answer {
                    None => return Err(FormError::Missing(FormField::Answer)),
                    Some(answer) => {
                        if answer.as_str().unicode_len() == 0 {
                            return Err(FormError::Invalid(FormField::Answer));
                        }
                        NewMedium::Questionaire { question, answer: answer.clone() }
                    },
                }
            },
            MediumType::Recording => {
                let hour = match bounded(self.hour, 24, FormField::Hour) {
                    Ok(v) => v,
                    Err(e) => return Err(e),
                };
                let minute = match bounded(self.minute, 60, FormField::Minute) {
                    Ok(v) => v,
                    Err(e) => return Err(e),
                };
                let second = match bounded(self.second, 60, FormField::Second) {
                    Ok(v) => v,
                    Err(e) => return Err(e),
                };
                NewMedium::Recording { time: TimeOfDay { hour, minute, second } }
            },
        };
        Ok(
            (
                NewTicket {
                    type_: self.ty,
                    title: self.title,
                    description: self.description,
                    category: self.category,
                    course_id: self.course,
                    creator_id,
                },
                medium,
            ),
        )
    }
}

} // verus!
