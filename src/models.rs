//! The base models of the system that the services work on.

use vstd::prelude::*;

verus! {

/// The identifier type for all models.
pub type Id = i32;

/// Different roles that a user can have. Lower rank means more privilege.
#[derive(Clone, Copy, Debug, PartialEq, Eq, Structural, PartialOrd, Ord, Hash)]
pub enum Role {
    Admin,
    Author,
    Tutor,
    Student,
}

impl Role {
    /// The position of the role in the hierarchy `Admin < Author < Tutor < Student`.
    pub open spec fn rank(self) -> int {
        match self {
            Role::Admin => 0,
            Role::Author => 1,
            Role::Tutor => 2,
            Role::Student => 3,
        }
    }

    /// Executable form of [`Role::rank`].
    pub fn ordinal(self) -> (r: u8)
        ensures
            r as int == self.rank(),
    {
        match self {
            Role::Admin => 0,
            Role::Author => 1,
            Role::Tutor => 2,
            Role::Student => 3,
        }
    }
}

/// The kind of medium that is attached to a ticket, decided by its [`TicketType`].
#[derive(Clone, Copy, Debug, PartialEq, Eq, Structural)]
pub enum MediumType {
    Text,
    Recording,
    Interactive,
    Questionaire,
}

/// Different types of tickets. The type decides what kind of medium is attached to a ticket.
#[derive(Clone, Copy, Debug, PartialEq, Eq, Structural, PartialOrd, Ord, Hash)]
pub enum TicketType {
    CourseBook,
    ReadingList,
    InteractiveBook,
    PracticeExam,
    PracticeExamSolution,
    Vodcast,
    Podcast,
    Presentation,
    LiveTutorialRecording,
    OnlineTest,
}

impl TicketType {
    /// The medium kind that belongs to each ticket type.
    pub open spec fn medium_kind(self) -> MediumType {
        match self {
            TicketType::CourseBook | TicketType::ReadingList | TicketType::Presentation => {
                MediumType::Text
            },
            TicketType::Vodcast | TicketType::Podcast | TicketType::LiveTutorialRecording => {
                MediumType::Recording
            },
            TicketType::InteractiveBook => MediumType::Interactive,
            TicketType::PracticeExam
            | TicketType::PracticeExamSolution
            | TicketType::OnlineTest => MediumType::Questionaire,
        }
    }

    pub fn medium(self) -> (r: MediumType)
        ensures
            r == self.medium_kind(),
    {
        match self {
            TicketType::CourseBook | TicketType::ReadingList | TicketType::Presentation => {
                MediumType::Text
            },
            TicketType::Vodcast | TicketType::Podcast | TicketType::LiveTutorialRecording => {
                MediumType::Recording
            },
            TicketType::InteractiveBook => MediumType::Interactive,
            TicketType::PracticeExam
            | TicketType::PracticeExamSolution
            | TicketType::OnlineTest => MediumType::Questionaire,
        }
    }
}

/// The category groups tickets into specific topics.
#[derive(Clone, Copy, Debug, PartialEq, Eq, Structural, PartialOrd, Ord, Hash)]
pub enum Category {
    Editorial,
    Content,
    Improvement,
    Addition,
}

/// Different priorities of a ticket.
#[derive(Clone, Copy, Debug, PartialEq, Eq, Structural, PartialOrd, Ord, Hash)]
pub enum Priority {
    Critical,
    High,
    Medium,
    Low,
}

impl Category {
    /// The priority that a new ticket of this category receives.
    pub open spec fn priority_of(self) -> Priority {
        match self {
            Category::Editorial => Priority::Medium,
            Category::Content => Priority::High,
            Category::Improvement | Category::Addition => Priority::Low,
        }
    }
}

/// Decide the priority of a ticket based on its category.
pub fn map_priority(category: Category) -> (r: Priority)
    ensures
        r == category.priority_of(),
{
    match category {
        Category::Editorial => Priority::Medium,
        Category::Content => Priority::High,
        Category::Improvement | Category::Addition => Priority::Low,
    }
}

/// The current status of a ticket.
///
/// A new ticket starts `Open`. Its assignee moves it to `InProgress`, an assessment makes it
/// `Accepted` or `Refused`, and an accepted ticket becomes `Completed` once the medium was
/// updated. `Refused` and `Completed` are final.
#[derive(Clone, Copy, Debug, PartialEq, Eq, Structural, PartialOrd, Ord, Hash)]
pub enum Status {
    Open,
    InProgress,
    Accepted,
    Refused,
    Completed,
}

impl Status {
    /// The transition table of the ticket state machine.
    pub open spec fn allows(self, target: Status) -> bool {
        match (self, target) {
            (Status::Open, Status::InProgress) => true,
            (Status::InProgress, Status::Accepted) => true,
            (Status::InProgress, Status::Refused) => true,
            (Status::Accepted, Status::Completed) => true,
            _ => false,
        }
    }

    /// A status without any outgoing transition.
    pub open spec fn is_terminal(self) -> bool {
        self == Status::Refused || self == Status::Completed
    }

    /// Check whether a ticket in this status may move to `target`.
    pub fn can_change(self, target: Status) -> (r: bool)
        ensures
            r == self.allows(target),
    {
        match (self, target) {
            (Status::Open, Status::InProgress) => true,
            (Status::InProgress, Status::Accepted) => true,
            (Status::InProgress, Status::Refused) => true,
            (Status::Accepted, Status::Completed) => true,
            _ => false,
        }
    }
}


/// A time of day without a date, as attached to recorded media.
#[derive(Clone, Copy, Debug, PartialEq, Eq, Structural)]
pub struct TimeOfDay {
    pub hour: u8,
    pub minute: u8,
    pub second: u8,
}

impl TimeOfDay {
    /// The fields name an existing time of day.
    pub open spec fn wf(self) -> bool {
        self.hour < 24 && self.minute < 60 && self.second < 60
    }

    /// Build a time of day, rejecting hours from 24 and minutes or seconds from 60.
    pub fn new(hour: u8, minute: u8, second: u8) -> (r: Option<TimeOfDay>)
        ensures
            r is Some <==> (hour < 24 && minute < 60 && second < 60),
            r is Some ==> r->Some_0 == (TimeOfDay { hour, minute, second }),
    {
        if hour < 24 && minute < 60 && second < 60 {
            Some(TimeOfDay { hour, minute, second })
        } else {
            None
        }
    }
}

/// A full user with all available details.
pub struct User {
    pub id: Id,
    pub username: String,
    pub password: String,
    pub name: String,
    pub role: Role,
    pub active: bool,
    pub code: String,
}

impl Clone for User {
    fn clone(&self) -> (r: Self)
        ensures
            r == *self,
    {
        User {
            id: self.id,
            username: self.username.clone(),
            password: self.password.clone(),
            name: self.name.clone(),
            role: self.role,
            active: self.active,
            code: self.code.clone(),
        }
    }
}

impl User {
    /// The very first administrator of the system.
    pub open spec fn spec_is_admin(&self) -> bool {
        self.id == 1 && self.role == Role::Admin
    }

    /// Check whether this user is the very first administrator.
    pub fn is_admin(&self) -> (r: bool)
        ensures
            r == self.spec_is_admin(),
    {
        self.id == 1 && self.role == Role::Admin
    }
}

/// A basic new user that is not part of the system yet.
pub struct NewUser {
    pub username: String,
    pub name: String,
    pub role: Role,
    pub code: String,
}

/// An existing user to be updated.
pub struct EditUser {
    pub id: Id,
    pub name: String,
    pub role: Role,
}

/// A full course with all available details.
pub struct Course {
    pub id: Id,
    pub code: String,
    pub title: String,
    pub author_id: Id,
    pub tutor_id: Id,
    pub active: bool,
}

impl Clone for Course {
    fn clone(&self) -> (r: Self)
        ensures
            r == *self,
    {
        Course {
            id: self.id,
            code: self.code.clone(),
            title: self.title.clone(),
            author_id: self.author_id,
            tutor_id: self.tutor_id,
            active: self.active,
        }
    }
}

/// A new course to be added to the system.
pub struct NewCourse {
    pub code: String,
    pub title: String,
    pub author_id: Id,
    pub tutor_id: Id,
}

/// An existing course to be updated.
pub struct EditCourse {
    pub id: Id,
    pub title: String,
    pub author_id: Id,
    pub tutor_id: Id,
}

/// A course with its author and tutor names included.
pub struct CourseWithNames {
    pub course: Course,
    pub author_name: String,
    pub tutor_name: String,
}

/// A full ticket with all available details.
pub struct Ticket {
    pub id: Id,
    pub type_: TicketType,
    pub title: String,
    pub description: String,
    pub category: Category,
    pub priority: Priority,
    pub status: Status,
    pub course_id: Id,
    pub creator_id: Id,
    /// Whether the ticket was handed from the course's tutor to its author.
    pub forwarded: bool,
}

impl Clone for Ticket {
    fn clone(&self) -> (r: Self)
        ensures
            r == *self,
    {
        Ticket {
            id: self.id,
            type_: self.type_,
            title: self.title.clone(),
            description: self.description.clone(),
            category: self.category,
            priority: self.priority,
            status: self.status,
            course_id: self.course_id,
            creator_id: self.creator_id,
            forwarded: self.forwarded,
        }
    }
}

/// A ticket with its course, creator and current editor names included.
pub struct TicketWithNames {
    pub ticket: Ticket,
    pub course_name: String,
    pub creator_name: String,
    pub editor_name: String,
}

/// A medium locates the content that a ticket is about. Its shape follows the [`TicketType`].
pub enum Medium {
    /// A location in text based content (course books, reading lists, presentations).
    Text { ticket_id: Id, page: u16, line: u16 },
    /// A location in recorded content (vodcasts, podcasts, tutorial recordings).
    Recording { ticket_id: Id, time: TimeOfDay },
    /// A location in interactive content like websites.
    Interactive { ticket_id: Id, url: String },
    /// A location in question-answer structured content like tests.
    Questionaire { ticket_id: Id, question: u16, answer: String },
}

impl Clone for Medium {
    fn clone(&self) -> (r: Self)
        ensures
            r == *self,
    {
        match self {
            Medium::Text { ticket_id, page, line } => Medium::Text {
                ticket_id: *ticket_id,
                page: *page,
                line: *line,
            },
            Medium::Recording { ticket_id, time } => Medium::Recording {
                ticket_id: *ticket_id,
                time: *time,
            },
            Medium::Interactive { ticket_id, url } => Medium::Interactive {
                ticket_id: *ticket_id,
                url: url.clone(),
            },
            Medium::Questionaire { ticket_id, question, answer } => Medium::Questionaire {
                ticket_id: *ticket_id,
                question: *question,
                answer: answer.clone(),
            },
        }
    }
}

impl Medium {
    pub open spec fn ticket_id(self) -> Id {
        match self {
            Medium::Text { ticket_id, .. } => ticket_id,
            Medium::Recording { ticket_id, .. } => ticket_id,
            Medium::Interactive { ticket_id, .. } => ticket_id,
            Medium::Questionaire { ticket_id, .. } => ticket_id,
        }
    }

    pub open spec fn kind(self) -> MediumType {
        match self {
            Medium::Text { .. } => MediumType::Text,
            Medium::Recording { .. } => MediumType::Recording,
            Medium::Interactive { .. } => MediumType::Interactive,
            Medium::Questionaire { .. } => MediumType::Questionaire,
        }
    }
}

/// A new medium that belongs to a ticket that is to be added to the system.
pub enum NewMedium {
    Text { page: u16, line: u16 },
    Recording { time: TimeOfDay },
    Interactive { url: String },
    Questionaire { question: u16, answer: String },
}

impl NewMedium {
    pub open spec fn kind(self) -> MediumType {
        match self {
            NewMedium::Text { .. } => MediumType::Text,
            NewMedium::Recording { .. } => MediumType::Recording,
            NewMedium::Interactive { .. } => MediumType::Interactive,
            NewMedium::Questionaire { .. } => MediumType::Questionaire,
        }
    }

    /// The stored medium of the ticket `ticket_id`.
    pub open spec fn attached(self, ticket_id: Id) -> Medium {
        match self {
            NewMedium::Text { page, line } => Medium::Text { ticket_id, page, line },
            NewMedium::Recording { time } => Medium::Recording { ticket_id, time },
            NewMedium::Interactive { url } => Medium::Interactive { ticket_id, url },
            NewMedium::Questionaire { question, answer } => Medium::Questionaire {
                ticket_id,
                question,
                answer,
            },
        }
    }

    /// Attach the medium to the ticket `ticket_id`.
    pub fn attach(self, ticket_id: Id) -> (r: Medium)
        ensures
            r == self.attached(ticket_id),
    {
        match self {
            NewMedium::Text { page, line } => Medium::Text { ticket_id, page, line },
            NewMedium::Recording { time } => Medium::Recording { ticket_id, time },
            NewMedium::Interactive { url } => Medium::Interactive { ticket_id, url },
            NewMedium::Questionaire { question, answer } => Medium::Questionaire {
                ticket_id,
                question,
                answer,
            },
        }
    }

    /// Executable form of [`NewMedium::kind`].
    pub fn medium_type(&self) -> (r: MediumType)
        ensures
            r == self.kind(),
    {
        match self {
            NewMedium::Text { .. } => MediumType::Text,
            NewMedium::Recording { .. } => MediumType::Recording,
            NewMedium::Interactive { .. } => MediumType::Interactive,
            NewMedium::Questionaire { .. } => MediumType::Questionaire,
        }
    }
}

/// A ticket with the same information as [`TicketWithNames`] plus its medium and comments.
pub struct TicketWithRels {
    pub ticket: Ticket,
    pub course_name: String,
    pub creator_name: String,
    pub editor_name: String,
    pub medium: Medium,
    pub comments: Vec<CommentWithNames>,
}

/// A new ticket to be added to the system.
pub struct NewTicket {
    pub type_: TicketType,
    pub title: String,
    pub description: String,
    pub category: Category,
    pub course_id: Id,
    pub creator_id: Id,
}

/// A full comment with all available details. The timestamp counts seconds since the Unix epoch.
pub struct Comment {
    pub id: Id,
    pub ticket_id: Id,
    pub creator_id: Id,
    pub timestamp: i64,
    pub message: String,
}

impl Clone for Comment {
    fn clone(&self) -> (r: Self)
        ensures
            r == *self,
    {
        Comment {
            id: self.id,
            ticket_id: self.ticket_id,
            creator_id: self.creator_id,
            timestamp: self.timestamp,
            message: self.message.clone(),
        }
    }
}

/// A comment with its creator name included.
pub struct CommentWithNames {
    pub comment: Comment,
    pub creator_name: String,
}

/// A new comment to be added to the system.
pub struct NewComment {
    pub ticket_id: Id,
    pub creator_id: Id,
    pub timestamp: i64,
    pub message: String,
}

/// A new priority for an existing ticket.
pub struct EditTicket {
    pub id: Id,
    pub priority: Priority,
}

/// Search criteria for tickets. Each present filter must hold; absent ones impose nothing.
pub struct TicketSearch {
    /// A part of the title.
    pub title: Option<String>,
    pub course_id: Option<Id>,
    pub category: Option<Category>,
    pub priority: Option<Priority>,
    pub status: Option<Status>,
}

impl Clone for TicketSearch {
    fn clone(&self) -> (r: Self)
        ensures
            r == *self,
    {
        TicketSearch {
            title: match &self.title {
                Some(t) => Some(t.clone()),
                None => None,
            },
            course_id: self.course_id,
            category: self.category,
            priority: self.priority,
            status: self.status,
        }
    }
}

} // verus!
