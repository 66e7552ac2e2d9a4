//! The canonical text of each enumeration value, as stored: lower case words joined by `-`.
//! Reading a text back gives the value again; unknown texts are refused.

use vstd::prelude::*;

use crate::models::{Category, Priority, Role, Status, TicketType};
use crate::text::same_text;

verus! {

impl Role {
    /// The canonical text of the value.
    pub open spec fn text(self) -> Seq<char> {
        match self {
            Role::Admin => "admin"@,
            Role::Author => "author"@,
            Role::Tutor => "tutor"@,
            Role::Student => "student"@,
        }
    }

    /// Executable form of [`Role::text`].
    pub fn as_text(self) -> (r: &'static str)
        ensures
            r@ == self.text(),
    {
        match self {
            Role::Admin => "admin",
            Role::Author => "author",
            Role::Tutor => "tutor",
            Role::Student => "student",
        }
    }

    /// Read a canonical text back; `None` for any other text.
    pub fn from_text(s: &str) -> (r: Option<Role>)
        ensures
            r == role_from_text(s@),
    {
        if same_text(s, "admin") {
            Some(Role::Admin)
        } else if same_text(s, "author") {
            Some(Role::Author)
        } else if same_text(s, "tutor") {
            Some(Role::Tutor)
        } else if same_text(s, "student") {
            Some(Role::Student)
        } else {
            None
        }
    }
}

/// The value whose canonical text is `s`, if any.
pub open spec fn role_from_text(s: Seq<char>) -> Option<Role> {
    if s == "admin"@ {
        Some(Role::Admin)
    } else if s == "author"@ {
        Some(Role::Author)
    } else if s == "tutor"@ {
        Some(Role::Tutor)
    } else if s == "student"@ {
        Some(Role::Student)
    } else {
        None
    }
}

/// Reading the text of a value gives the value back.
pub proof fn lemma_role_text_round_trip(x: Role)
    ensures
        role_from_text(x.text()) == Some(x),
{
    match x {
        Role::Admin => {
            reveal_strlit("admin");
        },
        Role::Author => {
            reveal_strlit("author");
            reveal_strlit("admin");
            assert("author"@.len() != "admin"@.len());
        },
        Role::Tutor => {
            reveal_strlit("tutor");
            reveal_strlit("admin");
            assert("tutor"@[0] != "admin"@[0]);
            reveal_strlit("author");
            assert("tutor"@.len() != "author"@.len());
        },
        Role::Student => {
            reveal_strlit("student");
            reveal_strlit("admin");
            assert("student"@.len() != "admin"@.len());
            reveal_strlit("author");
            assert("student"@.len() != "author"@.len());
            reveal_strlit("tutor");
            assert("student"@.len() != "tutor"@.len());
        },
    }
}

impl TicketType {
    /// The canonical text of the value.
    pub open spec fn text(self) -> Seq<char> {
        match self {
            TicketType::CourseBook => "course-book"@,
            TicketType::ReadingList => "reading-list"@,
            TicketType::InteractiveBook => "interactive-book"@,
            TicketType::PracticeExam => "practice-exam"@,
            TicketType::PracticeExamSolution => "practice-exam-solution"@,
            TicketType::Vodcast => "vodcast"@,
            TicketType::Podcast => "podcast"@,
            TicketType::Presentation => "presentation"@,
            TicketType::LiveTutorialRecording => "live-tutorial-recording"@,
            TicketType::OnlineTest => "online-test"@,
        }
    }

    /// Executable form of [`TicketType::text`].
    pub fn as_text(self) -> (r: &'static str)
        ensures
            r@ == self.text(),
    {
        match self {
            TicketType::CourseBook => "course-book",
            TicketType::ReadingList => "reading-list",
            TicketType::InteractiveBook => "interactive-book",
            TicketType::PracticeExam => "practice-exam",
            TicketType::PracticeExamSolution => "practice-exam-solution",
            TicketType::Vodcast => "vodcast",
            TicketType::Podcast => "podcast",
            TicketType::Presentation => "presentation",
            TicketType::LiveTutorialRecording => "live-tutorial-recording",
            TicketType::OnlineTest => "online-test",
        }
    }

    /// Read a canonical text back; `None` for any other text.
    pub fn from_text(s: &str) -> (r: Option<TicketType>)
        ensures
            r == ticket_type_from_text(s@),
    {
        if same_text(s, "course-book") {
            Some(TicketType::CourseBook)
        } else if same_text(s, "reading-list") {
            Some(TicketType::ReadingList)
        } else if same_text(s, "interactive-book") {
            Some(TicketType::InteractiveBook)
        } else if same_text(s, "practice-exam") {
            Some(TicketType::PracticeExam)
        } else if same_text(s, "practice-exam-solution") {
            Some(TicketType::PracticeExamSolution)
        } else if same_text(s, "vodcast") {
            Some(TicketType::Vodcast)
        } else if same_text(s, "podcast") {
            Some(TicketType::Podcast)
        } else if same_text(s, "presentation") {
            Some(TicketType::Presentation)
        } else if same_text(s, "live-tutorial-recording") {
            Some(TicketType::LiveTutorialRecording)
        } else if same_text(s, "online-test") {
            Some(TicketType::OnlineTest)
        } else {
            None
        }
    }
}

/// The value whose canonical text is `s`, if any.
pub open spec fn ticket_type_from_text(s: Seq<char>) -> Option<TicketType> {
    if s == "course-book"@ {
        Some(TicketType::CourseBook)
    } else if s == "reading-list"@ {
        Some(TicketType::ReadingList)
    } else if s == "interactive-book"@ {
        Some(TicketType::InteractiveBook)
    } else if s == "practice-exam"@ {
        Some(TicketType::PracticeExam)
    } else if s == "practice-exam-solution"@ {
        Some(TicketType::PracticeExamSolution)
    } else if s == "vodcast"@ {
        Some(TicketType::Vodcast)
    } else if s == "podcast"@ {
        Some(TicketType::Podcast)
    } else if s == "presentation"@ {
        Some(TicketType::Presentation)
    } else if s == "live-tutorial-recording"@ {
        Some(TicketType::LiveTutorialRecording)
    } else if s == "online-test"@ {
        Some(TicketType::OnlineTest)
    } else {
        None
    }
}

/// Reading the text of a value gives the value back.
pub proof fn lemma_ticket_type_text_round_trip(x: TicketType)
    ensures
        ticket_type_from_text(x.text()) == Some(x),
{
    match x {
        TicketType::CourseBook => {
            reveal_strlit("course-book");
        },
        TicketType::ReadingList => {
            reveal_strlit("reading-list");
            reveal_strlit("course-book");
            assert("reading-list"@.len() != "course-book"@.len());
        },
        TicketType::InteractiveBook => {
            reveal_strlit("interactive-book");
            reveal_strlit("course-book");
            assert("interactive-book"@.len() != "course-book"@.len());
            reveal_strlit("reading-list");
            assert("interactive-book"@.len() != "reading-list"@.len());
        },
        TicketType::PracticeExam => {
            reveal_strlit("practice-exam");
            reveal_strlit("course-book");
            assert("practice-exam"@.len() != "course-book"@.len());
            reveal_strlit("reading-list");
            assert("practice-exam"@.len() != "reading-list"@.len());
            reveal_strlit("interactive-book");
            assert("practice-exam"@.len() != "interactive-book"@.len());
        },
        TicketType::PracticeExamSolution => {
            reveal_strlit("practice-exam-solution");
            reveal_strlit("course-book");
            assert("practice-exam-solution"@.len() != "course-book"@.len());
            reveal_strlit("reading-list");
            assert("practice-exam-solution"@.len() != "reading-list"@.len());
            reveal_strlit("interactive-book");
            assert("practice-exam-solution"@.len() != "interactive-book"@.len());
            reveal_strlit("practice-exam");
            assert("practice-exam-solution"@.len() != "practice-exam"@.len());
        },
        TicketType::Vodcast => {
            reveal_strlit("vodcast");
            reveal_strlit("course-book");
            assert("vodcast"@.len() != "course-book"@.len());
            reveal_strlit("reading-list");
            assert("vodcast"@.len() != "reading-list"@.len());
            reveal_strlit("interactive-book");
            assert("vodcast"@.len() != "interactive-book"@.len());
            reveal_strlit("practice-exam");
            assert("vodcast"@.len() != "practice-exam"@.len());
            reveal_strlit("practice-exam-solution");
            assert("vodcast"@.len() != "practice-exam-solution"@.len());
        },
        TicketType::Podcast => {
            reveal_strlit("podcast");
            reveal_strlit("course-book");
            assert("podcast"@.len() != "course-book"@.len());
            reveal_strlit("reading-list");
            assert("podcast"@.len() != "reading-list"@.len());
            reveal_strlit("interactive-book");
            assert("podcast"@.len() != "interactive-book"@.len());
            reveal_strlit("practice-exam");
            assert("podcast"@.len() != "practice-exam"@.len());
            reveal_strlit("practice-exam-solution");
            assert("podcast"@.len() != "practice-exam-solution"@.len());
            reveal_strlit("vodcast");
            assert("podcast"@[0] != "vodcast"@[0]);
        },
        TicketType::Presentation => {
            reveal_strlit("presentation");
            reveal_strlit("course-book");
            assert("presentation"@.len() != "course-book"@.len());
            reveal_strlit("reading-list");
            assert("presentation"@[0] != "reading-list"@[0]);
            reveal_strlit("interactive-book");
            assert("presentation"@.len() != "interactive-book"@.len());
            reveal_strlit("practice-exam");
            assert("presentation"@.len() != "practice-exam"@.len());
            reveal_strlit("practice-exam-solution");
            assert("presentation"@.len() != "practice-exam-solution"@.len());
            reveal_strlit("vodcast");
            assert("presentation"@.len() != "vodcast"@.len());
            reveal_strlit("podcast");
            assert("presentation"@.len() != "podcast"@.len());
        },
        TicketType::LiveTutorialRecording => {
            reveal_strlit("live-tutorial-recording");
            reveal_strlit("course-book");
            assert("live-tutorial-recording"@.len() != "course-book"@.len());
            reveal_strlit("reading-list");
            assert("live-tutorial-recording"@.len() != "reading-list"@.len());
            reveal_strlit("interactive-book");
            assert("live-tutorial-recording"@.len() != "interactive-book"@.len());
            reveal_strlit("practice-exam");
            assert("live-tutorial-recording"@.len() != "practice-exam"@.len());
            reveal_strlit("practice-exam-solution");
            assert("live-tutorial-recording"@.len() != "practice-exam-solution"@.len());
            reveal_strlit("vodcast");
            assert("live-tutorial-recording"@.len() != "vodcast"@.len());
            reveal_strlit("podcast");
            assert("live-tutorial-recording"@.len() != "podcast"@.len());
            reveal_strlit("presentation");
            assert("live-tutorial-recording"@.len() != "presentation"@.len());
        },
        TicketType::OnlineTest => {
            reveal_strlit("online-test");
            reveal_strlit("course-book");
            assert("online-test"@[0] != "course-book"@[0]);
            reveal_strlit("reading-list");
            assert("online-test"@.len() != "reading-list"@.len());
            reveal_strlit("interactive-book");
            assert("online-test"@.len() != "interactive-book"@.len());
            reveal_strlit("practice-exam");
            assert("online-test"@.len() != "practice-exam"@.len());
            reveal_strlit("practice-exam-solution");
            assert("online-test"@.len() != "practice-exam-solution"@.len());
            reveal_strlit("vodcast");
            assert("online-test"@.len() != "vodcast"@.len());
            reveal_strlit("podcast");
            assert("online-test"@.len() != "podcast"@.len());
            reveal_strlit("presentation");
            assert("online-test"@.len() != "presentation"@.len());
            reveal_strlit("live-tutorial-recording");
            assert("online-test"@.len() != "live-tutorial-recording"@.len());
        },
    }
}

impl Category {
    /// The canonical text of the value.
    pub open spec fn text(self) -> Seq<char> {
        match self {
            Category::Editorial => "editorial"@,
            Category::Content => "content"@,
            Category::Improvement => "improvement"@,
            Category::Addition => "addition"@,
        }
    }

    /// Executable form of [`Category::text`].
    pub fn as_text(self) -> (r: &'static str)
        ensures
            r@ == self.text(),
    {
        match self {
            Category::Editorial => "editorial",
            Category::Content => "content",
            Category::Improvement => "improvement",
            Category::Addition => "addition",
        }
    }

    /// Read a canonical text back; `None` for any other text.
    pub fn from_text(s: &str) -> (r: Option<Category>)
        ensures
            r == category_from_text(s@),
    {
        if same_text(s, "editorial") {
            Some(Category::Editorial)
        } else if same_text(s, "content") {
            Some(Category::Content)
        } else if same_text(s, "improvement") {
            Some(Category::Improvement)
        } else if same_text(s, "addition") {
            Some(Category::Addition)
        } else {
            None
        }
    }
}

/// The value whose canonical text is `s`, if any.
pub open spec fn category_from_text(s: Seq<char>) -> Option<Category> {
    if s == "editorial"@ {
        Some(Category::Editorial)
    } else if s == "content"@ {
        Some(Category::Content)
    } else if s == "improvement"@ {
        Some(Category::Improvement)
    } else if s == "addition"@ {
        Some(Category::Addition)
    } else {
        None
    }
}

/// Reading the text of a value gives the value back.
pub proof fn lemma_category_text_round_trip(x: Category)
    ensures
        category_from_text(x.text()) == Some(x),
{
    match x {
        Category::Editorial => {
            reveal_strlit("editorial");
        },
        Category::Content => {
            reveal_strlit("content");
            reveal_strlit("editorial");
            assert("content"@.len() != "editorial"@.len());
        },
        Category::Improvement => {
            reveal_strlit("improvement");
            reveal_strlit("editorial");
            assert("improvement"@.len() != "editorial"@.len());
            reveal_strlit("content");
            assert("improvement"@.len() != "content"@.len());
        },
        Category::Addition => {
            reveal_strlit("addition");
            reveal_strlit("editorial");
            assert("addition"@.len() != "editorial"@.len());
            reveal_strlit("content");
            assert("addition"@.len() != "content"@.len());
            reveal_strlit("improvement");
            assert("addition"@.len() != "improvement"@.len());
        },
    }
}

impl Priority {
    /// The canonical text of the value.
    pub open spec fn text(self) -> Seq<char> {
        match self {
            Priority::Critical => "critical"@,
            Priority::High => "high"@,
            Priority::Medium => "medium"@,
            Priority::Low => "low"@,
        }
    }

    /// Executable form of [`Priority::text`].
    pub fn as_text(self) -> (r: &'static str)
        ensures
            r@ == self.text(),
    {
        match self {
            Priority::Critical => "critical",
            Priority::High => "high",
            Priority::Medium => "medium",
            Priority::Low => "low",
        }
    }

    /// Read a canonical text back; `None` for any other text.
    pub fn from_text(s: &str) -> (r: Option<Priority>)
        ensures
            r == priority_from_text(s@),
    {
        if same_text(s, "critical") {
            Some(Priority::Critical)
        } else if same_text(s, "high") {
            Some(Priority::High)
        } else if same_text(s, "medium") {
            Some(Priority::Medium)
        } else if same_text(s, "low") {
            Some(Priority::Low)
        } else {
            None
        }
    }
}

/// The value whose canonical text is `s`, if any.
pub open spec fn priority_from_text(s: Seq<char>) -> Option<Priority> {
    if s == "critical"@ {
        Some(Priority::Critical)
    } else if s == "high"@ {
        Some(Priority::High)
    } else if s == "medium"@ {
        Some(Priority::Medium)
    } else if s == "low"@ {
        Some(Priority::Low)
    } else {
        None
    }
}

/// Reading the text of a value gives the value back.
pub proof fn lemma_priority_text_round_trip(x: Priority)
    ensures
        priority_from_text(x.text()) == Some(x),
{
    match x {
        Priority::Critical => {
            reveal_strlit("critical");
        },
        Priority::High => {
            reveal_strlit("high");
            reveal_strlit("critical");
            assert("high"@.len() != "critical"@.len());
        },
        Priority::Medium => {
            reveal_strlit("medium");
            reveal_strlit("critical");
            assert("medium"@.len() != "critical"@.len());
            reveal_strlit("high");
            assert("medium"@.len() != "high"@.len());
        },
        Priority::Low => {
            reveal_strlit("low");
            reveal_strlit("critical");
            assert("low"@.len() != "critical"@.len());
            reveal_strlit("high");
            assert("low"@.len() != "high"@.len());
            reveal_strlit("medium");
            assert("low"@.len() != "medium"@.len());
        },
    }
}

impl Status {
    /// The canonical text of the value.
    pub open spec fn text(self) -> Seq<char> {
        match self {
            Status::Open => "open"@,
            Status::InProgress => "in-progress"@,
            Status::Accepted => "accepted"@,
            Status::Refused => "refused"@,
            Status::Completed => "completed"@,
        }
    }

    /// Executable form of [`Status::text`].
    pub fn as_text(self) -> (r: &'static str)
        ensures
            r@ == self.text(),
    {
        match self {
            Status::Open => "open",
            Status::InProgress => "in-progress",
            Status::Accepted => "accepted",
            Status::Refused => "refused",
            Status::Completed => "completed",
        }
    }

    /// Read a canonical text back; `None` for any other text.
    pub fn from_text(s: &str) -> (r: Option<Status>)
        ensures
            r == status_from_text(s@),
    {
        if same_text(s, "open") {
            Some(Status::Open)
        } else if same_text(s, "in-progress") {
            Some(Status::InProgress)
        } else if same_text(s, "accepted") {
            Some(Status::Accepted)
        } else if same_text(s, "refused") {
            Some(Status::Refused)
        } else if same_text(s, "completed") {
            Some(Status::Completed)
        } else {
            None
        }
    }
}

/// The value whose canonical text is `s`, if any.
pub open spec fn status_from_text(s: Seq<char>) -> Option<Status> {
    if s == "open"@ {
        Some(Status::Open)
    } else if s == "in-progress"@ {
        Some(Status::InProgress)
    } else if s == "accepted"@ {
        Some(Status::Accepted)
    } else if s == "refused"@ {
        Some(Status::Refused)
    } else if s == "completed"@ {
        Some(Status::Completed)
    } else {
        None
    }
}

/// Reading the text of a value gives the value back.
pub proof fn lemma_status_text_round_trip(x: Status)
    ensures
        status_from_text(x.text()) == Some(x),
{
    match x {
        Status::Open => {
            reveal_strlit("open");
        },
        Status::InProgress => {
            reveal_strlit("in-progress");
            reveal_strlit("open");
            assert("in-progress"@.len() != "open"@.len());
        },
        Status::Accepted => {
            reveal_strlit("accepted");
            reveal_strlit("open");
            assert("accepted"@.len() != "open"@.len());
            reveal_strlit("in-progress");
            assert("accepted"@.len() != "in-progress"@.len());
        },
        Status::Refused => {
            reveal_strlit("refused");
            reveal_strlit("open");
            assert("refused"@.len() != "open"@.len());
            reveal_strlit("in-progress");
            assert("refused"@.len() != "in-progress"@.len());
            reveal_strlit("accepted");
            assert("refused"@.len() != "accepted"@.len());
        },
        Status::Completed => {
            reveal_strlit("completed");
            reveal_strlit("open");
            assert("completed"@.len() != "open"@.len());
            reveal_strlit("in-progress");
            assert("completed"@.len() != "in-progress"@.len());
            reveal_strlit("accepted");
            assert("completed"@.len() != "accepted"@.len());
            reveal_strlit("refused");
            assert("completed"@.len() != "refused"@.len());
        },
    }
}

} // verus!
