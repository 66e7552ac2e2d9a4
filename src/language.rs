//! German display names of the enumerations.

use vstd::prelude::*;

use crate::models::{Category, Priority, Role, Status, TicketType};

verus! {

/// The display text of a value in another language.
pub trait Translate {
    /// The German display text.
    fn german(&self) -> &'static str;
}

impl Role {
    pub open spec fn german_text(self) -> Seq<char> {
        match self {
            Role::Admin => "Administrator"@,
            Role::Author => "Autor"@,
            Role::Tutor => "Tutor"@,
            Role::Student => "Student"@,
        }
    }

    pub fn german_name(self) -> (r: &'static str)
        ensures
            r@ == self.german_text(),
    {
        match self {
            Role::Admin => "Administrator",
            Role::Author => "Autor",
            Role::Tutor => "Tutor",
            Role::Student => "Student",
        }
    }
}

impl TicketType {
    pub open spec fn german_text(self) -> Seq<char> {
        match self {
            TicketType::CourseBook => "Skript"@,
            TicketType::ReadingList => "Literaturliste"@,
            TicketType::InteractiveBook => "Interactive Book"@,
            TicketType::PracticeExam => "Musterklausur"@,
            TicketType::PracticeExamSolution => "Musterl\u{00f6}sung"@,
            TicketType::Vodcast => "Vodcast"@,
            TicketType::Podcast => "Podcast"@,
            TicketType::Presentation => "Pr\u{00e4}sentation"@,
            TicketType::LiveTutorialRecording => "Live Tutorium Aufzeichnung"@,
            TicketType::OnlineTest => "Online Test"@,
        }
    }

    pub fn german_name(self) -> (r: &'static str)
        ensures
            r@ == self.german_text(),
    {
        match self {
            TicketType::CourseBook => "Skript",
            TicketType::ReadingList => "Literaturliste",
            TicketType::InteractiveBook => "Interactive Book",
            TicketType::PracticeExam => "Musterklausur",
            TicketType::PracticeExamSolution => "Musterl\u{00f6}sung",
            TicketType::Vodcast => "Vodcast",
            TicketType::Podcast => "Podcast",
            TicketType::Presentation => "Pr\u{00e4}sentation",
            TicketType::LiveTutorialRecording => "Live Tutorium Aufzeichnung",
            TicketType::OnlineTest => "Online Test",
        }
    }
}

impl Category {
    pub open spec fn german_text(self) -> Seq<char> {
        match self {
            Category::Editorial => "Redaktioneller Fehler"@,
            Category::Content => "Inhaltlicher Fehler"@,
            Category::Improvement => "Verbesserungsvorschlag"@,
            Category::Addition => "Erg\u{00e4}nzungsvorschlag"@,
        }
    }

    pub fn german_name(self) -> (r: &'static str)
        ensures
            r@ == self.german_text(),
    {
        match self {
            Category::Editorial => "Redaktioneller Fehler",
            Category::Content => "Inhaltlicher Fehler",
            Category::Improvement => "Verbesserungsvorschlag",
            Category::Addition => "Erg\u{00e4}nzungsvorschlag",
        }
    }
}

impl Priority {
    pub open spec fn german_text(self) -> Seq<char> {
        match self {
            Priority::Critical => "Kritisch"@,
            Priority::High => "Hoch"@,
            Priority::Medium => "Mittel"@,
            Priority::Low => "Niedrig"@,
        }
    }

    pub fn german_name(self) -> (r: &'static str)
        ensures
            r@ == self.german_text(),
    {
        match self {
            Priority::Critical => "Kritisch",
            Priority::High => "Hoch",
            Priority::Medium => "Mittel",
            Priority::Low => "Niedrig",
        }
    }
}

impl Status {
    pub open spec fn german_text(self) -> Seq<char> {
        match self {
            Status::Open => "Offen"@,
            Status::InProgress => "In Bearbeitung"@,
            Status::Accepted => "Aktzeptiert"@,
            Status::Refused => "Abgelehnt"@,
            Status::Completed => "Abgeschlossen"@,
        }
    }

    pub fn german_name(self) -> (r: &'static str)
        ensures
            r@ == self.german_text(),
    {
        match self {
            Status::Open => "Offen",
            Status::InProgress => "In Bearbeitung",
            Status::Accepted => "Aktzeptiert",
            Status::Refused => "Abgelehnt",
            Status::Completed => "Abgeschlossen",
        }
    }
}

impl Translate for Role {
    fn german(&self) -> &'static str {
        self.german_name()
    }
}

impl Translate for TicketType {
    fn german(&self) -> &'static str {
        self.german_name()
    }
}

impl Translate for Category {
    fn german(&self) -> &'static str {
        self.german_name()
    }
}

impl Translate for Priority {
    fn german(&self) -> &'static str {
        self.german_name()
    }
}

impl Translate for Status {
    fn german(&self) -> &'static str {
        self.german_name()
    }
}

} // verus!
