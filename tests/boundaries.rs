use amelio::config::{load, Config, SmtpConfig};
use amelio::entities::{
    format_time, MediumQuestionaireEntity, MediumRecordingEntity, MediumTextEntity,
    NewTicketEntity, TicketEntity, UserEntity,
};
use amelio::error::WorkflowError;
use amelio::fairings::{Auth, Csp, Routing};
use amelio::language::Translate;
use amelio::models::{
    Category, Medium, NewTicket, Priority, Role, Status, TicketType, TimeOfDay, User,
};
use amelio::pages::{index, post_logout, Hour, Minute, NonEmptyString, ServerError};
use amelio::roles::{AuthUser, NoUser};
use amelio::text::contains_text;

#[test]
fn enum_texts_round_trip() {
    for s in [Status::Open, Status::InProgress, Status::Accepted, Status::Refused, Status::Completed]
    {
        assert_eq!(Status::from_text(s.as_text()), Some(s));
    }
    assert_eq!(Status::InProgress.as_text(), "in-progress");
    assert_eq!(TicketType::from_text("live-tutorial-recording"), Some(TicketType::LiveTutorialRecording));
    assert_eq!(TicketType::from_text("LiveTutorialRecording"), None);
    assert_eq!(Role::from_text("student"), Some(Role::Student));
    assert_eq!(Category::from_text("addition"), Some(Category::Addition));
    assert_eq!(Priority::from_text("urgent"), None);
}

#[test]
fn ticket_rows_are_checked_on_read() {
    let row = |status: &str| TicketEntity {
        id: 3,
        type_: "course-book".to_owned(),
        title: "T".to_owned(),
        description: "D".to_owned(),
        category: "content".to_owned(),
        priority: "high".to_owned(),
        status: status.to_owned(),
        course_id: 1,
        creator_id: 2,
        forwarded: true,
    };
    let t = row("accepted").into_ticket().unwrap();
    assert_eq!(t.status, Status::Accepted);
    assert_eq!(t.type_, TicketType::CourseBook);
    assert!(t.forwarded);
    assert!(matches!(row("done").into_ticket(), Err(WorkflowError::PersistenceFailure)));

    let new = NewTicketEntity::from_new(
        NewTicket {
            type_: TicketType::PracticeExamSolution,
            title: "T".to_owned(),
            description: "D".to_owned(),
            category: Category::Improvement,
            course_id: 1,
            creator_id: 2,
        },
        Priority::Low,
    );
    assert_eq!(new.type_, "practice-exam-solution");
    assert_eq!(new.priority, "low");
}

#[test]
fn user_rows_need_known_roles() {
    let row = |role: &str| UserEntity {
        id: 1,
        username: "u".to_owned(),
        password: String::new(),
        name: "n".to_owned(),
        role: role.to_owned(),
        active: true,
        code: String::new(),
    };
    assert_eq!(row("tutor").into_user().unwrap().role, Role::Tutor);
    assert!(matches!(row("king").into_user(), Err(WorkflowError::PersistenceFailure)));
}

#[test]
fn medium_rows_are_checked_on_read() {
    let text = MediumTextEntity::new(4, 120, 7).into_medium().unwrap();
    assert!(matches!(text, Medium::Text { ticket_id: 4, page: 120, line: 7 }));
    let bad = MediumTextEntity { ticket_id: 4, page: 70000, line: 1 };
    assert!(bad.into_medium().is_err());
    let q = MediumQuestionaireEntity { ticket_id: 1, question: -1, answer: "a".to_owned() };
    assert!(q.into_medium().is_err());

    let time = TimeOfDay::new(9, 5, 0).unwrap();
    assert_eq!(format_time(time), "09:05:00");
    let rec = MediumRecordingEntity::new(2, time);
    assert_eq!(rec.time, "09:05:00");
    let read = MediumRecordingEntity { ticket_id: 2, time: "12:34:56".to_owned() };
    match read.into_medium().unwrap() {
        Medium::Recording { ticket_id, time } => {
            assert_eq!(ticket_id, 2);
            assert_eq!((time.hour, time.minute, time.second), (12, 34, 56));
        }
        _ => panic!("not a recording"),
    }
    let garbled = MediumRecordingEntity { ticket_id: 2, time: "25:00:00".to_owned() };
    assert!(garbled.into_medium().is_err());
    assert!(TimeOfDay::new(24, 0, 0).is_none());
}

#[test]
fn german_names() {
    assert_eq!(Status::Accepted.german(), "Aktzeptiert");
    assert_eq!(Role::Author.german(), "Autor");
    assert_eq!(TicketType::PracticeExamSolution.german(), "Musterl\u{00f6}sung");
    assert_eq!(Category::Addition.german(), "Erg\u{00e4}nzungsvorschlag");
    assert_eq!(Priority::Medium.german(), "Mittel");
}

#[test]
fn config_defaults() {
    let smtp = SmtpConfig {
        domain: String::new(),
        port: 0,
        username: String::new(),
        password: String::new(),
    };
    let file = Config {
        port: None,
        workers: Some(8),
        secret_key: None,
        host: "http://localhost:8080".to_owned(),
        smtp,
    };
    let settings = load(&file);
    assert_eq!(settings.port, 8080);
    assert_eq!(settings.workers, 8);
    assert!(settings.secret_key.is_none());
}

#[test]
fn protected_areas() {
    assert_eq!(Auth::route(Some("users"), Some(Role::Admin)), Routing::Pass);
    assert_eq!(Auth::route(Some("users"), Some(Role::Student)), Routing::Forbidden);
    assert_eq!(Auth::route(Some("courses"), None), Routing::ToLogin);
    assert_eq!(Auth::route(Some("tickets"), Some(Role::Student)), Routing::Pass);
    assert_eq!(Auth::route(Some("tickets"), None), Routing::ToLogin);
    assert_eq!(Auth::route(Some("faq"), None), Routing::Pass);
    assert_eq!(Auth::route(None, None), Routing::Pass);
    assert!(Csp::on_response(true).is_none());
    assert_eq!(Csp::on_response(false).unwrap().0, "Content-Security-Policy");
}

#[test]
fn pages_and_form_values() {
    assert_eq!(index().location, "/login");
    let logout = post_logout();
    assert_eq!(logout.remove_cookie, "session");
    assert_eq!(logout.redirect.location, "/login");
    assert_eq!(ServerError { error: WorkflowError::NotFound }.status(), 404);
    assert_eq!(ServerError { error: WorkflowError::PersistenceFailure }.status(), 500);
    assert!(NonEmptyString::new(String::new()).is_none());
    assert!(NonEmptyString::new("a".to_owned()).is_some());
    assert!(Hour::new(23).is_some() && Hour::new(24).is_none());
    assert!(Minute::new(59).is_some() && Minute::new(60).is_none());
}

#[test]
fn signed_in_and_anonymous() {
    let user = User {
        id: 1,
        username: "admin".to_owned(),
        password: String::new(),
        name: "Administrator".to_owned(),
        role: Role::Admin,
        active: true,
        code: String::new(),
    };
    assert!(user.is_admin());
    let auth = Some(AuthUser(user));
    assert!(NoUser::from_auth(&auth).is_none());
    assert!(NoUser::from_auth(&None).is_some());
}

#[test]
fn substring_matching() {
    assert!(contains_text("Tippfehler im Skript", "fehler"));
    assert!(contains_text("abc", ""));
    assert!(!contains_text("abc", "abcd"));
    assert!(!contains_text("Fehler", "fehler"));
    assert!(contains_text("\u{00e4}rger", "\u{00e4}r"));
}
