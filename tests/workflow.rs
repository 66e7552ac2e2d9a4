use amelio::email::{new_mail_renderer, Mail};
use amelio::error::WorkflowError;
use amelio::models::{
    map_priority, Category, Medium, MediumType, NewCourse, NewMedium, NewTicket, NewUser,
    Priority, Role, Status, TicketSearch, TicketType, TimeOfDay,
};
use amelio::roles::require_role;
use amelio::services::{ticket_service, TicketService};
use amelio::store::{Database, Selection};

const ADMIN: i32 = 1;
const AUTHOR: i32 = 2;
const TUTOR: i32 = 3;
const STUDENT: i32 = 4;
const OTHER: i32 = 5;

fn add_user(db: &mut Database, username: &str, name: &str, role: Role) -> i32 {
    let code = format!("code-{}", username);
    let id = db
        .create_user(NewUser {
            username: username.to_owned(),
            name: name.to_owned(),
            role,
            code: code.clone(),
        })
        .unwrap();
    db.activate_user(&code, String::from("hash")).unwrap();
    id
}

/// A store with an admin, an author, a tutor, two students and one course.
fn setup() -> (Database, TicketService) {
    let mut db = Database::new();
    assert_eq!(add_user(&mut db, "admin", "Administrator", Role::Admin), ADMIN);
    assert_eq!(add_user(&mut db, "author", "Anna Autor", Role::Author), AUTHOR);
    assert_eq!(add_user(&mut db, "tutor", "Tim Tutor", Role::Tutor), TUTOR);
    assert_eq!(add_user(&mut db, "max", "Max Mustermann", Role::Student), STUDENT);
    assert_eq!(add_user(&mut db, "erika", "Erika Muster", Role::Student), OTHER);
    let course = db
        .create_course(NewCourse {
            code: "IGIS01".to_owned(),
            title: "Grundlagen".to_owned(),
            author_id: AUTHOR,
            tutor_id: TUTOR,
        })
        .unwrap();
    assert_eq!(course, 1);
    (db, ticket_service(new_mail_renderer("http://localhost:8080")))
}

fn new_ticket(type_: TicketType, category: Category, title: &str) -> NewTicket {
    NewTicket {
        type_,
        title: title.to_owned(),
        description: "Beschreibung".to_owned(),
        category,
        course_id: 1,
        creator_id: STUDENT,
    }
}

fn create_book_ticket(db: &mut Database, service: &TicketService, title: &str) -> i32 {
    service
        .create(
            db,
            new_ticket(TicketType::CourseBook, Category::Content, title),
            NewMedium::Text { page: 12, line: 3 },
        )
        .unwrap()
}

fn status_of(db: &Database, id: i32) -> Status {
    db.get_status(id).unwrap()
}

const ALL_STATUSES: [Status; 5] = [
    Status::Open,
    Status::InProgress,
    Status::Accepted,
    Status::Refused,
    Status::Completed,
];

const LEGAL: [(Status, Status); 4] = [
    (Status::Open, Status::InProgress),
    (Status::InProgress, Status::Accepted),
    (Status::InProgress, Status::Refused),
    (Status::Accepted, Status::Completed),
];

#[test]
fn illegal_transitions_fail_and_keep_status() {
    let (mut db, service) = setup();
    let id = create_book_ticket(&mut db, &service, "Tippfehler");
    let mut outbox: Vec<Mail> = Vec::new();
    for from in ALL_STATUSES {
        for to in ALL_STATUSES {
            if LEGAL.contains(&(from, to)) {
                continue;
            }
            db.set_status(id, from).unwrap();
            let res = service.change_status(&mut db, &mut outbox, id, to);
            assert_eq!(res, Err(WorkflowError::InvalidTransition));
            assert_eq!(status_of(&db, id), from);
            assert!(outbox.is_empty());
        }
    }
}

#[test]
fn legal_transitions_succeed_with_one_notification() {
    let (mut db, service) = setup();
    let id = create_book_ticket(&mut db, &service, "Tippfehler");
    let mut outbox: Vec<Mail> = Vec::new();
    for (n, (from, to)) in LEGAL.iter().enumerate() {
        db.set_status(id, *from).unwrap();
        assert_eq!(service.change_status(&mut db, &mut outbox, id, *to), Ok(()));
        assert_eq!(status_of(&db, id), *to);
        assert_eq!(outbox.len(), n + 1);
        assert_eq!(outbox[n].to.0, "max@iubh-fernstudium.de");
    }
}

#[test]
fn change_status_of_missing_ticket_is_not_found() {
    let (mut db, service) = setup();
    let mut outbox: Vec<Mail> = Vec::new();
    assert_eq!(
        service.change_status(&mut db, &mut outbox, 7, Status::InProgress),
        Err(WorkflowError::NotFound)
    );
    assert!(outbox.is_empty());
}

#[test]
fn activation_happens_once() {
    let (mut db, service) = setup();
    let id = create_book_ticket(&mut db, &service, "Tippfehler");
    let mut outbox: Vec<Mail> = Vec::new();
    let first = service.get_with_rels(&mut db, &mut outbox, id, TUTOR, Role::Tutor).unwrap();
    assert_eq!(first.ticket.status, Status::InProgress);
    assert_eq!(outbox.len(), 1);
    let second = service.get_with_rels(&mut db, &mut outbox, id, TUTOR, Role::Tutor).unwrap();
    assert_eq!(second.ticket.status, Status::InProgress);
    assert_eq!(outbox.len(), 1);
    assert!(!db.activate_ticket(id, TUTOR));
}

#[test]
fn activation_by_wrong_user_changes_nothing() {
    let (mut db, service) = setup();
    let id = create_book_ticket(&mut db, &service, "Tippfehler");
    let mut outbox: Vec<Mail> = Vec::new();

    // Not forwarded: the author is not the assignee.
    let rels = service.get_with_rels(&mut db, &mut outbox, id, AUTHOR, Role::Author).unwrap();
    assert_eq!(rels.ticket.status, Status::Open);
    assert!(!db.activate_ticket(id, AUTHOR));

    // Forwarded: the tutor is no longer the assignee, the author is.
    service.forward(&mut db, id).unwrap();
    let rels = service.get_with_rels(&mut db, &mut outbox, id, TUTOR, Role::Tutor).unwrap();
    assert_eq!(rels.ticket.status, Status::Open);
    assert!(outbox.is_empty());
    let rels = service.get_with_rels(&mut db, &mut outbox, id, AUTHOR, Role::Author).unwrap();
    assert_eq!(rels.ticket.status, Status::InProgress);
    assert_eq!(outbox.len(), 1);
}

#[test]
fn students_do_not_activate() {
    let (mut db, service) = setup();
    let id = create_book_ticket(&mut db, &service, "Tippfehler");
    let mut outbox: Vec<Mail> = Vec::new();
    let rels = service.get_with_rels(&mut db, &mut outbox, id, TUTOR, Role::Student).unwrap();
    assert_eq!(rels.ticket.status, Status::Open);
    assert!(outbox.is_empty());
}

#[test]
fn create_with_mismatched_medium_stores_nothing() {
    let (mut db, service) = setup();
    create_book_ticket(&mut db, &service, "Erstes");
    let before = service.list(&db).len();
    let res = service.create(
        &mut db,
        new_ticket(TicketType::CourseBook, Category::Content, "Zweites"),
        NewMedium::Interactive { url: "https://example.org".to_owned() },
    );
    assert_eq!(res, Err(WorkflowError::PersistenceFailure));
    let after = service.list(&db);
    assert_eq!(after.len(), before);
    assert!(after.iter().all(|t| t.ticket.title != "Zweites"));
}

#[test]
fn create_with_unknown_course_is_refused() {
    let (mut db, service) = setup();
    let mut t = new_ticket(TicketType::Vodcast, Category::Editorial, "Ton");
    t.course_id = 9;
    let time = TimeOfDay::new(0, 12, 30).unwrap();
    assert_eq!(
        service.create(&mut db, t, NewMedium::Recording { time }),
        Err(WorkflowError::PersistenceFailure)
    );
    assert!(service.list(&db).is_empty());
}

#[test]
fn category_priority_mapping() {
    assert_eq!(map_priority(Category::Editorial), Priority::Medium);
    assert_eq!(map_priority(Category::Content), Priority::High);
    assert_eq!(map_priority(Category::Improvement), Priority::Low);
    assert_eq!(map_priority(Category::Addition), Priority::Low);
}

#[test]
fn created_ticket_gets_derived_priority_and_medium() {
    let (mut db, service) = setup();
    let id = service
        .create(
            &mut db,
            new_ticket(TicketType::OnlineTest, Category::Editorial, "Frage"),
            NewMedium::Questionaire { question: 4, answer: "B".to_owned() },
        )
        .unwrap();
    let mut outbox: Vec<Mail> = Vec::new();
    let rels = service.get_with_rels(&mut db, &mut outbox, id, STUDENT, Role::Student).unwrap();
    assert_eq!(rels.ticket.priority, Priority::Medium);
    assert_eq!(rels.ticket.status, Status::Open);
    assert!(!rels.ticket.forwarded);
    assert_eq!(rels.course_name, "IGIS01");
    assert_eq!(rels.creator_name, "Max Mustermann");
    assert_eq!(rels.editor_name, "Tim Tutor");
    assert!(matches!(
        rels.medium,
        Medium::Questionaire { ticket_id, question: 4, ref answer } if ticket_id == id && answer == "B"
    ));
    assert!(outbox.is_empty());
    assert!(matches!(TicketType::OnlineTest.medium(), MediumType::Questionaire));
}

fn search_for(priority: Option<Priority>) -> TicketSearch {
    TicketSearch { title: None, course_id: None, category: None, priority, status: None }
}

#[test]
fn student_search_drops_priority_filter() {
    let (mut db, service) = setup();
    create_book_ticket(&mut db, &service, "Hoch");
    service
        .create(
            &mut db,
            new_ticket(TicketType::Podcast, Category::Addition, "Niedrig"),
            NewMedium::Recording { time: TimeOfDay::new(1, 2, 3).unwrap() },
        )
        .unwrap();
    let mut student = search_for(Some(Priority::Low));
    let found = service.search(&db, Role::Student, &mut student);
    assert_eq!(found.len(), 2);
    assert_eq!(student.priority, None);

    let mut tutor = search_for(Some(Priority::Low));
    let found = service.search(&db, Role::Tutor, &mut tutor);
    assert_eq!(found.len(), 1);
    assert_eq!(found[0].ticket.title, "Niedrig");
    assert_eq!(tutor.priority, Some(Priority::Low));
}

#[test]
fn search_combines_filters() {
    let (mut db, service) = setup();
    create_book_ticket(&mut db, &service, "Tippfehler im Skript");
    create_book_ticket(&mut db, &service, "Falsche Formel");
    let mut by_title = TicketSearch {
        title: Some("fehler".to_owned()),
        course_id: Some(1),
        category: Some(Category::Content),
        priority: None,
        status: Some(Status::Open),
    };
    let found = service.search(&db, Role::Tutor, &mut by_title);
    assert_eq!(found.len(), 1);
    assert_eq!(found[0].ticket.title, "Tippfehler im Skript");

    let mut other_course = TicketSearch { course_id: Some(2), ..search_for(None) };
    assert!(service.search(&db, Role::Admin, &mut other_course).is_empty());
    let mut all = search_for(None);
    assert_eq!(service.search(&db, Role::Admin, &mut all).len(), 2);
}

#[test]
fn own_comment_notifies_nobody() {
    let (mut db, service) = setup();
    let id = create_book_ticket(&mut db, &service, "Tippfehler");
    let mut outbox: Vec<Mail> = Vec::new();
    service.add_comment(&mut db, &mut outbox, id, STUDENT, "Noch da".to_owned()).unwrap();
    assert!(outbox.is_empty());
}

#[test]
fn comment_by_other_user_notifies_creator_once() {
    let (mut db, service) = setup();
    let id = create_book_ticket(&mut db, &service, "Tippfehler");
    let mut outbox: Vec<Mail> = Vec::new();
    service.add_comment(&mut db, &mut outbox, id, TUTOR, "Danke".to_owned()).unwrap();
    assert_eq!(outbox.len(), 1);
    assert_eq!(outbox[0].to.0, "max@iubh-fernstudium.de");
    assert_eq!(outbox[0].to.1, "Max Mustermann");
    assert_eq!(outbox[0].subject, "Neuer Kommentar f\u{00fc}r Dein Ticket");
    assert!(outbox[0].message.contains("Tim Tutor"));
    assert!(outbox[0].message.contains("Danke"));

    let rels = service.get_with_rels(&mut db, &mut outbox, id, OTHER, Role::Student).unwrap();
    assert_eq!(rels.comments.len(), 1);
    assert_eq!(rels.comments[0].creator_name, "Tim Tutor");
    assert_eq!(rels.comments[0].comment.message, "Danke");
    assert!(rels.comments[0].comment.timestamp > 1_600_000_000);
}

#[test]
fn comment_on_missing_ticket_is_refused() {
    let (mut db, service) = setup();
    let mut outbox: Vec<Mail> = Vec::new();
    assert_eq!(
        service.add_comment(&mut db, &mut outbox, 3, TUTOR, "x".to_owned()),
        Err(WorkflowError::PersistenceFailure)
    );
}

#[test]
fn course_book_scenario() {
    let (mut db, service) = setup();
    let id = create_book_ticket(&mut db, &service, "Falsche Seite");
    let created = service.get(&db, id).unwrap();
    assert_eq!(created.ticket.priority, Priority::High);
    assert_eq!(created.ticket.status, Status::Open);

    let mut outbox: Vec<Mail> = Vec::new();
    let opened = service.get_with_rels(&mut db, &mut outbox, id, TUTOR, Role::Tutor).unwrap();
    assert_eq!(opened.ticket.status, Status::InProgress);
    assert_eq!(outbox.len(), 1);

    assert_eq!(service.change_status(&mut db, &mut outbox, id, Status::Refused), Ok(()));
    assert_eq!(outbox.len(), 2);
    assert_eq!(status_of(&db, id), Status::Refused);

    assert_eq!(
        service.change_status(&mut db, &mut outbox, id, Status::InProgress),
        Err(WorkflowError::InvalidTransition)
    );
    assert_eq!(outbox.len(), 2);
    assert_eq!(status_of(&db, id), Status::Refused);
}

#[test]
fn status_mail_wording() {
    let (mut db, service) = setup();
    let id = create_book_ticket(&mut db, &service, "Falsche Seite");
    let mut outbox: Vec<Mail> = Vec::new();
    service.change_status(&mut db, &mut outbox, id, Status::InProgress).unwrap();
    let mail = &outbox[0];
    assert_eq!(mail.from.0, "amelio@dnaka91.rocks");
    assert_eq!(mail.from.1, "Amelio");
    assert_eq!(mail.subject, "Status\u{00e4}nderung Deines Tickets");
    assert_eq!(
        mail.message,
        "Hallo Max Mustermann,\n\nDer Status Deines Tickets \"Falsche Seite\" wurde soeben von \
         Offen zu In Bearbeitung ge\u{00e4}ndert.\n\nDu kannst dein Ticket jederzeit unter \
         folgendem Link einsehen:\nhttp://localhost:8080/tickets/1\n\nViele \
         Gr\u{00fc}\u{00df}e,\nDein Amelio-Team"
    );
}

#[test]
fn assigned_listing_follows_forwarding() {
    let (mut db, service) = setup();
    let id = create_book_ticket(&mut db, &service, "Tippfehler");
    assert_eq!(service.list_assigned(&db, TUTOR, Role::Tutor).len(), 1);
    assert!(service.list_assigned(&db, AUTHOR, Role::Author).is_empty());
    assert!(service.list_assigned(&db, STUDENT, Role::Student).is_empty());
    service.forward(&mut db, id).unwrap();
    assert!(service.list_assigned(&db, TUTOR, Role::Tutor).is_empty());
    let queue = service.list_assigned(&db, AUTHOR, Role::Author);
    assert_eq!(queue.len(), 1);
    assert_eq!(queue[0].editor_name, "Anna Autor");
    assert_eq!(service.list_created(&db, STUDENT).len(), 1);
    assert!(service.list_created(&db, OTHER).is_empty());
    assert_eq!(db.list(&Selection::All).len(), 1);
}

#[test]
fn update_and_forward_need_existing_ticket() {
    let (mut db, service) = setup();
    let id = create_book_ticket(&mut db, &service, "Tippfehler");
    assert_eq!(service.update(&mut db, id, Priority::Critical), Ok(()));
    assert_eq!(db.get(id).unwrap().priority, Priority::Critical);
    assert_eq!(service.update(&mut db, 5, Priority::Low), Err(WorkflowError::NotFound));
    assert_eq!(service.forward(&mut db, 0), Err(WorkflowError::NotFound));
}

#[test]
fn only_creators_and_staff_open_tickets() {
    let (mut db, service) = setup();
    let id = create_book_ticket(&mut db, &service, "Tippfehler");
    assert!(service.can_open(&db, id, STUDENT, Role::Student));
    assert!(!service.can_open(&db, id, OTHER, Role::Student));
    assert!(service.can_open(&db, id, TUTOR, Role::Tutor));
    assert!(service.can_open(&db, id, ADMIN, Role::Admin));
}

#[test]
fn students_lack_tutor_capabilities() {
    let (db, _) = setup();
    let student = db.find(STUDENT).unwrap();
    assert_eq!(require_role(&student, Role::Tutor), Err(WorkflowError::Unauthorized));
    let tutor = db.find(TUTOR).unwrap();
    assert_eq!(require_role(&tutor, Role::Tutor), Ok(()));
}

#[test]
fn students_may_not_change_status() {
    let (mut db, service) = setup();
    let id = create_book_ticket(&mut db, &service, "Tippfehler");
    let mut outbox: Vec<Mail> = Vec::new();
    assert_eq!(
        service.change_status_by(&mut db, &mut outbox, Role::Student, id, Status::InProgress),
        Err(WorkflowError::Unauthorized)
    );
    assert_eq!(status_of(&db, id), Status::Open);
    assert_eq!(
        service.change_status_by(&mut db, &mut outbox, Role::Author, id, Status::InProgress),
        Ok(())
    );
    assert_eq!(outbox.len(), 1);
}

#[test]
fn comment_by_disabled_user_still_notifies_creator() {
    let (mut db, service) = setup();
    let id = create_book_ticket(&mut db, &service, "Tippfehler");
    db.enable_user(TUTOR, false).unwrap();
    let mut outbox: Vec<Mail> = Vec::new();
    assert_eq!(service.add_comment(&mut db, &mut outbox, id, TUTOR, "Erledigt".to_owned()), Ok(()));
    assert_eq!(outbox.len(), 1);
    assert_eq!(outbox[0].to.0, "max@iubh-fernstudium.de");
    assert!(outbox[0].message.contains("Tim Tutor"));
}

struct Recorder {
    sent: std::cell::RefCell<Vec<String>>,
}

impl amelio::email::MailSender for Recorder {
    fn send(&self, mail: &Mail) -> Result<(), String> {
        self.sent.borrow_mut().push(mail.subject.clone());
        if mail.subject == "fails" {
            Err("refused".to_owned())
        } else {
            Ok(())
        }
    }
}

#[test]
fn dispatch_hands_each_mail_over_once_in_order() {
    let mail = |subject: &str| Mail {
        from: ("a@b".to_owned(), "A".to_owned()),
        to: ("c@d".to_owned(), "C".to_owned()),
        subject: subject.to_owned(),
        message: String::new(),
    };
    let mails = vec![mail("one"), mail("fails"), mail("three")];
    let recorder = Recorder { sent: std::cell::RefCell::new(Vec::new()) };
    let outcomes = amelio::email::dispatch(&recorder, &mails);
    assert_eq!(outcomes, vec![None, Some("refused".to_owned()), None]);
    assert_eq!(*recorder.sent.borrow(), vec!["one", "fails", "three"]);
}
