use amelio::forms::{FormError, FormField, NewTicketForm};
use amelio::models::{Category, NewMedium, TicketType};

fn form(ty: TicketType) -> NewTicketForm {
    NewTicketForm {
        ty,
        category: Category::Content,
        title: "a".to_owned(),
        description: "a".to_owned(),
        course: 1,
        page: Some(1),
        line: Some(1),
        url: Some("https://example.org".to_owned()),
        question: Some(1),
        answer: Some("a".to_owned()),
        hour: Some(0),
        minute: Some(0),
        second: Some(0),
    }
}

fn refused(f: NewTicketForm) -> FormError {
    match f.into_parts(4) {
        Err(e) => e,
        Ok(_) => panic!("form accepted"),
    }
}

#[test]
fn complete_forms_are_accepted() {
    let (ticket, medium) = form(TicketType::CourseBook).into_parts(4).ok().unwrap();
    assert_eq!(ticket.creator_id, 4);
    assert_eq!(ticket.course_id, 1);
    assert!(matches!(medium, NewMedium::Text { page: 1, line: 1 }));

    let (_, medium) = form(TicketType::InteractiveBook).into_parts(4).ok().unwrap();
    match medium {
        NewMedium::Interactive { url } => assert_eq!(url, "https://example.org/"),
        _ => panic!("not interactive"),
    }
    let (_, medium) = form(TicketType::Vodcast).into_parts(4).ok().unwrap();
    assert!(matches!(medium, NewMedium::Recording { .. }));
    let (_, medium) = form(TicketType::PracticeExam).into_parts(4).ok().unwrap();
    assert!(matches!(medium, NewMedium::Questionaire { question: 1, .. }));
}

#[test]
fn invalid_fields_are_refused() {
    let mut f = form(TicketType::CourseBook);
    f.title = String::new();
    assert_eq!(refused(f), FormError::Invalid(FormField::Title));
    let mut f = form(TicketType::CourseBook);
    f.description = String::new();
    assert_eq!(refused(f), FormError::Invalid(FormField::Description));
    let mut f = form(TicketType::CourseBook);
    f.course = 0;
    assert_eq!(refused(f), FormError::Invalid(FormField::Course));
    let mut f = form(TicketType::CourseBook);
    f.page = Some(0);
    assert_eq!(refused(f), FormError::Invalid(FormField::Page));
    let mut f = form(TicketType::CourseBook);
    f.line = Some(0);
    assert_eq!(refused(f), FormError::Invalid(FormField::Line));
    let mut f = form(TicketType::Vodcast);
    f.hour = Some(24);
    assert_eq!(refused(f), FormError::Invalid(FormField::Hour));
    let mut f = form(TicketType::Vodcast);
    f.minute = Some(60);
    assert_eq!(refused(f), FormError::Invalid(FormField::Minute));
    let mut f = form(TicketType::Vodcast);
    f.second = Some(60);
    assert_eq!(refused(f), FormError::Invalid(FormField::Second));
    let mut f = form(TicketType::InteractiveBook);
    f.url = Some(String::new());
    assert_eq!(refused(f), FormError::Invalid(FormField::Url));
    let mut f = form(TicketType::PracticeExam);
    f.question = Some(0);
    assert_eq!(refused(f), FormError::Invalid(FormField::Question));
    let mut f = form(TicketType::PracticeExam);
    f.answer = Some(String::new());
    assert_eq!(refused(f), FormError::Invalid(FormField::Answer));
}

#[test]
fn missing_medium_fields_are_refused() {
    let mut f = form(TicketType::Presentation);
    f.page = None;
    assert_eq!(refused(f), FormError::Missing(FormField::Page));
    let mut f = form(TicketType::OnlineTest);
    f.answer = None;
    assert_eq!(refused(f), FormError::Missing(FormField::Answer));
    let mut f = form(TicketType::InteractiveBook);
    f.url = None;
    assert_eq!(refused(f), FormError::Missing(FormField::Url));
    // Fields of other medium kinds are not needed.
    let mut f = form(TicketType::Podcast);
    f.page = None;
    f.url = None;
    assert!(f.into_parts(4).is_ok());
}
