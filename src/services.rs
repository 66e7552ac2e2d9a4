//! The ticket workflow: the operations that route handlers call. Each one reads and writes the
//! store, consults the state machine, and queues the notification mails that a state change
//! owes the ticket's creator. Queued mails are delivered afterwards by [`crate::email::dispatch`];
//! a failed delivery never undoes the change that queued it.

use vstd::prelude::*;

use crate::email::{
    comment_body, comment_subject, mail_address, sender_address, status_body, status_subject,
    CommentDetails, Mail, MailRenderer, StatusDetails,
};
use crate::error::WorkflowError;
use crate::models::{
    map_priority, EditTicket, Id, NewComment, NewMedium, NewTicket, Priority, Role,
    Status, Ticket, TicketSearch, TicketWithNames, TicketWithRels, User,
};
use crate::roles::authorized;
use crate::store::{DbView, Database, Selection, MAX_ROWS};

verus! {

/// Relies on chrono::Utc::now: the current time as whole seconds since the Unix epoch.
#[verifier::external_body]
fn now_timestamp() -> (r: i64) {
    chrono::Utc::now().timestamp()
}

/// `after` is `before` with exactly one mail appended.
pub open spec fn queued_one(before: Seq<Mail>, after: Seq<Mail>) -> bool {
    after.len() == before.len() + 1 && after.drop_last() == before
}

/// `m` goes from the service address to `to`, with the given subject and body.
pub open spec fn is_mail_to(m: Mail, to: User, subject: Seq<char>, body: Seq<char>) -> bool {
    &&& m.from.0@ == sender_address().0
    &&& m.from.1@ == sender_address().1
    &&& m.to.0@ == mail_address(to.username@)
    &&& m.to.1@ == to.name@
    &&& m.subject@ == subject
    &&& m.message@ == body
}

/// `m` tells `creator` that ticket `t` moved from `old` to `new`.
pub open spec fn is_status_mail(
    m: Mail,
    host: Seq<char>,
    t: Ticket,
    creator: User,
    old: Status,
    new: Status,
) -> bool {
    is_mail_to(
        m,
        creator,
        status_subject(),
        status_body(
            host,
            creator.name@,
            StatusDetails { ticket_title: t.title, ticket_id: t.id, old_status: old, new_status: new },
        ),
    )
}

/// `m` tells `creator` that `writer` commented `message` on ticket `t`.
pub open spec fn is_comment_mail(
    m: Mail,
    host: Seq<char>,
    t: Ticket,
    creator: User,
    writer: User,
    message: String,
) -> bool {
    is_mail_to(
        m,
        creator,
        comment_subject(),
        comment_body(
            host,
            creator.name@,
            CommentDetails {
                ticket_title: t.title,
                ticket_id: t.id,
                comment: message,
                writer_name: writer.name,
            },
        ),
    )
}

/// The creator of an existing ticket.
pub open spec fn creator_of(db: DbView, id: Id) -> User {
    db.user(db.ticket(id as int).creator_id as int)
}

/// Handlers, tutors and authors, activate a ticket by opening it.
pub open spec fn is_handler(role: Role) -> bool {
    role == Role::Tutor || role == Role::Author
}

/// Opening ticket `id` moves it from `Open` to `InProgress`.
pub open spec fn opens(db: DbView, id: Id, user_id: Id, role: Role) -> bool {
    is_handler(role) && db.activates(id as int, user_id)
}

/// The store after the ticket `id` was opened.
pub open spec fn open_state(db: DbView, id: Id, user_id: Id, role: Role) -> DbView {
    if opens(db, id, user_id, role) {
        db.with_status(id as int, Status::InProgress)
    } else {
        db
    }
}

/// The outcome of asking ticket `id` to move to `target`.
pub open spec fn change_status_result(db: DbView, id: Id, target: Status) -> Result<
    (),
    WorkflowError,
> {
    if !db.has_ticket(id as int) {
        Err(WorkflowError::NotFound)
    } else if !db.ticket(id as int).status.allows(target) {
        Err(WorkflowError::InvalidTransition)
    } else {
        Ok(())
    }
}

/// The store after asking ticket `id` to move to `target`.
pub open spec fn change_status_state(db: DbView, id: Id, target: Status) -> DbView {
    if change_status_result(db, id, target) is Ok {
        db.with_status(id as int, target)
    } else {
        db
    }
}

/// The store accepts the comment of `writer_id` on ticket `id`.
pub open spec fn comment_accepted(db: DbView, id: Id, writer_id: Id) -> bool {
    db.comments.len() < MAX_ROWS && db.has_ticket(id as int) && db.has_user(writer_id as int)
}

/// A comment on ticket `id` by `writer_id` is reported to the ticket's creator: writers are
/// not told of their own comments.
pub open spec fn comment_notifies(db: DbView, id: Id, writer_id: Id) -> bool {
    comment_accepted(db, id, writer_id) && creator_of(db, id).id != writer_id
}

/// The number of mails queued by opening ticket `id`.
pub open spec fn open_mails(db: DbView, id: Id, user_id: Id, role: Role) -> nat {
    if opens(db, id, user_id, role) {
        1
    } else {
        0
    }
}

/// The number of mails queued by asking ticket `id` to move to `target`.
pub open spec fn change_status_mails(db: DbView, id: Id, target: Status) -> nat {
    if change_status_result(db, id, target) is Ok {
        1
    } else {
        0
    }
}

/// The number of mails queued by a comment of `writer_id` on ticket `id`.
pub open spec fn comment_mails(db: DbView, id: Id, writer_id: Id) -> nat {
    if comment_notifies(db, id, writer_id) {
        1
    } else {
        0
    }
}

/// The search that runs for an actor: students may not filter by the internal priority.
pub open spec fn effective_search(role: Role, search: TicketSearch) -> TicketSearch {
    if role.rank() >= Role::Student.rank() {
        TicketSearch { priority: None, ..search }
    } else {
        search
    }
}

/// The outcome of creating a ticket: its id, or the refusal of the store.
pub open spec fn create_result(db: DbView, t: NewTicket, medium: NewMedium) -> Result<
    Id,
    WorkflowError,
> {
    if db.accepts_ticket(t, medium) {
        Ok((db.tickets.len() + 1) as Id)
    } else {
        Err(WorkflowError::PersistenceFailure)
    }
}

/// The store after creating a ticket: both rows, or neither.
pub open spec fn create_state(db: DbView, t: NewTicket, medium: NewMedium) -> DbView {
    if db.accepts_ticket(t, medium) {
        let id = (db.tickets.len() + 1) as Id;
        DbView {
            tickets: db.tickets.push(DbView::ticket_row(t, id, t.category.priority_of())),
            media: db.media.push(medium.attached(id)),
            ..db
        }
    } else {
        db
    }
}

/// The ticket workflow. Notifications are rendered with `renderer` and queued in an outbox.
pub struct TicketService {
    pub renderer: MailRenderer,
}

/// Create a ticket service whose mails link below the renderer's host.
pub fn ticket_service(renderer: MailRenderer) -> (r: TicketService)
    ensures
        r.renderer == renderer,
{
    TicketService { renderer }
}

impl TicketService {
    fn mail_to(&self, to: &User, subject: String, message: String) -> (r: Mail)
        ensures
            is_mail_to(r, *to, subject@, message@),
    {
        let mut address = to.username.clone();
        address.append("@iubh-fernstudium.de");
        Mail {
            from: (String::from_str("amelio@dnaka91.rocks"), String::from_str("Amelio")),
            to: (address, to.name.clone()),
            subject,
            message,
        }
    }

    fn status_mail(&self, t: &Ticket, creator: &User, old: Status, new: Status) -> (r: Mail)
        ensures
            is_status_mail(r, self.renderer.host@, *t, *creator, old, new),
    {
        let details = StatusDetails {
            ticket_title: t.title.clone(),
            ticket_id: t.id,
            old_status: old,
            new_status: new,
        };
        let (subject, message) = self.renderer.status_change(creator.name.as_str(), &details);
        self.mail_to(creator, subject, message)
    }

    /// List all tickets.
    pub fn list(&self, db: &Database) -> (r: Vec<TicketWithNames>)
        requires
            db.wf(),
        ensures
            r@ == db@.listing(Selection::All),
    {
        db.list(&Selection::All)
    }

    /// List the tickets that a user created.
    pub fn list_created(&self, db: &Database, user_id: Id) -> (r: Vec<TicketWithNames>)
        requires
            db.wf(),
        ensures
            r@ == db@.listing(Selection::Creator(user_id)),
    {
        db.list(&Selection::Creator(user_id))
    }

    /// List the tickets assigned to a user: tutors and more privileged roles get their queue,
    /// everyone else an empty list.
    pub fn list_assigned(&self, db: &Database, user_id: Id, role: Role) -> (r: Vec<
        TicketWithNames,
    >)
        requires
            db.wf(),
        ensures
            role.rank() <= Role::Tutor.rank() ==> r@ == db@.listing(Selection::Assignee(user_id)),
            role.rank() > Role::Tutor.rank() ==> r@.len() == 0,
    {
        if role.ordinal() <= Role::Tutor.ordinal() {
            db.list(&Selection::Assignee(user_id))
        } else {
            Vec::new()
        }
    }

    /// List the id and code of all courses.
    pub fn list_course_names(&self, db: &Database) -> (r: Vec<(Id, String)>)
        requires
            db.wf(),
        ensures
            r@ == db@.courses.map_values(|c: crate::models::Course| (c.id, c.code)),
    {
        db.list_course_names()
    }

    /// Get a single ticket with its names.
    pub fn get(&self, db: &Database, id: Id) -> (r: Result<TicketWithNames, WorkflowError>)
        requires
            db.wf(),
        ensures
            r is Ok <==> db@.has_ticket(id as int),
            r is Ok ==> r->Ok_0 == db@.with_names(db@.ticket(id as int)),
            r is Err ==> r->Err_0 == WorkflowError::NotFound,
    {
        db.get_with_names(id)
    }

    /// Open a ticket. A tutor or author who is the ticket's assignee moves a still
    /// open ticket to `InProgress` and the creator is told; any other call reads only. The
    /// detail returned shows the ticket after that change.
    pub fn get_with_rels(
        &self,
        db: &mut Database,
        outbox: &mut Vec<Mail>,
        id: Id,
        user_id: Id,
        role: Role,
    ) -> (r: Result<TicketWithRels, WorkflowError>)
        requires
            old(db).wf(),
        ensures
            final(db).wf(),
            final(db)@ == open_state(old(db)@, id, user_id, role),
            r is Ok <==> old(db)@.has_ticket(id as int),
            r is Ok ==> final(db)@.is_detail(id, r->Ok_0),
            r is Err ==> r->Err_0 == WorkflowError::NotFound,
            opens(old(db)@, id, user_id, role) ==> queued_one(old(outbox)@, final(outbox)@)
                && is_status_mail(
                final(outbox)@.last(),
                self.renderer.host@,
                final(db)@.ticket(id as int),
                creator_of(old(db)@, id),
                Status::Open,
                Status::InProgress,
            ),
            !opens(old(db)@, id, user_id, role) ==> final(outbox)@ == old(outbox)@,
            final(outbox)@.len() == old(outbox)@.len() + open_mails(old(db)@, id, user_id, role),
    {
        let activated = if role == Role::Tutor || role == Role::Author {
            db.activate_ticket(id, user_id)
        } else {
            false
        };
        let rels = match db.get_with_rels(id) {
            Ok(rels) => rels,
            Err(e) => return Err(e),
        };
        if activated {
            let creator = match db.find_ticket_creator(id) {
                Ok(u) => u,
                Err(e) => return Err(e),
            };
            let mail = self.status_mail(&rels.ticket, &creator, Status::Open, rels.ticket.status);
            outbox.push(mail);
            proof {
                assert(outbox@.drop_last() =~= old(outbox)@);
            }
        }
        Ok(rels)
    }

    /// Create a ticket with its medium. The priority follows from the category; no one is
    /// notified.
    pub fn create(&self, db: &mut Database, ticket: NewTicket, medium: NewMedium) -> (r: Result<
        Id,
        WorkflowError,
    >)
        requires
            old(db).wf(),
        ensures
            final(db).wf(),
            r == create_result(old(db)@, ticket, medium),
            final(db)@ == create_state(old(db)@, ticket, medium),
    {
        let priority = map_priority(ticket.category);
        db.create_ticket(ticket, priority, medium)
    }

    /// Add a comment to a ticket. The ticket's creator is told, unless they wrote it.
    pub fn add_comment(
        &self,
        db: &mut Database,
        outbox: &mut Vec<Mail>,
        id: Id,
        writer_id: Id,
        message: String,
    ) -> (r: Result<(), WorkflowError>)
        requires
            old(db).wf(),
        ensures
            final(db).wf(),
            comment_accepted(old(db)@, id, writer_id) ==> final(db)@ == (DbView {
                comments: old(db)@.comments.push(
                    crate::models::Comment {
                        id: (old(db)@.comments.len() + 1) as Id,
                        ticket_id: id,
                        creator_id: writer_id,
                        timestamp: final(db)@.comments.last().timestamp,
                        message,
                    },
                ),
                ..old(db)@
            }),
            !comment_accepted(old(db)@, id, writer_id) ==> r == Err::<(), WorkflowError>(
                WorkflowError::PersistenceFailure,
            ) && final(db)@ == old(db)@,
            r is Ok <==> comment_accepted(old(db)@, id, writer_id),
            comment_notifies(old(db)@, id, writer_id) ==> queued_one(
                old(outbox)@,
                final(outbox)@,
            ) && is_comment_mail(
                final(outbox)@.last(),
                self.renderer.host@,
                old(db)@.ticket(id as int),
                creator_of(old(db)@, id),
                old(db)@.user(writer_id as int),
                message,
            ),
            !comment_notifies(old(db)@, id, writer_id) ==> final(outbox)@ == old(outbox)@,
            final(outbox)@.len() == old(outbox)@.len() + comment_mails(old(db)@, id, writer_id),
    {
        let timestamp = now_timestamp();
        let ghost before = db@;
        let text = message.clone();
        match db.add_comment(NewComment { ticket_id: id, creator_id: writer_id, timestamp, message })
        {
            Ok(_) => {},
            Err(e) => return Err(e),
        }
        let creator = match db.find_ticket_creator(id) {
            Ok(u) => u,
            Err(e) => return Err(e),
        };
        if creator.id == writer_id {
            return Ok(());
        }
        proof {
            assert(db@.users == before.users);
        }
        let writer = match db.get_user(writer_id) {
            Ok(u) => u,
            Err(e) => return Err(e),
        };
        let ticket = match db.get(id) {
            Ok(t) => t,
            Err(e) => return Err(e),
        };
        let details = CommentDetails {
            ticket_title: ticket.title.clone(),
            ticket_id: ticket.id,
            comment: text,
            writer_name: writer.name.clone(),
        };
        let (subject, body) = self.renderer.new_comment(creator.name.as_str(), &details);
        outbox.push(self.mail_to(&creator, subject, body));
        proof {
            assert(outbox@.drop_last() =~= old(outbox)@);
        }
        Ok(())
    }

    /// Override the priority of a ticket. Nobody is notified.
    pub fn update(&self, db: &mut Database, id: Id, priority: Priority) -> (r: Result<
        (),
        WorkflowError,
    >)
        requires
            old(db).wf(),
        ensures
            final(db).wf(),
            r is Ok <==> old(db)@.has_ticket(id as int),
            r is Ok ==> final(db)@ == old(db)@.with_priority(id as int, priority),
            r is Err ==> r->Err_0 == WorkflowError::NotFound && final(db)@ == old(db)@,
    {
        db.update(EditTicket { id, priority })
    }

    /// Hand a ticket over from the course's tutor to its author. Nobody is notified.
    pub fn forward(&self, db: &mut Database, id: Id) -> (r: Result<(), WorkflowError>)
        requires
            old(db).wf(),
        ensures
            final(db).wf(),
            r is Ok <==> old(db)@.has_ticket(id as int),
            r is Ok ==> final(db)@ == old(db)@.with_forwarded(id as int),
            r is Err ==> r->Err_0 == WorkflowError::NotFound && final(db)@ == old(db)@,
    {
        db.forward(id)
    }

    /// Move a ticket to `status` if the transition table allows it, and tell the creator.
    pub fn change_status(&self, db: &mut Database, outbox: &mut Vec<Mail>, id: Id, status: Status) -> (r:
        Result<(), WorkflowError>)
        requires
            old(db).wf(),
        ensures
            final(db).wf(),
            r == change_status_result(old(db)@, id, status),
            final(db)@ == change_status_state(old(db)@, id, status),
            r is Ok ==> queued_one(old(outbox)@, final(outbox)@) && is_status_mail(
                final(outbox)@.last(),
                self.renderer.host@,
                old(db)@.ticket(id as int),
                creator_of(old(db)@, id),
                old(db)@.ticket(id as int).status,
                status,
            ),
            r is Err ==> final(outbox)@ == old(outbox)@,
            final(outbox)@.len() == old(outbox)@.len() + change_status_mails(old(db)@, id, status),
    {
        let ticket = match db.get(id) {
            Ok(t) => t,
            Err(e) => return Err(e),
        };
        if !ticket.status.can_change(status) {
            return Err(WorkflowError::InvalidTransition);
        }
        match db.set_status(id, status) {
            Ok(()) => {},
            Err(e) => return Err(e),
        }
        let creator = match db.find_ticket_creator(id) {
            Ok(u) => u,
            Err(e) => return Err(e),
        };
        outbox.push(self.status_mail(&ticket, &creator, ticket.status, status));
        proof {
            assert(outbox@.drop_last() =~= old(outbox)@);
        }
        Ok(())
    }

    /// Change the status on behalf of an actor: tutors and more privileged roles only.
    pub fn change_status_by(
        &self,
        db: &mut Database,
        outbox: &mut Vec<Mail>,
        actor: Role,
        id: Id,
        status: Status,
    ) -> (r: Result<(), WorkflowError>)
        requires
            old(db).wf(),
        ensures
            final(db).wf(),
            actor.rank() > Role::Tutor.rank() ==> r == Err::<(), WorkflowError>(
                WorkflowError::Unauthorized,
            ) && final(db)@ == old(db)@ && final(outbox)@ == old(outbox)@,
            actor.rank() <= Role::Tutor.rank() ==> r == change_status_result(old(db)@, id, status)
                && final(db)@ == change_status_state(old(db)@, id, status)
                && final(outbox)@.len() == old(outbox)@.len() + change_status_mails(
                old(db)@,
                id,
                status,
            ),
            actor.rank() <= Role::Tutor.rank() && r is Ok ==> is_status_mail(
                final(outbox)@.last(),
                self.renderer.host@,
                old(db)@.ticket(id as int),
                creator_of(old(db)@, id),
                old(db)@.ticket(id as int).status,
                status,
            ),
    {
        if !authorized(actor, Role::Tutor) {
            return Err(WorkflowError::Unauthorized);
        }
        self.change_status(db, outbox, id, status)
    }

    /// Search tickets. For students the priority filter is cleared first.
    pub fn search(&self, db: &Database, role: Role, search: &mut TicketSearch) -> (r: Vec<
        TicketWithNames,
    >)
        requires
            db.wf(),
        ensures
            *final(search) == effective_search(role, *old(search)),
            r@ == db@.listing(Selection::Matching(*final(search))),
    {
        if role.ordinal() >= Role::Student.ordinal() {
            search.priority = None;
        }
        db.list(&Selection::Matching(search.clone()))
    }

    /// Whether a user may view a ticket: anyone more privileged than a student may, a student
    /// only their own tickets.
    pub fn can_open(&self, db: &Database, id: Id, user_id: Id, role: Role) -> (r: bool)
        requires
            db.wf(),
        ensures
            r == (role.rank() < Role::Student.rank() || (db@.has_ticket(id as int) && db@.ticket(
                id as int,
            ).creator_id == user_id)),
    {
        if role.ordinal() < Role::Student.ordinal() {
            return true;
        }
        db.is_creator(id, user_id)
    }
}

} // verus!
