//! Guarantees of the ticket workflow, stated over the same spec functions that the operations'
//! contracts use, and proved.

use vstd::prelude::*;

use crate::error::WorkflowError;
use crate::models::{Category, Id, NewMedium, NewTicket, Priority, Role, Status, TicketSearch};
use crate::services::{
    change_status_mails, change_status_result, change_status_state, comment_accepted,
    comment_mails, create_result, create_state, creator_of, effective_search, is_handler,
    open_mails, open_state, opens,
};
use crate::store::{DbView, Selection};

verus! {

/// A status change that the transition table does not list fails with `InvalidTransition`,
/// leaves the store as it was and notifies no one.
pub proof fn lemma_illegal_change_rejected(db: DbView, id: Id, target: Status)
    requires
        db.wf(),
        db.has_ticket(id as int),
        !db.ticket(id as int).status.allows(target),
    ensures
        change_status_result(db, id, target) == Err::<(), WorkflowError>(
            WorkflowError::InvalidTransition,
        ),
        change_status_state(db, id, target) == db,
        change_status_mails(db, id, target) == 0,
{
}

/// The transition table holds exactly five pairs: Open to InProgress, InProgress to Accepted
/// or Refused, and Accepted to Completed.
pub proof fn lemma_transition_table(from: Status, to: Status)
    ensures
        from.allows(to) <==> ((from == Status::Open && to == Status::InProgress) || (from
            == Status::InProgress && to == Status::Accepted) || (from == Status::InProgress && to
            == Status::Refused) || (from == Status::Accepted && to == Status::Completed)),
        from.is_terminal() ==> !from.allows(to),
{
}

/// A listed status change succeeds, stores the new status and notifies the creator exactly
/// once.
pub proof fn lemma_legal_change_applied(db: DbView, id: Id, target: Status)
    requires
        db.wf(),
        db.has_ticket(id as int),
        db.ticket(id as int).status.allows(target),
    ensures
        change_status_result(db, id, target) is Ok,
        change_status_state(db, id, target).ticket(id as int).status == target,
        change_status_state(db, id, target).tickets.len() == db.tickets.len(),
        change_status_mails(db, id, target) == 1,
{
}

/// Opening an open ticket as its assignee activates it once: a second opening finds
/// it in progress, changes nothing and notifies no one.
pub proof fn lemma_activation_idempotent(db: DbView, id: Id, user_id: Id, role: Role)
    requires
        db.wf(),
        db.has_ticket(id as int),
        db.ticket(id as int).status == Status::Open,
        is_handler(role),
        user_id == db.assignee(db.ticket(id as int)),
    ensures
        opens(db, id, user_id, role),
        open_mails(db, id, user_id, role) == 1,
        open_state(db, id, user_id, role).ticket(id as int).status == Status::InProgress,
        !opens(open_state(db, id, user_id, role), id, user_id, role),
        open_state(open_state(db, id, user_id, role), id, user_id, role) == open_state(
            db,
            id,
            user_id,
            role,
        ),
        open_mails(open_state(db, id, user_id, role), id, user_id, role) == 0,
{
}

/// Only the assignee activates a ticket: the tutor while it is not forwarded, the
/// author once it is. Anyone else leaves it unchanged and notifies no one.
pub proof fn lemma_wrong_user_does_not_activate(db: DbView, id: Id, user_id: Id, role: Role)
    requires
        db.wf(),
        db.has_ticket(id as int),
        user_id != db.assignee(db.ticket(id as int)),
    ensures
        !opens(db, id, user_id, role),
        open_state(db, id, user_id, role) == db,
        open_mails(db, id, user_id, role) == 0,
{
}

/// Creating a ticket whose medium insert is refused stores no ticket either: the listing is
/// the one from before.
pub proof fn lemma_create_is_atomic(db: DbView, t: NewTicket, medium: NewMedium)
    requires
        db.wf(),
        medium.kind() != t.type_.medium_kind(),
    ensures
        create_result(db, t, medium) == Err::<Id, WorkflowError>(
            WorkflowError::PersistenceFailure,
        ),
        create_state(db, t, medium) == db,
        create_state(db, t, medium).listing(Selection::All) == db.listing(Selection::All),
{
}

/// A created ticket starts open, not forwarded, with the priority of its category, and its
/// medium is stored with it.
pub proof fn lemma_create_stores_both(db: DbView, t: NewTicket, medium: NewMedium)
    requires
        db.wf(),
        db.accepts_ticket(t, medium),
    ensures
        ({
            let id = create_result(db, t, medium)->Ok_0;
            let after = create_state(db, t, medium);
            &&& create_result(db, t, medium) is Ok
            &&& after.wf()
            &&& after.ticket(id as int).status == Status::Open
            &&& !after.ticket(id as int).forwarded
            &&& after.ticket(id as int).priority == t.category.priority_of()
            &&& after.medium(id as int) == medium.attached(id)
        }),
{
    let id = (db.tickets.len() + 1) as Id;
    let after = create_state(db, t, medium);
    assert forall|i: int| 0 <= i < after.users.len() implies #[trigger] after.user_ok(i) by {
        assert(db.user_ok(i));
    }
    assert forall|i: int| 0 <= i < after.courses.len() implies #[trigger] after.course_ok(i) by {
        assert(db.course_ok(i));
    }
    assert forall|i: int| 0 <= i < after.tickets.len() implies #[trigger] after.ticket_ok(i) by {
        if i < db.tickets.len() {
            assert(db.ticket_ok(i));
        }
    }
    assert forall|i: int| 0 <= i < after.comments.len() implies #[trigger] after.comment_ok(i) by {
        assert(db.comment_ok(i));
    }
}

/// The priority of a new ticket follows from its category alone.
pub proof fn lemma_category_priority()
    ensures
        Category::Editorial.priority_of() == Priority::Medium,
        Category::Content.priority_of() == Priority::High,
        Category::Improvement.priority_of() == Priority::Low,
        Category::Addition.priority_of() == Priority::Low,
{
}

/// A student's search ignores the priority filter: it runs as if none were given, whatever
/// was given. A tutor's search runs as given.
pub proof fn lemma_student_search_ignores_priority(db: DbView, search: TicketSearch, p: Option<Priority>)
    ensures
        effective_search(Role::Student, search) == (TicketSearch { priority: None, ..search }),
        db.listing(Selection::Matching(effective_search(Role::Student, search))) == db.listing(
            Selection::Matching(effective_search(Role::Student, TicketSearch { priority: p, ..search })),
        ),
        effective_search(Role::Tutor, search) == search,
{
}

/// A comment by the ticket's creator notifies no one; a comment by any other user notifies
/// exactly once.
pub proof fn lemma_comment_notification(db: DbView, id: Id, writer_id: Id)
    requires
        db.wf(),
        comment_accepted(db, id, writer_id),
    ensures
        writer_id == creator_of(db, id).id ==> comment_mails(db, id, writer_id) == 0,
        writer_id != creator_of(db, id).id ==> comment_mails(db, id, writer_id) == 1,
{
}

} // verus!
