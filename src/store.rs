//! An in-memory store of users, courses, tickets, media and comments.
//!
//! Each table keeps its rows in insertion order and assigns ids from `1` upwards, so the row of
//! id `n` sits at index `n - 1`. References between tables are checked on every write, and every
//! ticket owns exactly one medium whose kind matches its type.

use vstd::prelude::*;

use crate::error::WorkflowError;
use crate::models::{
    Comment, CommentWithNames, Course, CourseWithNames, EditCourse, EditTicket, EditUser, Id,
    Medium, NewComment, NewCourse, NewMedium, NewTicket, NewUser, Priority, Role, Status, Ticket,
    TicketSearch, TicketWithNames, TicketWithRels, User,
};
use crate::text::{contains_text, is_substring};

verus! {

/// The largest number of rows that a table can hold, as ids are `i32`.
pub const MAX_ROWS: usize = 0x7fff_ffff;

/// Which tickets a listing returns.
pub enum Selection {
    All,
    /// The tickets created by a user.
    Creator(Id),
    /// The tickets whose assignee is a user.
    Assignee(Id),
    /// The tickets that meet search criteria.
    Matching(TicketSearch),
}

/// Every present filter of `search` holds of `t`; the title filter asks for a part of the title.
pub open spec fn search_matches(search: TicketSearch, t: Ticket) -> bool {
    &&& (match search.title {
        Some(title) => is_substring(title@, t.title@),
        None => true,
    })
    &&& (match search.course_id {
        Some(course_id) => t.course_id == course_id,
        None => true,
    })
    &&& (match search.category {
        Some(category) => t.category == category,
        None => true,
    })
    &&& (match search.priority {
        Some(priority) => t.priority == priority,
        None => true,
    })
    &&& (match search.status {
        Some(status) => t.status == status,
        None => true,
    })
}

/// The contents of the store.
pub struct DbView {
    pub users: Seq<User>,
    pub courses: Seq<Course>,
    pub tickets: Seq<Ticket>,
    pub media: Seq<Medium>,
    pub comments: Seq<Comment>,
}

impl DbView {
    pub open spec fn has_user(self, id: int) -> bool {
        1 <= id <= self.users.len()
    }

    pub open spec fn user(self, id: int) -> User {
        self.users[id - 1]
    }

    pub open spec fn has_course(self, id: int) -> bool {
        1 <= id <= self.courses.len()
    }

    pub open spec fn course(self, id: int) -> Course {
        self.courses[id - 1]
    }

    pub open spec fn has_ticket(self, id: int) -> bool {
        1 <= id <= self.tickets.len()
    }

    pub open spec fn ticket(self, id: int) -> Ticket {
        self.tickets[id - 1]
    }

    pub open spec fn medium(self, id: int) -> Medium {
        self.media[id - 1]
    }

    /// The user currently responsible for a ticket: the course's tutor, or its author once the
    /// ticket was forwarded.
    pub open spec fn assignee(self, t: Ticket) -> Id {
        if t.forwarded {
            self.course(t.course_id as int).author_id
        } else {
            self.course(t.course_id as int).tutor_id
        }
    }

    pub open spec fn with_names(self, t: Ticket) -> TicketWithNames {
        TicketWithNames {
            ticket: t,
            course_name: self.course(t.course_id as int).code,
            creator_name: self.user(t.creator_id as int).name,
            editor_name: self.user(self.assignee(t) as int).name,
        }
    }

    /// The row that a new ticket becomes under id `id`.
    pub open spec fn ticket_row(t: NewTicket, id: Id, priority: Priority) -> Ticket {
        Ticket {
            id,
            type_: t.type_,
            title: t.title,
            description: t.description,
            category: t.category,
            priority,
            status: Status::Open,
            course_id: t.course_id,
            creator_id: t.creator_id,
            forwarded: false,
        }
    }

    /// Both inserts of a ticket and its medium succeed: the references of the ticket exist,
    /// the medium has the kind that the ticket type asks for, and an id is left.
    pub open spec fn accepts_ticket(self, t: NewTicket, medium: NewMedium) -> bool {
        &&& self.tickets.len() < MAX_ROWS
        &&& self.has_course(t.course_id as int)
        &&& self.has_user(t.creator_id as int)
        &&& medium.kind() == t.type_.medium_kind()
    }

    /// The store with one ticket replaced.
    pub open spec fn with_ticket(self, id: int, t: Ticket) -> DbView {
        DbView { tickets: self.tickets.update(id - 1, t), ..self }
    }

    pub open spec fn with_status(self, id: int, status: Status) -> DbView {
        self.with_ticket(id, Ticket { status, ..self.ticket(id) })
    }

    pub open spec fn with_forwarded(self, id: int) -> DbView {
        self.with_ticket(id, Ticket { forwarded: true, ..self.ticket(id) })
    }

    pub open spec fn with_priority(self, id: int, priority: Priority) -> DbView {
        self.with_ticket(id, Ticket { priority, ..self.ticket(id) })
    }

    /// The assignee `user_id` opens the still open ticket `id`.
    pub open spec fn activates(self, id: int, user_id: Id) -> bool {
        &&& self.has_ticket(id)
        &&& self.ticket(id).status == Status::Open
        &&& self.assignee(self.ticket(id)) == user_id
    }

    /// The comments of a ticket, in the order they were written, with their writers' names.
    pub open spec fn comments_of(self, id: Id) -> Seq<CommentWithNames> {
        self.comments.filter_map(
            |c: Comment|
                if c.ticket_id == id {
                    Some(CommentWithNames { comment: c, creator_name: self.user(c.creator_id as int).name })
                } else {
                    None
                },
        )
    }

    pub open spec fn selects(self, sel: Selection, t: Ticket) -> bool {
        match sel {
            Selection::All => true,
            Selection::Creator(creator_id) => t.creator_id == creator_id,
            Selection::Assignee(assignee_id) => self.assignee(t) == assignee_id,
            Selection::Matching(search) => search_matches(search, t),
        }
    }

    pub open spec fn listing_entry(self, sel: Selection) -> spec_fn(Ticket) -> Option<
        TicketWithNames,
    > {
        |t: Ticket|
            if self.selects(sel, t) {
                Some(self.with_names(t))
            } else {
                None
            }
    }

    /// The selected tickets in id order, with their names.
    pub open spec fn listing(self, sel: Selection) -> Seq<TicketWithNames> {
        self.tickets.filter_map(self.listing_entry(sel))
    }

    pub open spec fn with_user(self, id: int, u: User) -> DbView {
        DbView { users: self.users.update(id - 1, u), ..self }
    }

    pub open spec fn with_course(self, id: int, c: Course) -> DbView {
        DbView { courses: self.courses.update(id - 1, c), ..self }
    }

    /// The course with its author and tutor names.
    pub open spec fn course_with_names(self, c: Course) -> CourseWithNames {
        CourseWithNames {
            course: c,
            author_name: self.user(c.author_id as int).name,
            tutor_name: self.user(c.tutor_id as int).name,
        }
    }

    /// `rels` shows the ticket `id` with its names, its medium and its comments.
    pub open spec fn is_detail(self, id: Id, rels: TicketWithRels) -> bool {
        let names = self.with_names(self.ticket(id as int));
        &&& rels.ticket == names.ticket
        &&& rels.course_name == names.course_name
        &&& rels.creator_name == names.creator_name
        &&& rels.editor_name == names.editor_name
        &&& rels.medium == self.medium(id as int)
        &&& rels.comments@ == self.comments_of(id)
    }

    pub open spec fn user_ok(self, i: int) -> bool {
        self.users[i].id == i + 1
    }

    pub open spec fn course_ok(self, i: int) -> bool {
        &&& self.courses[i].id == i + 1
        &&& self.has_user(self.courses[i].author_id as int)
        &&& self.has_user(self.courses[i].tutor_id as int)
    }

    pub open spec fn ticket_ok(self, i: int) -> bool {
        &&& self.tickets[i].id == i + 1
        &&& self.has_course(self.tickets[i].course_id as int)
        &&& self.has_user(self.tickets[i].creator_id as int)
        &&& self.media[i].ticket_id() == i + 1
        &&& self.media[i].kind() == self.tickets[i].type_.medium_kind()
    }

    pub open spec fn comment_ok(self, i: int) -> bool {
        &&& self.comments[i].id == i + 1
        &&& self.has_ticket(self.comments[i].ticket_id as int)
        &&& self.has_user(self.comments[i].creator_id as int)
    }

    /// The invariant carries over to a store whose tables only grew or had rows replaced, where
    /// every new or replaced row meets the row conditions and usernames stay unique.
    pub proof fn lemma_wf_step(self, next: DbView)
        requires
            self.wf(),
            self.users.len() <= next.users.len() <= MAX_ROWS,
            self.courses.len() <= next.courses.len() <= MAX_ROWS,
            self.tickets.len() <= next.tickets.len() <= MAX_ROWS,
            self.comments.len() <= next.comments.len() <= MAX_ROWS,
            next.media.len() == next.tickets.len(),
            forall|i: int|
                0 <= i < next.users.len() ==> (i < self.users.len() && #[trigger] next.users[i]
                    == self.users[i]) || next.user_ok(i),
            forall|i: int|
                0 <= i < self.users.len() ==> #[trigger] next.users[i].username@
                    == self.users[i].username@,
            forall|i: int, j: int|
                self.users.len() <= i < next.users.len() && 0 <= j < next.users.len() && i != j
                    ==> #[trigger] next.users[i].username@ != #[trigger] next.users[j].username@,
            forall|i: int|
                0 <= i < next.courses.len() ==> (i < self.courses.len() && #[trigger] next.courses[i]
                    == self.courses[i]) || next.course_ok(i),
            forall|i: int|
                0 <= i < next.tickets.len() ==> (i < self.tickets.len() && #[trigger] next.tickets[i]
                    == self.tickets[i] && next.media[i] == self.media[i]) || next.ticket_ok(i),
            forall|i: int|
                0 <= i < next.comments.len() ==> (i < self.comments.len()
                    && #[trigger] next.comments[i] == self.comments[i]) || next.comment_ok(i),
        ensures
            next.wf(),
    {
        assert forall|i: int| 0 <= i < next.users.len() implies #[trigger] next.user_ok(i) by {
            if i < self.users.len() && next.users[i] == self.users[i] {
                assert(self.user_ok(i));
            }
        }
        assert forall|i: int, j: int|
            0 <= i < next.users.len() && 0 <= j < next.users.len() && i != j
                implies #[trigger] next.users[i].username@ != #[trigger] next.users[j].username@ by {
            if i < self.users.len() && j < self.users.len() {
                assert(self.users[i].username@ != self.users[j].username@);
            } else if i < self.users.len() {
                assert(next.users[j].username@ != next.users[i].username@);
            }
        }
        assert forall|i: int| 0 <= i < next.courses.len() implies #[trigger] next.course_ok(i) by {
            if i < self.courses.len() && next.courses[i] == self.courses[i] {
                assert(self.course_ok(i));
            }
        }
        assert forall|i: int| 0 <= i < next.tickets.len() implies #[trigger] next.ticket_ok(i) by {
            if i < self.tickets.len() && next.tickets[i] == self.tickets[i] && next.media[i]
                == self.media[i] {
                assert(self.ticket_ok(i));
            }
        }
        assert forall|i: int| 0 <= i < next.comments.len() implies #[trigger] next.comment_ok(i) by {
            if i < self.comments.len() && next.comments[i] == self.comments[i] {
                assert(self.comment_ok(i));
            }
        }
    }

    /// Ids follow the row positions, every reference names an existing row, usernames are
    /// unique, and each ticket has exactly one medium of the kind that its type asks for.
    pub open spec fn wf(self) -> bool {
        &&& self.users.len() <= MAX_ROWS
        &&& self.courses.len() <= MAX_ROWS
        &&& self.tickets.len() <= MAX_ROWS
        &&& self.comments.len() <= MAX_ROWS
        &&& self.media.len() == self.tickets.len()
        &&& forall|i: int| 0 <= i < self.users.len() ==> #[trigger] self.user_ok(i)
        &&& forall|i: int, j: int|
            0 <= i < self.users.len() && 0 <= j < self.users.len() && i != j
                ==> #[trigger] self.users[i].username@ != #[trigger] self.users[j].username@
        &&& forall|i: int| 0 <= i < self.courses.len() ==> #[trigger] self.course_ok(i)
        &&& forall|i: int| 0 <= i < self.tickets.len() ==> #[trigger] self.ticket_ok(i)
        &&& forall|i: int| 0 <= i < self.comments.len() ==> #[trigger] self.comment_ok(i)
    }
}

/// The store. Its tables are private so that only the operations below change them.
pub struct Database {
    users: Vec<User>,
    courses: Vec<Course>,
    tickets: Vec<Ticket>,
    media: Vec<Medium>,
    comments: Vec<Comment>,
}

impl View for Database {
    type V = DbView;

    closed spec fn view(&self) -> DbView {
        DbView {
            users: self.users@,
            courses: self.courses@,
            tickets: self.tickets@,
            media: self.media@,
            comments: self.comments@,
        }
    }
}

impl Database {
    pub open spec fn wf(&self) -> bool {
        self@.wf()
    }

    /// An empty store.
    pub fn new() -> (r: Database)
        ensures
            r.wf(),
            r@.users.len() == 0,
            r@.courses.len() == 0,
            r@.tickets.len() == 0,
            r@.comments.len() == 0,
    {
        Database {
            users: Vec::new(),
            courses: Vec::new(),
            tickets: Vec::new(),
            media: Vec::new(),
            comments: Vec::new(),
        }
    }

    /// Find a single active user by its id.
    pub fn find(&self, id: Id) -> (r: Result<User, WorkflowError>)
        requires
            self.wf(),
        ensures
            r is Ok <==> (self@.has_user(id as int) && self@.user(id as int).active),
            r is Ok ==> r->Ok_0 == self@.user(id as int),
            r is Err ==> r->Err_0 == WorkflowError::NotFound,
    {
        if 1 <= id && (id as usize) <= self.users.len() {
            let u = &self.users[(id - 1) as usize];
            if u.active {
                return Ok(u.clone());
            }
        }
        Err(WorkflowError::NotFound)
    }

    /// Get a single user by id, whether enabled or not.
    pub fn get_user(&self, id: Id) -> (r: Result<User, WorkflowError>)
        requires
            self.wf(),
        ensures
            r is Ok <==> self@.has_user(id as int),
            r is Ok ==> r->Ok_0 == self@.user(id as int),
            r is Err ==> r->Err_0 == WorkflowError::NotFound,
    {
        if 1 <= id && (id as usize) <= self.users.len() {
            Ok(self.users[(id - 1) as usize].clone())
        } else {
            Err(WorkflowError::NotFound)
        }
    }

    /// Find the user who created a ticket.
    pub fn find_ticket_creator(&self, ticket_id: Id) -> (r: Result<User, WorkflowError>)
        requires
            self.wf(),
        ensures
            r is Ok <==> self@.has_ticket(ticket_id as int),
            r is Ok ==> r->Ok_0 == self@.user(self@.ticket(ticket_id as int).creator_id as int),
            r is Err ==> r->Err_0 == WorkflowError::NotFound,
    {
        if 1 <= ticket_id && (ticket_id as usize) <= self.tickets.len() {
            proof {
                assert(self@.ticket_ok(ticket_id - 1));
            }
            let creator = self.tickets[(ticket_id - 1) as usize].creator_id;
            Ok(self.users[(creator - 1) as usize].clone())
        } else {
            Err(WorkflowError::NotFound)
        }
    }

    /// Add a new user, inactive until activated with its code. Usernames must be unique.
    pub fn create_user(&mut self, user: NewUser) -> (r: Result<Id, WorkflowError>)
        requires
            old(self).wf(),
        ensures
            final(self).wf(),
            r is Ok <==> (old(self)@.users.len() < MAX_ROWS && forall|i: int|
                0 <= i < old(self)@.users.len() ==> #[trigger] old(self)@.users[i].username@
                    != user.username@),
            r is Ok ==> r->Ok_0 == old(self)@.users.len() + 1 && final(self)@ == (DbView {
                users: old(self)@.users.push(
                    User {
                        id: r->Ok_0,
                        username: user.username,
                        password: final(self)@.users.last().password,
                        name: user.name,
                        role: user.role,
                        active: false,
                        code: user.code,
                    },
                ),
                ..old(self)@
            }),
            r is Ok ==> final(self)@.users.last().password@.len() == 0,
            r is Err ==> r->Err_0 == WorkflowError::PersistenceFailure && final(self)@ == old(
                self,
            )@,
    {
        if self.users.len() >= MAX_ROWS {
            return Err(WorkflowError::PersistenceFailure);
        }
        let mut i: usize = 0;
        while i < self.users.len()
            invariant
                self@ == old(self)@,
                self.wf(),
                i <= self.users@.len(),
                forall|k: int| 0 <= k < i ==> #[trigger] self.users@[k].username@
                    != user.username@,
            decreases self.users@.len() - i,
        {
            if self.users[i].username == user.username {
                return Err(WorkflowError::PersistenceFailure);
            }
            i += 1;
        }
        let id = (self.users.len() + 1) as Id;
        let ghost prev = self@;
        self.users.push(
            User {
                id,
                username: user.username,
                password: String::new(),
                name: user.name,
                role: user.role,
                active: false,
                code: user.code,
            },
        );
        proof {
            assert(self@.user_ok(prev.users.len() as int));
            prev.lemma_wf_step(self@);
        }
        Ok(id)
    }

    /// Insert a ticket together with its medium as one unit: either both rows are written or,
    /// when either insert is refused, neither.
    pub fn create_ticket(&mut self, ticket: NewTicket, priority: Priority, medium: NewMedium) -> (r:
        Result<Id, WorkflowError>)
        requires
            old(self).wf(),
        ensures
            final(self).wf(),
            r is Ok <==> old(self)@.accepts_ticket(ticket, medium),
            r is Ok ==> r->Ok_0 == old(self)@.tickets.len() + 1 && final(self)@ == (DbView {
                tickets: old(self)@.tickets.push(DbView::ticket_row(ticket, r->Ok_0, priority)),
                media: old(self)@.media.push(medium.attached(r->Ok_0)),
                ..old(self)@
            }),
            r is Err ==> r->Err_0 == WorkflowError::PersistenceFailure && final(self)@ == old(
                self,
            )@,
    {
        // The ticket row is refused when the ids are used up or a reference is dangling.
        if self.tickets.len() >= MAX_ROWS || !(1 <= ticket.course_id && (ticket.course_id as usize)
            <= self.courses.len()) || !(1 <= ticket.creator_id && (ticket.creator_id as usize)
            <= self.users.len()) {
            return Err(WorkflowError::PersistenceFailure);
        }
        // The medium row is refused when its kind is not the one of the ticket type; the ticket
        // row is then not kept either.
        if medium.medium_type() != ticket.type_.medium() {
            return Err(WorkflowError::PersistenceFailure);
        }
        let id = (self.tickets.len() + 1) as Id;
        let ghost prev = self@;
        self.tickets.push(
            Ticket {
                id,
                type_: ticket.type_,
                title: ticket.title,
                description: ticket.description,
                category: ticket.category,
                priority,
                status: Status::Open,
                course_id: ticket.course_id,
                creator_id: ticket.creator_id,
                forwarded: false,
            },
        );
        self.media.push(medium.attach(id));
        proof {
            assert(self@.ticket_ok(prev.tickets.len() as int));
            prev.lemma_wf_step(self@);
        }
        Ok(id)
    }

    /// Replace a ticket row by one with the same id, type and references.
    fn replace_ticket(&mut self, id: Id, t: Ticket)
        requires
            old(self).wf(),
            old(self)@.has_ticket(id as int),
            t.id == id,
            t.type_ == old(self)@.ticket(id as int).type_,
            t.course_id == old(self)@.ticket(id as int).course_id,
            t.creator_id == old(self)@.ticket(id as int).creator_id,
        ensures
            final(self).wf(),
            final(self)@ == old(self)@.with_ticket(id as int, t),
    {
        let ghost prev = self@;
        self.tickets.set((id - 1) as usize, t);
        proof {
            assert(self@ == prev.with_ticket(id as int, t));
            assert(prev.ticket_ok(id - 1));
            assert(self@.ticket_ok(id - 1));
            prev.lemma_wf_step(self@);
        }
    }

    /// Get a single ticket by id.
    pub fn get(&self, id: Id) -> (r: Result<Ticket, WorkflowError>)
        requires
            self.wf(),
        ensures
            r is Ok <==> self@.has_ticket(id as int),
            r is Ok ==> r->Ok_0 == self@.ticket(id as int),
            r is Err ==> r->Err_0 == WorkflowError::NotFound,
    {
        if 1 <= id && (id as usize) <= self.tickets.len() {
            Ok(self.tickets[(id - 1) as usize].clone())
        } else {
            Err(WorkflowError::NotFound)
        }
    }

    /// Get the current status of a ticket.
    pub fn get_status(&self, id: Id) -> (r: Result<Status, WorkflowError>)
        requires
            self.wf(),
        ensures
            r is Ok <==> self@.has_ticket(id as int),
            r is Ok ==> r->Ok_0 == self@.ticket(id as int).status,
            r is Err ==> r->Err_0 == WorkflowError::NotFound,
    {
        if 1 <= id && (id as usize) <= self.tickets.len() {
            Ok(self.tickets[(id - 1) as usize].status)
        } else {
            Err(WorkflowError::NotFound)
        }
    }

    /// Set the status of a ticket.
    pub fn set_status(&mut self, id: Id, status: Status) -> (r: Result<(), WorkflowError>)
        requires
            old(self).wf(),
        ensures
            final(self).wf(),
            r is Ok <==> old(self)@.has_ticket(id as int),
            r is Ok ==> final(self)@ == old(self)@.with_status(id as int, status),
            r is Err ==> r->Err_0 == WorkflowError::NotFound && final(self)@ == old(self)@,
    {
        if 1 <= id && (id as usize) <= self.tickets.len() {
            proof {
                assert(self@.ticket_ok(id - 1));
            }
            let mut t = self.tickets[(id - 1) as usize].clone();
            t.status = status;
            self.replace_ticket(id, t);
            Ok(())
        } else {
            Err(WorkflowError::NotFound)
        }
    }

    /// Forward a ticket to its course's author.
    pub fn forward(&mut self, id: Id) -> (r: Result<(), WorkflowError>)
        requires
            old(self).wf(),
        ensures
            final(self).wf(),
            r is Ok <==> old(self)@.has_ticket(id as int),
            r is Ok ==> final(self)@ == old(self)@.with_forwarded(id as int),
            r is Err ==> r->Err_0 == WorkflowError::NotFound && final(self)@ == old(self)@,
    {
        if 1 <= id && (id as usize) <= self.tickets.len() {
            proof {
                assert(self@.ticket_ok(id - 1));
            }
            let mut t = self.tickets[(id - 1) as usize].clone();
            t.forwarded = true;
            self.replace_ticket(id, t);
            Ok(())
        } else {
            Err(WorkflowError::NotFound)
        }
    }

    /// Override the priority of a ticket.
    pub fn update(&mut self, edit: EditTicket) -> (r: Result<(), WorkflowError>)
        requires
            old(self).wf(),
        ensures
            final(self).wf(),
            r is Ok <==> old(self)@.has_ticket(edit.id as int),
            r is Ok ==> final(self)@ == old(self)@.with_priority(edit.id as int, edit.priority),
            r is Err ==> r->Err_0 == WorkflowError::NotFound && final(self)@ == old(self)@,
    {
        let id = edit.id;
        if 1 <= id && (id as usize) <= self.tickets.len() {
            proof {
                assert(self@.ticket_ok(id - 1));
            }
            let mut t = self.tickets[(id - 1) as usize].clone();
            t.priority = edit.priority;
            self.replace_ticket(id, t);
            Ok(())
        } else {
            Err(WorkflowError::NotFound)
        }
    }

    /// Move a ticket from `Open` to `InProgress` when `user_id` is its assignee: the
    /// course's tutor, or its author once the ticket was forwarded. Otherwise nothing changes.
    pub fn activate_ticket(&mut self, id: Id, user_id: Id) -> (r: bool)
        requires
            old(self).wf(),
        ensures
            final(self).wf(),
            r == old(self)@.activates(id as int, user_id),
            r ==> final(self)@ == old(self)@.with_status(id as int, Status::InProgress),
            !r ==> final(self)@ == old(self)@,
    {
        if !(1 <= id && (id as usize) <= self.tickets.len()) {
            return false;
        }
        proof {
            assert(self@.ticket_ok(id - 1));
        }
        let t = &self.tickets[(id - 1) as usize];
        let course = &self.courses[(t.course_id - 1) as usize];
        let assignee = if t.forwarded {
            course.author_id
        } else {
            course.tutor_id
        };
        if t.status == Status::Open && assignee == user_id {
            let mut t = t.clone();
            t.status = Status::InProgress;
            self.replace_ticket(id, t);
            true
        } else {
            false
        }
    }

    /// Check whether `user_id` created the ticket `id`.
    pub fn is_creator(&self, id: Id, user_id: Id) -> (r: bool)
        requires
            self.wf(),
        ensures
            r == (self@.has_ticket(id as int) && self@.ticket(id as int).creator_id == user_id),
    {
        1 <= id && (id as usize) <= self.tickets.len() && self.tickets[(id - 1) as usize].creator_id
            == user_id
    }

    /// Append a comment to a ticket. The ticket and the writer must exist.
    pub fn add_comment(&mut self, comment: NewComment) -> (r: Result<Id, WorkflowError>)
        requires
            old(self).wf(),
        ensures
            final(self).wf(),
            r is Ok <==> (old(self)@.comments.len() < MAX_ROWS && old(self)@.has_ticket(
                comment.ticket_id as int,
            ) && old(self)@.has_user(comment.creator_id as int)),
            r is Ok ==> r->Ok_0 == old(self)@.comments.len() + 1 && final(self)@ == (DbView {
                comments: old(self)@.comments.push(
                    Comment {
                        id: r->Ok_0,
                        ticket_id: comment.ticket_id,
                        creator_id: comment.creator_id,
                        timestamp: comment.timestamp,
                        message: comment.message,
                    },
                ),
                ..old(self)@
            }),
            r is Err ==> r->Err_0 == WorkflowError::PersistenceFailure && final(self)@ == old(
                self,
            )@,
    {
        if self.comments.len() >= MAX_ROWS || !(1 <= comment.ticket_id && (comment.ticket_id as usize)
            <= self.tickets.len()) || !(1 <= comment.creator_id && (comment.creator_id as usize)
            <= self.users.len()) {
            return Err(WorkflowError::PersistenceFailure);
        }
        let id = (self.comments.len() + 1) as Id;
        let ghost prev = self@;
        self.comments.push(
            Comment {
                id,
                ticket_id: comment.ticket_id,
                creator_id: comment.creator_id,
                timestamp: comment.timestamp,
                message: comment.message,
            },
        );
        proof {
            assert(self@.comment_ok(prev.comments.len() as int));
            prev.lemma_wf_step(self@);
        }
        Ok(id)
    }

    fn assignee_of(&self, t: &Ticket) -> (r: Id)
        requires
            self.wf(),
            self@.has_course(t.course_id as int),
        ensures
            r == self@.assignee(*t),
    {
        let course = &self.courses[(t.course_id - 1) as usize];
        if t.forwarded {
            course.author_id
        } else {
            course.tutor_id
        }
    }

    fn names_of(&self, t: &Ticket) -> (r: TicketWithNames)
        requires
            self.wf(),
            self@.has_course(t.course_id as int),
            self@.has_user(t.creator_id as int),
        ensures
            r == self@.with_names(*t),
    {
        proof {
            assert(self@.course_ok(t.course_id - 1));
        }
        let course = &self.courses[(t.course_id - 1) as usize];
        let editor = self.assignee_of(t);
        TicketWithNames {
            ticket: t.clone(),
            course_name: course.code.clone(),
            creator_name: self.users[(t.creator_id - 1) as usize].name.clone(),
            editor_name: self.users[(editor - 1) as usize].name.clone(),
        }
    }

    fn selects(&self, sel: &Selection, t: &Ticket) -> (r: bool)
        requires
            self.wf(),
            self@.has_course(t.course_id as int),
        ensures
            r == self@.selects(*sel, *t),
    {
        match sel {
            Selection::All => true,
            Selection::Creator(creator_id) => t.creator_id == *creator_id,
            Selection::Assignee(assignee_id) => self.assignee_of(t) == *assignee_id,
            Selection::Matching(search) => {
                let title_ok = match &search.title {
                    Some(title) => contains_text(t.title.as_str(), title.as_str()),
                    None => true,
                };
                let course_ok = match search.course_id {
                    Some(course_id) => t.course_id == course_id,
                    None => true,
                };
                let category_ok = match search.category {
                    Some(category) => t.category == category,
                    None => true,
                };
                let priority_ok = match search.priority {
                    Some(priority) => t.priority == priority,
                    None => true,
                };
                let status_ok = match search.status {
                    Some(status) => t.status == status,
                    None => true,
                };
                title_ok && course_ok && category_ok && priority_ok && status_ok
            },
        }
    }

    /// List the selected tickets in id order, with course, creator and editor names.
    pub fn list(&self, sel: &Selection) -> (r: Vec<TicketWithNames>)
        requires
            self.wf(),
        ensures
            r@ == self@.listing(*sel),
    {
        let ghost f = self@.listing_entry(*sel);
        let mut out: Vec<TicketWithNames> = Vec::new();
        let mut i: usize = 0;
        while i < self.tickets.len()
            invariant
                self.wf(),
                f == self@.listing_entry(*sel),
                i <= self@.tickets.len(),
                out@ == self@.tickets.take(i as int).filter_map(f),
            decreases self@.tickets.len() - i,
        {
            proof {
                self@.tickets.lemma_filter_map_take_succ(f, i as int);
                assert(self@.ticket_ok(i as int));
            }
            let t = &self.tickets[i];
            if self.selects(sel, t) {
                out.push(self.names_of(t));
            }
            i += 1;
        }
        proof {
            assert(self@.tickets.take(i as int) =~= self@.tickets);
        }
        out
    }

    /// Get a single ticket with course, creator and editor names.
    pub fn get_with_names(&self, id: Id) -> (r: Result<TicketWithNames, WorkflowError>)
        requires
            self.wf(),
        ensures
            r is Ok <==> self@.has_ticket(id as int),
            r is Ok ==> r->Ok_0 == self@.with_names(self@.ticket(id as int)),
            r is Err ==> r->Err_0 == WorkflowError::NotFound,
    {
        if 1 <= id && (id as usize) <= self.tickets.len() {
            proof {
                assert(self@.ticket_ok(id - 1));
            }
            Ok(self.names_of(&self.tickets[(id - 1) as usize]))
        } else {
            Err(WorkflowError::NotFound)
        }
    }

    /// Get a single ticket with its names, its medium and its comments.
    pub fn get_with_rels(&self, id: Id) -> (r: Result<TicketWithRels, WorkflowError>)
        requires
            self.wf(),
        ensures
            r is Ok <==> self@.has_ticket(id as int),
            r is Ok ==> self@.is_detail(id, r->Ok_0),
            r is Err ==> r->Err_0 == WorkflowError::NotFound,
    {
        if !(1 <= id && (id as usize) <= self.tickets.len()) {
            return Err(WorkflowError::NotFound);
        }
        proof {
            assert(self@.ticket_ok(id - 1));
        }
        let names = self.names_of(&self.tickets[(id - 1) as usize]);
        let medium = self.media[(id - 1) as usize].clone();
        let ghost f = |c: Comment|
            if c.ticket_id == id {
                Some(CommentWithNames { comment: c, creator_name: self@.user(c.creator_id as int).name })
            } else {
                None
            };
        let mut comments: Vec<CommentWithNames> = Vec::new();
        let mut i: usize = 0;
        while i < self.comments.len()
            invariant
                self.wf(),
                f == (|c: Comment|
                    if c.ticket_id == id {
                        Some(CommentWithNames { comment: c, creator_name: self@.user(c.creator_id as int).name })
                    } else {
                        None
                    }),
                i <= self@.comments.len(),
                comments@ == self@.comments.take(i as int).filter_map(f),
            decreases self@.comments.len() - i,
        {
            proof {
                self@.comments.lemma_filter_map_take_succ(f, i as int);
                assert(self@.comment_ok(i as int));
            }
            let c = &self.comments[i];
            if c.ticket_id == id {
                comments.push(
                    CommentWithNames {
                        comment: c.clone(),
                        creator_name: self.users[(c.creator_id - 1) as usize].name.clone(),
                    },
                );
            }
            i += 1;
        }
        proof {
            assert(self@.comments.take(i as int) =~= self@.comments);
        }
        Ok(
            TicketWithRels {
                ticket: names.ticket,
                course_name: names.course_name,
                creator_name: names.creator_name,
                editor_name: names.editor_name,
                medium,
                comments,
            },
        )
    }

    /// Replace a user row by one with the same id and username.
    fn replace_user(&mut self, id: Id, u: User)
        requires
            old(self).wf(),
            old(self)@.has_user(id as int),
            u.id == id,
            u.username == old(self)@.user(id as int).username,
        ensures
            final(self).wf(),
            final(self)@ == old(self)@.with_user(id as int, u),
    {
        let ghost prev = self@;
        self.users.set((id - 1) as usize, u);
        proof {
            assert(self@ == prev.with_user(id as int, u));
            assert(self@.user_ok(id - 1));
            prev.lemma_wf_step(self@);
        }
    }

    /// Replace a course row by one with the same id whose author and tutor exist.
    fn replace_course(&mut self, id: Id, c: Course)
        requires
            old(self).wf(),
            old(self)@.has_course(id as int),
            c.id == id,
            old(self)@.has_user(c.author_id as int),
            old(self)@.has_user(c.tutor_id as int),
        ensures
            final(self).wf(),
            final(self)@ == old(self)@.with_course(id as int, c),
    {
        let ghost prev = self@;
        self.courses.set((id - 1) as usize, c);
        proof {
            assert(self@ == prev.with_course(id as int, c));
            assert(self@.course_ok(id - 1));
            prev.lemma_wf_step(self@);
        }
    }

    /// Find the active user with a username.
    pub fn find_by_username(&self, username: &str) -> (r: Result<User, WorkflowError>)
        requires
            self.wf(),
        ensures
            r is Ok <==> exists|i: int|
                0 <= i < self@.users.len() && #[trigger] self@.users[i].username@ == username@
                    && self@.users[i].active,
            r is Ok ==> self@.users.contains(r->Ok_0) && r->Ok_0.username@ == username@
                && r->Ok_0.active,
            r is Err ==> r->Err_0 == WorkflowError::NotFound,
    {
        let wanted = username.to_owned();
        let mut i: usize = 0;
        while i < self.users.len()
            invariant
                wanted@ == username@,
                i <= self@.users.len(),
                forall|k: int|
                    0 <= k < i ==> !(#[trigger] self@.users[k].username@ == username@
                        && self@.users[k].active),
            decreases self@.users.len() - i,
        {
            let u = &self.users[i];
            if u.active && u.username == wanted {
                return Ok(u.clone());
            }
            i += 1;
        }
        Err(WorkflowError::NotFound)
    }

    /// Activate the user holding `code`: store the password hash, enable the account and clear
    /// the code. Exactly one user must hold the code.
    pub fn activate_user(&mut self, code: &str, password: String) -> (r: Result<(), WorkflowError>)
        requires
            old(self).wf(),
        ensures
            final(self).wf(),
            r is Ok <==> exists|i: int|
                0 <= i < old(self)@.users.len() && #[trigger] old(self)@.users[i].code@ == code@
                    && (forall|j: int|
                    0 <= j < old(self)@.users.len() && #[trigger] old(self)@.users[j].code@
                        == code@ ==> j == i),
            r is Ok ==> exists|i: int|
                0 <= i < old(self)@.users.len() && #[trigger] old(self)@.users[i].code@ == code@
                    && final(self)@.users.len() == old(self)@.users.len()
                    && final(self)@ == old(self)@.with_user(
                    i + 1,
                    User {
                        password,
                        active: true,
                        code: final(self)@.users[i].code,
                        ..old(self)@.users[i]
                    },
                ) && final(self)@.users[i].code@.len() == 0,
            r is Err ==> r->Err_0 == WorkflowError::NotFound && final(self)@ == old(self)@,
    {
        let wanted = code.to_owned();
        let mut found: Option<usize> = None;
        let mut i: usize = 0;
        while i < self.users.len()
            invariant
                wanted@ == code@,
                self@ == old(self)@,
                self.wf(),
                i <= self@.users.len(),
                match found {
                    Some(k) => k < i && self@.users[k as int].code@ == code@ && forall|j: int|
                        0 <= j < i && #[trigger] self@.users[j].code@ == code@ ==> j == k,
                    None => forall|j: int| 0 <= j < i ==> #[trigger] self@.users[j].code@ != code@,
                },
            decreases self@.users.len() - i,
        {
            if self.users[i].code == wanted {
                if found.is_some() {
                    proof {
                        let k = found->Some_0 as int;
                        assert forall|m: int|
                            0 <= m < self@.users.len() && #[trigger] self@.users[m].code@
                                == code@ implies !(forall|j: int|
                            0 <= j < self@.users.len() && #[trigger] self@.users[j].code@
                                == code@ ==> j == m) by {
                            if m == k {
                                assert(self@.users[i as int].code@ == code@);
                            } else {
                                assert(self@.users[k].code@ == code@);
                            }
                        }
                    }
                    return Err(WorkflowError::NotFound);
                }
                found = Some(i);
            }
            i += 1;
        }
        match found {
            Some(k) => {
                proof {
                    assert(self@.user_ok(k as int));
                }
                let mut u = self.users[k].clone();
                u.password = password;
                u.active = true;
                u.code = String::new();
                self.replace_user((k + 1) as Id, u);
                Ok(())
            },
            None => Err(WorkflowError::NotFound),
        }
    }

    /// Enable or disable a user.
    pub fn enable_user(&mut self, id: Id, enable: bool) -> (r: Result<(), WorkflowError>)
        requires
            old(self).wf(),
        ensures
            final(self).wf(),
            r is Ok <==> old(self)@.has_user(id as int),
            r is Ok ==> final(self)@ == old(self)@.with_user(
                id as int,
                User { active: enable, ..old(self)@.user(id as int) },
            ),
            r is Err ==> r->Err_0 == WorkflowError::NotFound && final(self)@ == old(self)@,
    {
        if 1 <= id && (id as usize) <= self.users.len() {
            proof {
                assert(self@.user_ok(id - 1));
            }
            let mut u = self.users[(id - 1) as usize].clone();
            u.active = enable;
            self.replace_user(id, u);
            Ok(())
        } else {
            Err(WorkflowError::NotFound)
        }
    }

    /// Change the name and role of a user.
    pub fn update_user(&mut self, edit: EditUser) -> (r: Result<(), WorkflowError>)
        requires
            old(self).wf(),
        ensures
            final(self).wf(),
            r is Ok <==> old(self)@.has_user(edit.id as int),
            r is Ok ==> final(self)@ == old(self)@.with_user(
                edit.id as int,
                User { name: edit.name, role: edit.role, ..old(self)@.user(edit.id as int) },
            ),
            r is Err ==> r->Err_0 == WorkflowError::NotFound && final(self)@ == old(self)@,
    {
        let id = edit.id;
        if 1 <= id && (id as usize) <= self.users.len() {
            proof {
                assert(self@.user_ok(id - 1));
            }
            let mut u = self.users[(id - 1) as usize].clone();
            u.name = edit.name;
            u.role = edit.role;
            self.replace_user(id, u);
            Ok(())
        } else {
            Err(WorkflowError::NotFound)
        }
    }

    /// List all users in id order.
    pub fn list_users(&self) -> (r: Vec<User>)
        requires
            self.wf(),
        ensures
            r@ == self@.users,
    {
        let mut out: Vec<User> = Vec::new();
        let mut i: usize = 0;
        while i < self.users.len()
            invariant
                i <= self@.users.len(),
                out@ == self@.users.take(i as int),
            decreases self@.users.len() - i,
        {
            out.push(self.users[i].clone());
            i += 1;
            proof {
                assert(out@ =~= self@.users.take(i as int));
            }
        }
        proof {
            assert(self@.users.take(i as int) =~= self@.users);
        }
        out
    }

    /// List the id and name of every user with a role, in id order.
    pub fn list_names_by_role(&self, role: Role) -> (r: Vec<(Id, String)>)
        requires
            self.wf(),
        ensures
            r@ == self@.users.filter_map(
                |u: User|
                    if u.role == role {
                        Some((u.id, u.name))
                    } else {
                        None
                    },
            ),
    {
        let ghost f = |u: User|
            if u.role == role {
                Some((u.id, u.name))
            } else {
                None
            };
        let mut out: Vec<(Id, String)> = Vec::new();
        let mut i: usize = 0;
        while i < self.users.len()
            invariant
                i <= self@.users.len(),
                f == (|u: User|
                    if u.role == role {
                        Some((u.id, u.name))
                    } else {
                        None
                    }),
                out@ == self@.users.take(i as int).filter_map(f),
            decreases self@.users.len() - i,
        {
            proof {
                self@.users.lemma_filter_map_take_succ(f, i as int);
            }
            let u = &self.users[i];
            if u.role == role {
                out.push((u.id, u.name.clone()));
            }
            i += 1;
        }
        proof {
            assert(self@.users.take(i as int) =~= self@.users);
        }
        out
    }

    /// Add a new course, active from the start. Its author and tutor must exist.
    pub fn create_course(&mut self, course: NewCourse) -> (r: Result<Id, WorkflowError>)
        requires
            old(self).wf(),
        ensures
            final(self).wf(),
            r is Ok <==> (old(self)@.courses.len() < MAX_ROWS && old(self)@.has_user(
                course.author_id as int,
            ) && old(self)@.has_user(course.tutor_id as int)),
            r is Ok ==> r->Ok_0 == old(self)@.courses.len() + 1 && final(self)@ == (DbView {
                courses: old(self)@.courses.push(
                    Course {
                        id: r->Ok_0,
                        code: course.code,
                        title: course.title,
                        author_id: course.author_id,
                        tutor_id: course.tutor_id,
                        active: true,
                    },
                ),
                ..old(self)@
            }),
            r is Err ==> r->Err_0 == WorkflowError::PersistenceFailure && final(self)@ == old(
                self,
            )@,
    {
        if self.courses.len() >= MAX_ROWS || !(1 <= course.author_id && (course.author_id as usize)
            <= self.users.len()) || !(1 <= course.tutor_id && (course.tutor_id as usize)
            <= self.users.len()) {
            return Err(WorkflowError::PersistenceFailure);
        }
        let id = (self.courses.len() + 1) as Id;
        let ghost prev = self@;
        self.courses.push(
            Course {
                id,
                code: course.code,
                title: course.title,
                author_id: course.author_id,
                tutor_id: course.tutor_id,
                active: true,
            },
        );
        proof {
            assert(self@.course_ok(prev.courses.len() as int));
            prev.lemma_wf_step(self@);
        }
        Ok(id)
    }

    /// Get a single course by id.
    pub fn get_course(&self, id: Id) -> (r: Result<Course, WorkflowError>)
        requires
            self.wf(),
        ensures
            r is Ok <==> self@.has_course(id as int),
            r is Ok ==> r->Ok_0 == self@.course(id as int),
            r is Err ==> r->Err_0 == WorkflowError::NotFound,
    {
        if 1 <= id && (id as usize) <= self.courses.len() {
            Ok(self.courses[(id - 1) as usize].clone())
        } else {
            Err(WorkflowError::NotFound)
        }
    }

    /// Enable or disable a course.
    pub fn enable_course(&mut self, id: Id, enable: bool) -> (r: Result<(), WorkflowError>)
        requires
            old(self).wf(),
        ensures
            final(self).wf(),
            r is Ok <==> old(self)@.has_course(id as int),
            r is Ok ==> final(self)@ == old(self)@.with_course(
                id as int,
                Course { active: enable, ..old(self)@.course(id as int) },
            ),
            r is Err ==> r->Err_0 == WorkflowError::NotFound && final(self)@ == old(self)@,
    {
        if 1 <= id && (id as usize) <= self.courses.len() {
            proof {
                assert(self@.course_ok(id - 1));
            }
            let mut c = self.courses[(id - 1) as usize].clone();
            c.active = enable;
            self.replace_course(id, c);
            Ok(())
        } else {
            Err(WorkflowError::NotFound)
        }
    }

    /// Change the title, author and tutor of a course. The new author and tutor must exist.
    pub fn update_course(&mut self, edit: EditCourse) -> (r: Result<(), WorkflowError>)
        requires
            old(self).wf(),
        ensures
            final(self).wf(),
            !old(self)@.has_course(edit.id as int) ==> r == Err::<(), WorkflowError>(
                WorkflowError::NotFound,
            ),
            old(self)@.has_course(edit.id as int) && !(old(self)@.has_user(edit.author_id as int)
                && old(self)@.has_user(edit.tutor_id as int)) ==> r == Err::<(), WorkflowError>(
                WorkflowError::PersistenceFailure,
            ),
            r is Ok <==> (old(self)@.has_course(edit.id as int) && old(self)@.has_user(
                edit.author_id as int,
            ) && old(self)@.has_user(edit.tutor_id as int)),
            r is Ok ==> final(self)@ == old(self)@.with_course(
                edit.id as int,
                Course {
                    title: edit.title,
                    author_id: edit.author_id,
                    tutor_id: edit.tutor_id,
                    ..old(self)@.course(edit.id as int)
                },
            ),
            r is Err ==> final(self)@ == old(self)@,
    {
        let id = edit.id;
        if !(1 <= id && (id as usize) <= self.courses.len()) {
            return Err(WorkflowError::NotFound);
        }
        if !(1 <= edit.author_id && (edit.author_id as usize) <= self.users.len()) || !(1
            <= edit.tutor_id && (edit.tutor_id as usize) <= self.users.len()) {
            return Err(WorkflowError::PersistenceFailure);
        }
        proof {
            assert(self@.course_ok(id - 1));
        }
        let mut c = self.courses[(id - 1) as usize].clone();
        c.title = edit.title;
        c.author_id = edit.author_id;
        c.tutor_id = edit.tutor_id;
        self.replace_course(id, c);
        Ok(())
    }

    /// List all courses in id order with their author and tutor names.
    pub fn list_courses(&self) -> (r: Vec<CourseWithNames>)
        requires
            self.wf(),
        ensures
            r@ == self@.courses.map_values(|c: Course| self@.course_with_names(c)),
    {
        let ghost f = |c: Course| self@.course_with_names(c);
        let mut out: Vec<CourseWithNames> = Vec::new();
        let mut i: usize = 0;
        while i < self.courses.len()
            invariant
                self.wf(),
                i <= self@.courses.len(),
                f == (|c: Course| self@.course_with_names(c)),
                out@ == self@.courses.take(i as int).map_values(f),
            decreases self@.courses.len() - i,
        {
            proof {
                assert(self@.course_ok(i as int));
            }
            let c = &self.courses[i];
            out.push(
                CourseWithNames {
                    course: c.clone(),
                    author_name: self.users[(c.author_id - 1) as usize].name.clone(),
                    tutor_name: self.users[(c.tutor_id - 1) as usize].name.clone(),
                },
            );
            i += 1;
            proof {
                assert(out@ =~= self@.courses.take(i as int).map_values(f));
            }
        }
        proof {
            assert(self@.courses.take(i as int) =~= self@.courses);
        }
        out
    }

    /// List the id and code of every course, in id order.
    pub fn list_course_names(&self) -> (r: Vec<(Id, String)>)
        requires
            self.wf(),
        ensures
            r@ == self@.courses.map_values(|c: Course| (c.id, c.code)),
    {
        let ghost f = |c: Course| (c.id, c.code);
        let mut out: Vec<(Id, String)> = Vec::new();
        let mut i: usize = 0;
        while i < self.courses.len()
            invariant
                i <= self@.courses.len(),
                f == (|c: Course| (c.id, c.code)),
                out@ == self@.courses.take(i as int).map_values(f),
            decreases self@.courses.len() - i,
        {
            let c = &self.courses[i];
            out.push((c.id, c.code.clone()));
            i += 1;
            proof {
                assert(out@ =~= self@.courses.take(i as int).map_values(f));
            }
        }
        proof {
            assert(self@.courses.take(i as int) =~= self@.courses);
        }
        out
    }
}

} // verus!
