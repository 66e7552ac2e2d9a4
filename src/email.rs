//! Notification mails: what they hold, how they are worded, and how they are handed to a sender.

use vstd::prelude::*;

use crate::models::{Id, Status};

verus! {

/// The decimal digits of a natural number, most significant first.
pub open spec fn digits(n: nat) -> Seq<char>
    decreases n,
{
    if n < 10 {
        seq![digit_char(n)]
    } else {
        digits(n / 10) + seq![digit_char(n % 10)]
    }
}

pub open spec fn digit_char(d: nat) -> char {
    if d == 0 { '0' }
    else if d == 1 { '1' }
    else if d == 2 { '2' }
    else if d == 3 { '3' }
    else if d == 4 { '4' }
    else if d == 5 { '5' }
    else if d == 6 { '6' }
    else if d == 7 { '7' }
    else if d == 8 { '8' }
    else { '9' }
}

/// The decimal text of an integer, with a leading `-` when negative.
pub open spec fn decimal_text(n: int) -> Seq<char> {
    if n < 0 {
        seq!['-'] + digits((-n) as nat)
    } else {
        digits(n as nat)
    }
}

pub(crate) fn digit_str(d: u32) -> (r: &'static str)
    requires
        d < 10,
    ensures
        r@ == seq![digit_char(d as nat)],
{
    let r = if d == 0 { "0" }
    else if d == 1 { "1" }
    else if d == 2 { "2" }
    else if d == 3 { "3" }
    else if d == 4 { "4" }
    else if d == 5 { "5" }
    else if d == 6 { "6" }
    else if d == 7 { "7" }
    else if d == 8 { "8" }
    else { "9" };
    proof {
        reveal_strlit("0");
        reveal_strlit("1");
        reveal_strlit("2");
        reveal_strlit("3");
        reveal_strlit("4");
        reveal_strlit("5");
        reveal_strlit("6");
        reveal_strlit("7");
        reveal_strlit("8");
        reveal_strlit("9");
    }
    r
}

fn push_digits(out: &mut String, n: u32)
    ensures
        final(out)@ == old(out)@ + digits(n as nat),
    decreases n,
{
    if n < 10 {
        out.append(digit_str(n));
    } else {
        push_digits(out, n / 10);
        out.append(digit_str(n % 10));
        proof {
            assert(old(out)@ + digits((n / 10) as nat) + seq![digit_char((n % 10) as nat)]
                =~= old(out)@ + digits(n as nat));
        }
    }
}

/// Append the decimal text of `n` to `out`.
pub fn push_decimal(out: &mut String, n: i32)
    ensures
        final(out)@ == old(out)@ + decimal_text(n as int),
{
    if n < 0 {
        out.append("-");
        proof {
            reveal_strlit("-");
        }
        let m: u32 = if n == i32::MIN { 2147483648u32 } else { (-n) as u32 };
        push_digits(out, m);
        proof {
            assert(old(out)@ + seq!['-'] + digits(m as nat) =~= old(out)@ + decimal_text(n as int));
        }
    } else {
        push_digits(out, n as u32);
    }
}

/// A single mail to one recipient with subject and plain text message. Addresses are pairs of
/// mail address and display name.
pub struct Mail {
    pub from: (String, String),
    pub to: (String, String),
    pub subject: String,
    pub message: String,
}

/// Details for the mail about a status change of a ticket.
pub struct StatusDetails {
    pub ticket_title: String,
    pub ticket_id: Id,
    pub old_status: Status,
    pub new_status: Status,
}

/// Details for the mail about a new comment on a ticket.
pub struct CommentDetails {
    pub ticket_title: String,
    pub ticket_id: Id,
    pub comment: String,
    pub writer_name: String,
}

/// The sender shown on every notification.
pub open spec fn sender_address() -> (Seq<char>, Seq<char>) {
    ("amelio@dnaka91.rocks"@, "Amelio"@)
}

/// The mail address of a user: the username at the university's domain.
pub open spec fn mail_address(username: Seq<char>) -> Seq<char> {
    username + "@iubh-fernstudium.de"@
}

pub open spec fn greeting(name: Seq<char>) -> Seq<char> {
    "Hallo "@ + name + ",\n\n"@
}

pub open spec fn closing() -> Seq<char> {
    "\n\nViele Gr\u{00fc}\u{00df}e,\nDein Amelio-Team"@
}

pub open spec fn ticket_link(host: Seq<char>, id: Id) -> Seq<char> {
    "\n\nDu kannst dein Ticket jederzeit unter folgendem Link einsehen:\n"@ + host + "/tickets/"@
        + decimal_text(id as int)
}

pub open spec fn invitation_subject() -> Seq<char> {
    "Amelio Registrierung"@
}

pub open spec fn invitation_body(host: Seq<char>, name: Seq<char>, code: Seq<char>) -> Seq<char> {
    greeting(name) + "Willkommen bei Amelio!\n\nBitte clicke auf den folgenden Link um Deinen Account zu aktivieren:\n"@
        + host + "/activate/"@ + code + closing()
}

pub open spec fn status_subject() -> Seq<char> {
    "Status\u{00e4}nderung Deines Tickets"@
}

pub open spec fn status_body(host: Seq<char>, name: Seq<char>, d: StatusDetails) -> Seq<char> {
    greeting(name) + "Der Status Deines Tickets \""@ + d.ticket_title@ + "\" wurde soeben von "@
        + d.old_status.german_text() + " zu "@ + d.new_status.german_text() + " ge\u{00e4}ndert."@
        + ticket_link(host, d.ticket_id) + closing()
}

pub open spec fn comment_subject() -> Seq<char> {
    "Neuer Kommentar f\u{00fc}r Dein Ticket"@
}

pub open spec fn comment_body(host: Seq<char>, name: Seq<char>, d: CommentDetails) -> Seq<char> {
    greeting(name) + "Deinem Ticket \""@ + d.ticket_title@ + "\" wurde soeben ein neuer Komentar von "@
        + d.writer_name@ + " hinzugef\u{00fc}gt:\n\n"@ + d.comment@ + ticket_link(host, d.ticket_id)
        + closing()
}

/// Creates the subject and body of the notification mails. Links point below `host`.
pub struct MailRenderer {
    pub host: String,
}

/// Create a mail renderer for links below `host`.
pub fn new_mail_renderer(host: &str) -> (r: MailRenderer)
    ensures
        r.host@ == host@,
{
    MailRenderer { host: host.to_owned() }
}

impl MailRenderer {
    /// The invitation for activating a new account with `code`.
    pub fn invitation(&self, name: &str, code: &str) -> (r: (String, String))
        ensures
            r.0@ == invitation_subject(),
            r.1@ == invitation_body(self.host@, name@, code@),
    {
        let mut body = String::from_str("Hallo ");
        body.append(name);
        body.append(",\n\n");
        body.append(
            "Willkommen bei Amelio!\n\nBitte clicke auf den folgenden Link um Deinen Account zu aktivieren:\n",
        );
        body.append(self.host.as_str());
        body.append("/activate/");
        body.append(code);
        body.append("\n\nViele Gr\u{00fc}\u{00df}e,\nDein Amelio-Team");
        proof {
            assert(body@ =~= invitation_body(self.host@, name@, code@));
        }
        (String::from_str("Amelio Registrierung"), body)
    }

    fn push_link(&self, body: &mut String, id: Id)
        ensures
            final(body)@ == old(body)@ + ticket_link(self.host@, id) + closing(),
    {
        body.append("\n\nDu kannst dein Ticket jederzeit unter folgendem Link einsehen:\n");
        body.append(self.host.as_str());
        body.append("/tickets/");
        push_decimal(body, id);
        body.append("\n\nViele Gr\u{00fc}\u{00df}e,\nDein Amelio-Team");
        proof {
            assert(final(body)@ =~= old(body)@ + ticket_link(self.host@, id) + closing());
        }
    }

    /// The mail about a status change of a ticket, addressed to `name`.
    pub fn status_change(&self, name: &str, details: &StatusDetails) -> (r: (String, String))
        ensures
            r.0@ == status_subject(),
            r.1@ == status_body(self.host@, name@, *details),
    {
        let mut body = String::from_str("Hallo ");
        body.append(name);
        body.append(",\n\n");
        body.append("Der Status Deines Tickets \"");
        body.append(details.ticket_title.as_str());
        body.append("\" wurde soeben von ");
        body.append(details.old_status.german_name());
        body.append(" zu ");
        body.append(details.new_status.german_name());
        body.append(" ge\u{00e4}ndert.");
        self.push_link(&mut body, details.ticket_id);
        proof {
            assert(body@ =~= status_body(self.host@, name@, *details));
        }
        (String::from_str("Status\u{00e4}nderung Deines Tickets"), body)
    }

    /// The mail about a new comment on a ticket, addressed to `name`.
    pub fn new_comment(&self, name: &str, details: &CommentDetails) -> (r: (String, String))
        ensures
            r.0@ == comment_subject(),
            r.1@ == comment_body(self.host@, name@, *details),
    {
        let mut body = String::from_str("Hallo ");
        body.append(name);
        body.append(",\n\n");
        body.append("Deinem Ticket \"");
        body.append(details.ticket_title.as_str());
        body.append("\" wurde soeben ein neuer Komentar von ");
        body.append(details.writer_name.as_str());
        body.append(" hinzugef\u{00fc}gt:\n\n");
        body.append(details.comment.as_str());
        self.push_link(&mut body, details.ticket_id);
        proof {
            assert(body@ =~= comment_body(self.host@, name@, *details));
        }
        (String::from_str("Neuer Kommentar f\u{00fc}r Dein Ticket"), body)
    }
}

/// Delivers mails. Implementations perform the transport; a failed delivery is reported back
/// as an error text.
pub trait MailSender {
    /// Send a single mail to its one recipient.
    fn send(&self, mail: &Mail) -> Result<(), String>;
}

/// Hand each mail to the sender once, in order, without retrying. The result holds one
/// outcome per mail, at the mail's position: `None` when the sender took it, the sender's error
/// text otherwise. Failed deliveries are not errors of the operations that queued the mails.
pub fn dispatch<S: MailSender>(sender: &S, mails: &Vec<Mail>) -> (outcomes: Vec<Option<String>>)
    ensures
        outcomes@.len() == mails@.len(),
{
    let mut outcomes: Vec<Option<String>> = Vec::new();
    let mut i: usize = 0;
    while i < mails.len()
        invariant
            i <= mails@.len(),
            outcomes@.len() == i,
        decreases mails@.len() - i,
    {
        let outcome = match sender.send(&mails[i]) {
            Ok(()) => None,
            Err(e) => Some(e),
        };
        outcomes.push(outcome);
        i += 1;
    }
    outcomes
}

} // verus!
