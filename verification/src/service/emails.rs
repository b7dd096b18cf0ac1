//! Notification emails: what they say, the bounded queue that holds them
//! between a request and the mail relay, and the worker's steps.

use crate::errors::{ErrorKind, TiraError};
use crate::models::User;
use crate::text::{decimal, push_decimal};
use std::collections::VecDeque;
use vstd::prelude::*;

verus! {

/// One email to be sent: the notification job.
#[derive(Debug, Clone, PartialEq, Eq)]
pub struct Email {
    pub to: String,
    pub subject: String,
    pub body: String,
}

/// An email, with each text as its characters.
pub struct EmailView {
    pub to: Seq<char>,
    pub subject: Seq<char>,
    pub body: Seq<char>,
}

impl View for Email {
    type V = EmailView;

    open spec fn view(&self) -> EmailView {
        EmailView { to: self.to@, subject: self.subject@, body: self.body@ }
    }
}

/// The first and last name of a user as far as they are known, with a space
/// between them where both are.
pub open spec fn real_name_display(user: User) -> Seq<char> {
    match (user.first_name, user.last_name) {
        (Some(first), Some(last)) => first@ + seq![' '] + last@,
        (Some(first), None) => first@,
        (None, Some(last)) => last@,
        (None, None) => Seq::<char>::empty(),
    }
}

/// The name a user is called by: the real name, or the username where no
/// part of the real name is known.
pub open spec fn display_name(user: User) -> Seq<char> {
    if real_name_display(user).len() == 0 {
        user.username@
    } else {
        real_name_display(user)
    }
}

/// The real name of a user, as far as it is known.
pub fn get_real_name_display(user: &User) -> (name: String)
    ensures
        name@ == real_name_display(*user),
{
    let mut name = String::new();
    if let Some(first_name) = &user.first_name {
        name.append(first_name.as_str());
        if user.last_name.is_some() {
            proof {
                reveal_strlit(" ");
            }
            name.append(" ");
        }
    }
    if let Some(last_name) = &user.last_name {
        name.append(last_name.as_str());
    }
    name
}

/// The name a user is called by in a notification.
pub fn get_display_name(user: &User) -> (name: String)
    ensures
        name@ == display_name(*user),
{
    let mut name = get_real_name_display(user);
    if name.as_str().is_empty() {
        name.append(user.username.as_str());
    }
    name
}

/// The link to a ticket: the base, a slash, and the ticket's id.
pub open spec fn ticket_link(base: Seq<char>, ticket_id: i64) -> Seq<char> {
    "<p><a href=\""@ + base + "/"@ + decimal(ticket_id as int) + "\">Link to ticket</a></p>"@
}

/// Appends the link to a ticket to a body.
fn push_ticket_link(body: &mut String, base: &str, ticket_id: i64)
    ensures
        final(body)@ == old(body)@ + ticket_link(base@, ticket_id),
{
    body.append("<p><a href=\"");
    body.append(base);
    body.append("/");
    push_decimal(body, ticket_id);
    body.append("\">Link to ticket</a></p>");
}

/// What an assignment notice says.
pub open spec fn assignment_email_body(
    assigner: User,
    ticket_subject: Seq<char>,
    ticket_id: i64,
    link_base: Seq<char>,
) -> Seq<char> {
    "<p>"@ + display_name(assigner) + " assigned you to ticket '"@ + ticket_subject + "'.</p>"@
        + ticket_link(link_base, ticket_id)
}

/// The body of the notice that tells a user of an assignment.
pub fn create_assignment_email_body(
    assigner: &User,
    ticket_subject: &str,
    ticket_id: i64,
    link_base: &str,
) -> (body: String)
    ensures
        body@ == assignment_email_body(*assigner, ticket_subject@, ticket_id, link_base@),
{
    let assigner_name = get_display_name(assigner);
    let mut body = String::new();
    body.append("<p>");
    body.append(assigner_name.as_str());
    body.append(" assigned you to ticket '");
    body.append(ticket_subject);
    body.append("'.</p>");
    push_ticket_link(&mut body, link_base, ticket_id);
    body
}

/// What a comment notice says.
pub open spec fn comment_email_body(
    commenter: User,
    comment_content: Seq<char>,
    ticket_subject: Seq<char>,
    ticket_id: i64,
    link_base: Seq<char>,
) -> Seq<char> {
    "<p>"@ + display_name(commenter) + " added a comment to ticket '"@ + ticket_subject
        + "'.</p><p>"@ + comment_content + "</p>"@ + ticket_link(link_base, ticket_id)
}

/// The body of the notice that tells a user of a comment, with the comment in it.
pub fn create_comment_email_body(
    commenter: &User,
    comment_content: &str,
    ticket_subject: &str,
    ticket_id: i64,
    link_base: &str,
) -> (body: String)
    ensures
        body@ == comment_email_body(
            *commenter,
            comment_content@,
            ticket_subject@,
            ticket_id,
            link_base@,
        ),
{
    let commenter_name = get_display_name(commenter);
    let mut body = String::new();
    body.append("<p>");
    body.append(commenter_name.as_str());
    body.append(" added a comment to ticket '");
    body.append(ticket_subject);
    body.append("'.</p><p>");
    body.append(comment_content);
    body.append("</p>");
    push_ticket_link(&mut body, link_base, ticket_id);
    body
}

/// What a notice of a new ticket says. The description is given as it is to
/// stand in the body.
pub open spec fn ticket_creation_email_body(
    creator: User,
    ticket_subject: Seq<char>,
    ticket_description: Seq<char>,
    created_ticket_id: i64,
    link_base: Seq<char>,
) -> Seq<char> {
    "<p>"@ + display_name(creator) + " created ticket '"@ + ticket_subject + "'.</p>"@
        + ticket_description + ticket_link(link_base, created_ticket_id)
}

/// The body of the notice that tells a user of a new ticket.
pub fn create_ticket_creation_email_body(
    creator: &User,
    ticket_subject: &str,
    ticket_description: &str,
    created_ticket_id: i64,
    link_base: &str,
) -> (body: String)
    ensures
        body@ == ticket_creation_email_body(
            *creator,
            ticket_subject@,
            ticket_description@,
            created_ticket_id,
            link_base@,
        ),
{
    let creator_name = get_display_name(creator);
    let mut body = String::new();
    body.append("<p>");
    body.append(creator_name.as_str());
    body.append(" created ticket '");
    body.append(ticket_subject);
    body.append("'.</p>");
    body.append(ticket_description);
    push_ticket_link(&mut body, link_base, created_ticket_id);
    body
}

/// The number of jobs that the queue of the service holds at most.
pub const EMAIL_QUEUE_CAPACITY: usize = 512;

/// The queue of emails that wait to be sent: first in, first out, and never
/// longer than its capacity. A producer that finds it full gets its job back
/// and has to wait for the worker.
pub struct NotificationQueue {
    jobs: VecDeque<Email>,
    capacity: usize,
}

/// A queue as its contracts see it: the jobs that wait, the oldest first,
/// and the number of jobs that it holds at most.
pub struct QueueView {
    pub jobs: Seq<Email>,
    pub capacity: nat,
}

impl View for NotificationQueue {
    type V = QueueView;

    closed spec fn view(&self) -> QueueView {
        QueueView { jobs: self.jobs@, capacity: self.capacity as nat }
    }
}

impl NotificationQueue {
    #[verifier::type_invariant]
    spec fn within_capacity(&self) -> bool {
        self.jobs@.len() <= self.capacity
    }

    /// An empty queue that holds `capacity` jobs at most.
    pub fn new(capacity: usize) -> (queue: NotificationQueue)
        ensures
            queue@.jobs == Seq::<Email>::empty(),
            queue@.capacity == capacity,
    {
        NotificationQueue { jobs: VecDeque::new(), capacity }
    }

    /// The number of jobs that the queue holds at most.
    pub fn capacity(&self) -> (capacity: usize)
        ensures
            capacity == self@.capacity,
    {
        self.capacity
    }

    /// The number of jobs that wait. It never exceeds the capacity.
    pub fn len(&self) -> (len: usize)
        ensures
            len == self@.jobs.len(),
            len <= self@.capacity,
    {
        proof {
            use_type_invariant(self);
        }
        self.jobs.len()
    }

    /// Whether no further job can be taken in.
    pub fn is_full(&self) -> (full: bool)
        ensures
            full == (self@.jobs.len() == self@.capacity),
            self@.jobs.len() <= self@.capacity,
    {
        proof {
            use_type_invariant(self);
        }
        self.jobs.len() >= self.capacity
    }

    /// Puts a job at the end of the queue. Where the queue is full nothing
    /// changes and the job is handed back: the producer is to wait until the
    /// worker has taken a job out, and to offer it again.
    pub fn enqueue(&mut self, job: Email) -> (res: Result<(), Email>)
        ensures
            final(self)@.capacity == old(self)@.capacity,
            old(self)@.jobs.len() <= old(self)@.capacity,
            final(self)@.jobs.len() <= final(self)@.capacity,
            old(self)@.jobs.len() < old(self)@.capacity ==> res is Ok && final(self)@.jobs == old(
                self,
            )@.jobs.push(job),
            old(self)@.jobs.len() == old(self)@.capacity ==> res == Err::<(), Email>(job)
                && final(self)@.jobs == old(self)@.jobs,
    {
        proof {
            use_type_invariant(&*self);
        }
        if self.jobs.len() >= self.capacity {
            Err(job)
        } else {
            let mut jobs: VecDeque<Email> = VecDeque::new();
            core::mem::swap(&mut self.jobs, &mut jobs);
            jobs.push_back(job);
            self.jobs = jobs;
            Ok(())
        }
    }

    /// Takes in as many of the jobs as there is room for, the first ones
    /// first, and returns the others.
    fn take_in(&mut self, jobs: Vec<Email>) -> (rest: Vec<Email>)
        ensures
            final(self)@.capacity == old(self)@.capacity,
            old(self)@.jobs.len() <= old(self)@.capacity,
            final(self)@.jobs.len() <= final(self)@.capacity,
            ({
                let room = room(old(self)@.jobs.len(), old(self)@.capacity);
                let taken = if jobs@.len() <= room {
                    jobs@.len()
                } else {
                    room
                };
                &&& final(self)@.jobs == old(self)@.jobs + jobs@.take(taken as int)
                &&& rest@ == jobs@.skip(taken as int)
            }),
    {
        proof {
            use_type_invariant(&*self);
        }
        let ghost offered = jobs@;
        let room: usize = self.capacity - self.jobs.len();
        let taken: usize = if jobs.len() <= room {
            jobs.len()
        } else {
            room
        };
        let mut first = jobs;
        let rest = first.split_off(taken);
        // The jobs to take in come off the end of `first`, so each goes to
        // the front of the batch.
        let mut batch: VecDeque<Email> = VecDeque::new();
        while first.len() > 0
            invariant
                taken <= offered.len(),
                first@ == offered.take(first@.len() as int),
                first@.len() <= taken,
                batch@ == offered.subrange(first@.len() as int, taken as int),
            decreases first.len(),
        {
            let job = first.pop().unwrap();
            batch.push_front(job);
        }
        let mut held: VecDeque<Email> = VecDeque::new();
        core::mem::swap(&mut self.jobs, &mut held);
        held.append(&mut batch);
        self.jobs = held;
        rest
    }

    /// Takes the oldest job out of the queue, if there is one.
    pub fn dequeue(&mut self) -> (job: Option<Email>)
        ensures
            final(self)@.capacity == old(self)@.capacity,
            old(self)@.jobs.len() == 0 ==> job is None && final(self)@.jobs == old(self)@.jobs,
            old(self)@.jobs.len() > 0 ==> job == Some(old(self)@.jobs[0])
                && final(self)@.jobs == old(self)@.jobs.skip(1),
    {
        proof {
            use_type_invariant(&*self);
        }
        let mut jobs: VecDeque<Email> = VecDeque::new();
        core::mem::swap(&mut self.jobs, &mut jobs);
        let job = jobs.pop_front();
        self.jobs = jobs;
        job
    }
}

/// The number of jobs that a queue with `len` jobs and this capacity still takes.
pub open spec fn room(len: nat, capacity: nat) -> nat {
    if len <= capacity {
        (capacity - len) as nat
    } else {
        0
    }
}

/// Offers jobs to the queue, in order, until it is full, and returns those
/// that it did not take. However many jobs are offered, the queue takes no
/// more than it has room for: a producer with more has to wait for the
/// worker and offer the rest again.
pub fn enqueue_all(queue: &mut NotificationQueue, jobs: Vec<Email>) -> (rest: Vec<Email>)
    ensures
        final(queue)@.capacity == old(queue)@.capacity,
        old(queue)@.jobs.len() <= old(queue)@.capacity,
        final(queue)@.jobs.len() <= final(queue)@.capacity,
        ({
            let room = room(old(queue)@.jobs.len(), old(queue)@.capacity);
            let taken = if jobs@.len() <= room {
                jobs@.len()
            } else {
                room
            };
            &&& final(queue)@.jobs == old(queue)@.jobs + jobs@.take(taken as int)
            &&& rest@ == jobs@.skip(taken as int)
        }),
{
    queue.take_in(jobs)
}

/// What the worker learns before a step.
#[derive(Clone, Copy, Debug, PartialEq, Eq, Structural)]
pub enum WorkerEvent {
    /// The worker has started, or has waited and was woken.
    Ready,
    /// The mail relay took the last email.
    Delivered,
    /// The mail relay refused the last email, or could not be reached.
    DeliveryFailed,
}

/// What the worker is to do next.
#[derive(Debug, PartialEq, Eq)]
pub enum WorkerAction {
    /// Hand this email to the mail relay, and report how it went.
    Deliver(Email),
    /// Nothing waits: block until a producer has put a job in the queue.
    Wait,
}

/// One step of the worker: what is to be reported of the last delivery, and
/// what to do next.
#[derive(Debug, PartialEq, Eq)]
pub struct WorkerStep {
    pub report: Option<TiraError>,
    pub action: WorkerAction,
}

/// One step of the worker that sends the emails. A failed delivery is
/// reported and costs that one email only: in every case the worker goes on
/// with the oldest job that waits, and waits itself where there is none.
pub fn handle_emails(queue: &mut NotificationQueue, event: WorkerEvent) -> (step: WorkerStep)
    ensures
        final(queue)@.capacity == old(queue)@.capacity,
        step.report is Some <==> event == WorkerEvent::DeliveryFailed,
        step.report matches Some(e) ==> e.kind == ErrorKind::DeliveryError && e.message@
            == "Could not send email"@,
        old(queue)@.jobs.len() == 0 ==> step.action is Wait && final(queue)@ == old(queue)@,
        old(queue)@.jobs.len() > 0 ==> step.action == WorkerAction::Deliver(old(queue)@.jobs[0])
            && final(queue)@.jobs == old(queue)@.jobs.skip(1),
{
    let report = match event {
        WorkerEvent::DeliveryFailed => Some(
            TiraError::new(ErrorKind::DeliveryError, "Could not send email"),
        ),
        _ => None,
    };
    let action = match queue.dequeue() {
        Some(email) => WorkerAction::Deliver(email),
        None => WorkerAction::Wait,
    };
    WorkerStep { report, action }
}

} // verus!
