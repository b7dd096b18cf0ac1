//! The endpoints that create tickets, comments and assignments: once the
//! rows are written, who is told, and with what.

use crate::dao::users::{
    get_user_by_id, has_user, lemma_filter_push, lemma_user_with_id_is_a_user, user_with_id,
};
use crate::errors::{ErrorKind, TiraError};
use crate::models::patch::UpdateTicket;
use crate::models::success::{
    AlteredResourceResponse, CommentResponse, CountResponse, TicketResponse,
    TicketWithoutDescriptionResponse,
};
use crate::models::{
    Category, Comment, Count, CreateTicket, Ticket, TicketWithoutDescription, User,
};
use crate::service::{check_only_one_row_changed, is_row_count_error};
use crate::service::emails::{
    assignment_email_body, comment_email_body, create_assignment_email_body,
    create_comment_email_body, create_ticket_creation_email_body, enqueue_all, room,
    ticket_creation_email_body, Email, EmailView, NotificationQueue,
};
use crate::service::tickets::{
    assignment_rows, check_comment, check_ticket, is_acceptable_comment, is_comment_fault,
    is_valid_ticket, ticket_fault, update_assignments_by_ticket_id, AssignmentReplacement,
};
use vstd::prelude::*;

verus! {

/// The emails of a sequence, each with its texts as characters.
pub open spec fn email_views(emails: Seq<Email>) -> Seq<EmailView> {
    emails.map_values(|e: Email| e@)
}

/// The description of a ticket as a paragraph of a notice; nothing where
/// the ticket has none.
pub open spec fn description_paragraph(description: Option<String>) -> Seq<char> {
    match description {
        Some(text) => "<p>"@ + text@ + "</p>"@,
        None => Seq::<char>::empty(),
    }
}

/// Whether a user is told of a new ticket: every user who is not archived
/// and has an email address, but the reporter.
pub open spec fn hears_of_ticket(user: User, reporter_id: i64) -> bool {
    !user.archived && user.id != reporter_id && user.email_address is Some
}

/// The users who are told of a new ticket, in the order of the store.
pub open spec fn ticket_creation_recipients(users: Seq<User>, reporter_id: i64) -> Seq<User> {
    users.filter(|u: User| hears_of_ticket(u, reporter_id))
}

/// The notice that tells `recipient` of a new ticket.
pub open spec fn ticket_creation_notice(
    recipient: User,
    reporter: User,
    ticket: CreateTicket,
    created_ticket_id: i64,
    link_base: Seq<char>,
) -> EmailView {
    EmailView {
        to: recipient.email_address->0@,
        subject: ticket.subject@,
        body: ticket_creation_email_body(
            reporter,
            ticket.subject@,
            description_paragraph(ticket.description),
            created_ticket_id,
            link_base,
        ),
    }
}

/// The description of a ticket as a paragraph of a notice.
fn describe(description: &Option<String>) -> (paragraph: String)
    ensures
        paragraph@ == description_paragraph(*description),
{
    let mut paragraph = String::new();
    if let Some(text) = description {
        paragraph.append("<p>");
        paragraph.append(text.as_str());
        paragraph.append("</p>");
    }
    paragraph
}

/// The notices of a new ticket: one for each user who is not archived and
/// has an email address, but none for the reporter.
pub fn ticket_creation_emails(
    reporter: &User,
    users: &Vec<User>,
    ticket: &CreateTicket,
    created_ticket_id: i64,
    link_base: &str,
) -> (emails: Vec<Email>)
    ensures
        email_views(emails@) == ticket_creation_recipients(users@, reporter.id).map_values(
            |u: User| ticket_creation_notice(u, *reporter, *ticket, created_ticket_id, link_base@),
        ),
{
    let ghost hears = |u: User| hears_of_ticket(u, reporter.id);
    let ghost notice = |u: User|
        ticket_creation_notice(u, *reporter, *ticket, created_ticket_id, link_base@);
    let paragraph = describe(&ticket.description);
    let mut emails: Vec<Email> = Vec::new();
    let mut i: usize = 0;
    while i < users.len()
        invariant
            i <= users.len(),
            paragraph@ == description_paragraph(ticket.description),
            hears == (|u: User| hears_of_ticket(u, reporter.id)),
            notice == (|u: User|
                ticket_creation_notice(u, *reporter, *ticket, created_ticket_id, link_base@)),
            email_views(emails@) == users@.take(i as int).filter(hears).map_values(notice),
        decreases users.len() - i,
    {
        let user = &users[i];
        proof {
            assert(users@.take(i + 1) =~= users@.take(i as int).push(users@[i as int]));
            lemma_filter_push(users@.take(i as int), users@[i as int], hears);
        }
        if !user.archived && user.id != reporter.id {
            if let Some(email_address) = &user.email_address {
                let body = create_ticket_creation_email_body(
                    reporter,
                    ticket.subject.as_str(),
                    paragraph.as_str(),
                    created_ticket_id,
                    link_base,
                );
                emails.push(
                    Email { to: email_address.clone(), subject: ticket.subject.clone(), body },
                );
                assert(users@.take(i as int).filter(hears).push(*user).map_values(notice)
                    =~= users@.take(i as int).filter(hears).map_values(notice).push(notice(*user)));
            }
        }
        i += 1;
    }
    assert(users@.take(users.len() as int) =~= users@);
    emails
}

/// Whether the user with this id is told of being assigned by `assigner_id`:
/// a known user with an email address, who did not assign themselves.
pub open spec fn hears_of_assignment(users: Seq<User>, assignee_id: i64, assigner_id: i64) -> bool {
    assignee_id != assigner_id && has_user(users, assignee_id) && user_with_id(
        users,
        assignee_id,
    ).email_address is Some
}

/// The assignees of a new ticket who are told of their assignment, in the
/// order in which they were asked for. An assignee who was asked for more
/// than once is told once, at the first place.
pub open spec fn ticket_assignment_recipients(
    users: Seq<User>,
    assignee_ids: Seq<i64>,
    reporter_id: i64,
) -> Seq<i64>
    decreases assignee_ids.len(),
{
    if assignee_ids.len() == 0 {
        Seq::<i64>::empty()
    } else {
        let earlier = assignee_ids.drop_last();
        let last = assignee_ids.last();
        let told = ticket_assignment_recipients(users, earlier, reporter_id);
        if hears_of_assignment(users, last, reporter_id) && !earlier.contains(last) {
            told.push(last)
        } else {
            told
        }
    }
}

/// Whether the id at place `i` stands at an earlier place too.
fn occurs_before(ids: &Vec<i64>, i: usize) -> (found: bool)
    requires
        i < ids.len(),
    ensures
        found == ids@.take(i as int).contains(ids@[i as int]),
{
    let mut j: usize = 0;
    while j < i
        invariant
            j <= i < ids.len(),
            forall|k: int| 0 <= k < j ==> ids@[k] != ids@[i as int],
        decreases i - j,
    {
        if ids[j] == ids[i] {
            assert(ids@.take(i as int)[j as int] == ids@[i as int]);
            return true;
        }
        j += 1;
    }
    false
}

/// The notice that tells `assignee` of an assignment.
pub open spec fn assignment_notice(
    assignee: User,
    assigner: User,
    ticket_subject: Seq<char>,
    ticket_id: i64,
    link_base: Seq<char>,
) -> EmailView {
    EmailView {
        to: assignee.email_address->0@,
        subject: ticket_subject,
        body: assignment_email_body(assigner, ticket_subject, ticket_id, link_base),
    }
}

/// The notice of one assignment, if the assignee has an email address.
pub fn assignment_email(
    assignee: &User,
    assigner: &User,
    ticket_subject: &String,
    ticket_id: i64,
    link_base: &str,
) -> (email: Option<Email>)
    ensures
        email is Some <==> assignee.email_address is Some,
        email matches Some(e) ==> e@ == assignment_notice(
            *assignee,
            *assigner,
            ticket_subject@,
            ticket_id,
            link_base@,
        ),
{
    match &assignee.email_address {
        Some(email_address) => {
            let body = create_assignment_email_body(
                assigner,
                ticket_subject.as_str(),
                ticket_id,
                link_base,
            );
            Some(Email { to: email_address.clone(), subject: ticket_subject.clone(), body })
        },
        None => None,
    }
}

/// The assignment notices of a new ticket: one for each assignee asked
/// for who is a known user with an email address, but none for the reporter.
pub fn ticket_assignment_emails(
    reporter: &User,
    users: &Vec<User>,
    ticket: &CreateTicket,
    created_ticket_id: i64,
    link_base: &str,
) -> (emails: Vec<Email>)
    ensures
        email_views(emails@) == ticket_assignment_recipients(
            users@,
            ticket.assignee_ids@,
            reporter.id,
        ).map_values(
            |a: i64|
                assignment_notice(
                    user_with_id(users@, a),
                    *reporter,
                    ticket.subject@,
                    created_ticket_id,
                    link_base@,
                ),
        ),
{
    let ghost notice = |a: i64|
        assignment_notice(
            user_with_id(users@, a),
            *reporter,
            ticket.subject@,
            created_ticket_id,
            link_base@,
        );
    let ghost ids = ticket.assignee_ids@;
    let mut emails: Vec<Email> = Vec::new();
    let mut i: usize = 0;
    assert(ids.take(0) =~= Seq::<i64>::empty());
    while i < ticket.assignee_ids.len()
        invariant
            i <= ticket.assignee_ids.len(),
            ids == ticket.assignee_ids@,
            notice == (|a: i64|
                assignment_notice(
                    user_with_id(users@, a),
                    *reporter,
                    ticket.subject@,
                    created_ticket_id,
                    link_base@,
                )),
            email_views(emails@) == ticket_assignment_recipients(
                users@,
                ids.take(i as int),
                reporter.id,
            ).map_values(notice),
        decreases ticket.assignee_ids.len() - i,
    {
        let assignee_id: i64 = ticket.assignee_ids[i];
        let ghost told = ticket_assignment_recipients(users@, ids.take(i as int), reporter.id);
        proof {
            assert(ids.take(i + 1).drop_last() =~= ids.take(i as int));
            assert(ids.take(i + 1).last() == assignee_id);
        }
        if assignee_id != reporter.id && !occurs_before(&ticket.assignee_ids, i) {
            if let Some(assignee) = get_user_by_id(users, assignee_id) {
                if let Some(email) = assignment_email(
                    &assignee,
                    reporter,
                    &ticket.subject,
                    created_ticket_id,
                    link_base,
                ) {
                    emails.push(email);
                    assert(told.push(assignee_id).map_values(notice) =~= told.map_values(
                        notice,
                    ).push(notice(assignee_id)));
                }
            }
        }
        i += 1;
    }
    assert(ids.take(ticket.assignee_ids.len() as int) =~= ids);
    emails
}

/// What holds of the assignees who are told: each was asked for, is another
/// user than the assigner, known and with an email address; none is told
/// twice; and every assignee of whom this holds is told.
proof fn lemma_assignment_recipients(users: Seq<User>, assignee_ids: Seq<i64>, reporter_id: i64)
    ensures
        forall|k: int|
            #![trigger ticket_assignment_recipients(users, assignee_ids, reporter_id)[k]]
            0 <= k < ticket_assignment_recipients(users, assignee_ids, reporter_id).len() ==> {
                let a = ticket_assignment_recipients(users, assignee_ids, reporter_id)[k];
                assignee_ids.contains(a) && hears_of_assignment(users, a, reporter_id)
            },
        ticket_assignment_recipients(users, assignee_ids, reporter_id).no_duplicates(),
        forall|i: int|
            0 <= i < assignee_ids.len() && hears_of_assignment(users, assignee_ids[i], reporter_id)
                ==> ticket_assignment_recipients(users, assignee_ids, reporter_id).contains(
                #[trigger] assignee_ids[i],
            ),
    decreases assignee_ids.len(),
{
    if assignee_ids.len() > 0 {
        let earlier = assignee_ids.drop_last();
        let last = assignee_ids.last();
        let told = ticket_assignment_recipients(users, earlier, reporter_id);
        let all = ticket_assignment_recipients(users, assignee_ids, reporter_id);
        lemma_assignment_recipients(users, earlier, reporter_id);
        let added = hears_of_assignment(users, last, reporter_id) && !earlier.contains(last);
        assert forall|k: int| 0 <= k < all.len() implies assignee_ids.contains(#[trigger] all[k])
            && hears_of_assignment(users, all[k], reporter_id) by {
            if k < told.len() {
                assert(earlier.contains(told[k]));
                let j = choose|j: int| 0 <= j < earlier.len() && earlier[j] == told[k];
                assert(assignee_ids[j] == told[k]);
            } else {
                assert(all[k] == assignee_ids[assignee_ids.len() - 1]);
            }
        }
        assert forall|a: int, b: int| 0 <= a < b < all.len() implies all[a] != all[b] by {
            if b == told.len() {
                assert(earlier.contains(told[a]));
            }
        }
        assert forall|i: int|
            0 <= i < assignee_ids.len() && hears_of_assignment(
                users,
                assignee_ids[i],
                reporter_id,
            ) implies all.contains(#[trigger] assignee_ids[i]) by {
            if i < earlier.len() {
                assert(earlier[i] == assignee_ids[i]);
                assert(told.contains(earlier[i]));
                let k = choose|k: int| 0 <= k < told.len() && told[k] == earlier[i];
                assert(all[k] == assignee_ids[i]);
            } else if added {
                assert(all[told.len() as int] == last);
            } else {
                let j = choose|j: int| 0 <= j < earlier.len() && earlier[j] == last;
                assert(told.contains(earlier[j]));
                let k = choose|k: int| 0 <= k < told.len() && told[k] == last;
                assert(all[k] == last);
            }
        }
    }
}

/// No two of the users have the same id.
pub open spec fn distinct_user_ids(users: Seq<User>) -> bool {
    forall|i: int, j: int| 0 <= i < j < users.len() ==> users[i].id != users[j].id
}

/// A selection from users with distinct ids has distinct ids, and selects
/// none but those users.
proof fn lemma_selection_has_distinct_ids(users: Seq<User>, keep: spec_fn(User) -> bool)
    requires
        distinct_user_ids(users),
    ensures
        distinct_user_ids(users.filter(keep)),
        forall|k: int|
            0 <= k < users.filter(keep).len() ==> users.contains(#[trigger] users.filter(keep)[k]),
    decreases users.len(),
{
    reveal(Seq::filter);
    if users.len() > 0 {
        let earlier = users.drop_last();
        let kept = earlier.filter(keep);
        let all = users.filter(keep);
        lemma_selection_has_distinct_ids(earlier, keep);
        assert forall|k: int| 0 <= k < all.len() implies users.contains(#[trigger] all[k]) by {
            if k < kept.len() {
                assert(earlier.contains(kept[k]));
                let j = choose|j: int| 0 <= j < earlier.len() && earlier[j] == kept[k];
                assert(users[j] == kept[k]);
            } else {
                assert(all[k] == users[users.len() - 1]);
            }
        }
        assert forall|a: int, b: int| 0 <= a < b < all.len() implies all[a].id != all[b].id by {
            if b == kept.len() {
                assert(earlier.contains(kept[a]));
                let j = choose|j: int| 0 <= j < earlier.len() && earlier[j] == kept[a];
                assert(users[j].id != users[users.len() - 1].id);
            }
        }
    }
}

/// Nobody is told of their own ticket. Of a new ticket by `reporter_id`:
/// every user who is told of it is another user, not archived, with an
/// email address, and every such user is told; every assignee who is told
/// of the assignment is another user than the reporter, and every other
/// assignee who is a known user with an email address is told. So a
/// reporter who is also an assignee gets no notice of either kind, whoever
/// else is assigned.
pub proof fn lemma_reporter_is_not_notified(
    users: Seq<User>,
    assignee_ids: Seq<i64>,
    reporter_id: i64,
)
    ensures
        forall|i: int|
            0 <= i < ticket_creation_recipients(users, reporter_id).len() ==> hears_of_ticket(
                #[trigger] ticket_creation_recipients(users, reporter_id)[i],
                reporter_id,
            ),
        forall|i: int|
            0 <= i < users.len() && hears_of_ticket(users[i], reporter_id)
                ==> ticket_creation_recipients(users, reporter_id).contains(#[trigger] users[i]),
        forall|i: int|
            0 <= i < ticket_assignment_recipients(users, assignee_ids, reporter_id).len() ==> (
            #[trigger] ticket_assignment_recipients(users, assignee_ids, reporter_id)[i])
                != reporter_id,
        forall|i: int|
            0 <= i < assignee_ids.len() && hears_of_assignment(users, assignee_ids[i], reporter_id)
                ==> ticket_assignment_recipients(users, assignee_ids, reporter_id).contains(
                #[trigger] assignee_ids[i],
            ),
        !ticket_assignment_recipients(users, assignee_ids, reporter_id).contains(reporter_id),
{
    let hears = |u: User| hears_of_ticket(u, reporter_id);
    assert forall|i: int| 0 <= i < users.filter(hears).len() implies hears_of_ticket(
        #[trigger] users.filter(hears)[i],
        reporter_id,
    ) by {
        users.lemma_filter_pred(hears, i);
    }
    assert forall|i: int| 0 <= i < users.len() && hears_of_ticket(users[i], reporter_id)
        implies users.filter(hears).contains(#[trigger] users[i]) by {
        users.lemma_filter_contains(hears, i);
    }
    lemma_assignment_recipients(users, assignee_ids, reporter_id);
}

/// Whether an address is that of a user other than `reporter_id`.
pub open spec fn is_address_of_another(users: Seq<User>, reporter_id: i64, to: Seq<char>) -> bool {
    exists|i: int|
        0 <= i < users.len() && (#[trigger] users[i]).id != reporter_id
            && users[i].email_address is Some && users[i].email_address->0@ == to
}

/// Every notice of a new ticket goes to the address of a user who is not
/// the reporter. So none goes to the reporter's address, unless another
/// user has the same one.
pub proof fn lemma_notices_go_to_others(
    reporter: User,
    users: Seq<User>,
    ticket: CreateTicket,
    created_ticket_id: i64,
    link_base: Seq<char>,
)
    ensures
        forall|k: int|
            0 <= k < ticket_notices(reporter, users, ticket, created_ticket_id, link_base).len()
                ==> is_address_of_another(
                users,
                reporter.id,
                (#[trigger] ticket_notices(
                    reporter,
                    users,
                    ticket,
                    created_ticket_id,
                    link_base,
                )[k]).to,
            ),
{
    let told = ticket_creation_recipients(users, reporter.id);
    let assigned = ticket_assignment_recipients(users, ticket.assignee_ids@, reporter.id);
    let notices = ticket_notices(reporter, users, ticket, created_ticket_id, link_base);
    lemma_reporter_is_not_notified(users, ticket.assignee_ids@, reporter.id);
    lemma_assignment_recipients(users, ticket.assignee_ids@, reporter.id);
    assert forall|k: int| 0 <= k < notices.len() implies is_address_of_another(
        users,
        reporter.id,
        (#[trigger] notices[k]).to,
    ) by {
        if k < told.len() {
            let u = told[k];
            assert(told.contains(u));
            users.lemma_filter_contains_rev(|u: User| hears_of_ticket(u, reporter.id), u);
            let i = choose|i: int| 0 <= i < users.len() && users[i] == u;
            assert(users[i].id != reporter.id && users[i].email_address is Some);
        } else {
            let a = assigned[k - told.len()];
            lemma_user_with_id_is_a_user(users, a);
            let u = user_with_id(users, a);
            let i = choose|i: int| 0 <= i < users.len() && users[i] == u;
            assert(users[i].id != reporter.id && users[i].email_address is Some);
        }
    }
}

/// Nobody is told twice of a new ticket. Where no two of the users have the
/// same id, no two notices of the ticket go to the same user; and no two
/// notices of an assignment go to the same assignee, however often that
/// assignee was asked for.
pub proof fn lemma_nobody_is_told_twice(
    users: Seq<User>,
    assignee_ids: Seq<i64>,
    reporter_id: i64,
)
    requires
        distinct_user_ids(users),
    ensures
        distinct_user_ids(ticket_creation_recipients(users, reporter_id)),
        ticket_assignment_recipients(users, assignee_ids, reporter_id).no_duplicates(),
{
    lemma_selection_has_distinct_ids(users, |u: User| hears_of_ticket(u, reporter_id));
    lemma_assignment_recipients(users, assignee_ids, reporter_id);
}

/// Whether a user is told of a comment: every user with an email address
/// but the commenter, whether they have to do with the ticket or not.
pub open spec fn hears_of_comment(user: User, commenter_id: i64) -> bool {
    user.id != commenter_id && user.email_address is Some
}

/// The users who are told of a comment, in the order given.
pub open spec fn comment_recipients(users: Seq<User>, commenter_id: i64) -> Seq<User> {
    users.filter(|u: User| hears_of_comment(u, commenter_id))
}

/// Nobody is told twice of a comment, and the commenter not at all: where
/// no two of the users have the same id, no two notices of the comment go
/// to the same user, and none goes to the commenter.
pub proof fn lemma_comment_is_told_once(users: Seq<User>, commenter_id: i64)
    requires
        distinct_user_ids(users),
    ensures
        distinct_user_ids(comment_recipients(users, commenter_id)),
        forall|i: int|
            0 <= i < comment_recipients(users, commenter_id).len() ==> hears_of_comment(
                #[trigger] comment_recipients(users, commenter_id)[i],
                commenter_id,
            ),
{
    let hears = |u: User| hears_of_comment(u, commenter_id);
    lemma_selection_has_distinct_ids(users, hears);
    assert forall|i: int| 0 <= i < users.filter(hears).len() implies hears_of_comment(
        #[trigger] users.filter(hears)[i],
        commenter_id,
    ) by {
        users.lemma_filter_pred(hears, i);
    }
}

/// The notice that tells `recipient` of a comment.
pub open spec fn comment_notice(
    recipient: User,
    commenter: User,
    comment_content: Seq<char>,
    ticket_subject: Seq<char>,
    ticket_id: i64,
    link_base: Seq<char>,
) -> EmailView {
    EmailView {
        to: recipient.email_address->0@,
        subject: ticket_subject,
        body: comment_email_body(commenter, comment_content, ticket_subject, ticket_id, link_base),
    }
}

/// The notices of a new comment: one for each of the users who has an email
/// address, but none for the commenter.
pub fn comment_emails(
    commenter: &User,
    users: &Vec<User>,
    comment_content: &str,
    ticket_subject: &String,
    ticket_id: i64,
    link_base: &str,
) -> (emails: Vec<Email>)
    ensures
        email_views(emails@) == comment_recipients(users@, commenter.id).map_values(
            |u: User|
                comment_notice(
                    u,
                    *commenter,
                    comment_content@,
                    ticket_subject@,
                    ticket_id,
                    link_base@,
                ),
        ),
{
    let ghost hears = |u: User| hears_of_comment(u, commenter.id);
    let ghost notice = |u: User|
        comment_notice(u, *commenter, comment_content@, ticket_subject@, ticket_id, link_base@);
    let mut emails: Vec<Email> = Vec::new();
    let mut i: usize = 0;
    while i < users.len()
        invariant
            i <= users.len(),
            hears == (|u: User| hears_of_comment(u, commenter.id)),
            notice == (|u: User|
                comment_notice(
                    u,
                    *commenter,
                    comment_content@,
                    ticket_subject@,
                    ticket_id,
                    link_base@,
                )),
            email_views(emails@) == users@.take(i as int).filter(hears).map_values(notice),
        decreases users.len() - i,
    {
        let user = &users[i];
        proof {
            assert(users@.take(i + 1) =~= users@.take(i as int).push(users@[i as int]));
            lemma_filter_push(users@.take(i as int), users@[i as int], hears);
        }
        if user.id != commenter.id {
            if let Some(email_address) = &user.email_address {
                let body = create_comment_email_body(
                    commenter,
                    comment_content,
                    ticket_subject.as_str(),
                    ticket_id,
                    link_base,
                );
                emails.push(
                    Email { to: email_address.clone(), subject: ticket_subject.clone(), body },
                );
                assert(users@.take(i as int).filter(hears).push(*user).map_values(notice)
                    =~= users@.take(i as int).filter(hears).map_values(notice).push(notice(*user)));
            }
        }
        i += 1;
    }
    assert(users@.take(users.len() as int) =~= users@);
    emails
}

/// What an endpoint does with its notices: the queue takes them in, in
/// order, behind the jobs it holds, as far as it has room; the endpoint
/// returns the others, for which the producer has to wait.
pub open spec fn notices_are_queued(
    before: Seq<Email>,
    capacity: nat,
    notices: Seq<EmailView>,
    after: Seq<Email>,
    rest: Seq<Email>,
) -> bool {
    let room = room(before.len(), capacity);
    let taken = if notices.len() <= room {
        notices.len()
    } else {
        room
    };
    &&& after.len() == before.len() + taken
    &&& after.len() <= capacity
    &&& after.take(before.len() as int) == before
    &&& email_views(after.skip(before.len() as int)) == notices.take(taken as int)
    &&& email_views(rest) == notices.skip(taken as int)
}

/// Puts the emails in the queue as far as it has room, and returns the others.
fn queue_notices(queue: &mut NotificationQueue, emails: Vec<Email>) -> (rest: Vec<Email>)
    ensures
        final(queue)@.capacity == old(queue)@.capacity,
        notices_are_queued(
            old(queue)@.jobs,
            old(queue)@.capacity,
            email_views(emails@),
            final(queue)@.jobs,
            rest@,
        ),
{
    let ghost before = queue@.jobs;
    let ghost offered = emails@;
    let rest = enqueue_all(queue, emails);
    proof {
        let room = room(before.len(), queue@.capacity);
        let taken = if offered.len() <= room {
            offered.len()
        } else {
            room
        };
        assert(queue@.jobs.take(before.len() as int) =~= before);
        assert(queue@.jobs.skip(before.len() as int) =~= offered.take(taken as int));
        assert(email_views(offered.take(taken as int)) =~= email_views(offered).take(
            taken as int,
        ));
        assert(email_views(offered.skip(taken as int)) =~= email_views(offered).skip(
            taken as int,
        ));
    }
    rest
}

/// The notices of a new ticket: those of the ticket, then those of its
/// assignments.
pub open spec fn ticket_notices(
    reporter: User,
    users: Seq<User>,
    ticket: CreateTicket,
    created_ticket_id: i64,
    link_base: Seq<char>,
) -> Seq<EmailView> {
    ticket_creation_recipients(users, reporter.id).map_values(
        |u: User| ticket_creation_notice(u, reporter, ticket, created_ticket_id, link_base),
    ) + ticket_assignment_recipients(users, ticket.assignee_ids@, reporter.id).map_values(
        |a: i64|
            assignment_notice(
                user_with_id(users, a),
                reporter,
                ticket.subject@,
                created_ticket_id,
                link_base,
            ),
    )
}

/// The endpoint for creating a ticket, once the ticket and its assignments
/// are written. A ticket that breaks a rule is rejected as it is before
/// anything is written, and nobody is told of it: the queue stays as it
/// was. Else the notices for the users and for the assignees are queued,
/// and the message for the client is returned with the notices that the
/// queue had no room for.
pub fn create_ticket_endpoint(
    queue: &mut NotificationQueue,
    reporter: &User,
    users: &Vec<User>,
    ticket: &CreateTicket,
    created_ticket_id: i64,
    link_base: &str,
) -> (res: Result<(String, Vec<Email>), TiraError>)
    ensures
        final(queue)@.capacity == old(queue)@.capacity,
        res is Ok <==> is_valid_ticket(*ticket),
        res matches Err(e) ==> e.kind == ErrorKind::ValidationError && e.message@ == ticket_fault(
            *ticket,
        ) && final(queue)@ == old(queue)@,
        res matches Ok(done) ==> done.0@ == "Successfully created ticket!"@ && notices_are_queued(
            old(queue)@.jobs,
            old(queue)@.capacity,
            ticket_notices(*reporter, users@, *ticket, created_ticket_id, link_base@),
            final(queue)@.jobs,
            done.1@,
        ),
{
    if let Err(e) = check_ticket(ticket) {
        return Err(e);
    }
    let mut emails = ticket_creation_emails(reporter, users, ticket, created_ticket_id, link_base);
    let mut assigned = ticket_assignment_emails(
        reporter,
        users,
        ticket,
        created_ticket_id,
        link_base,
    );
    let ghost first = emails@;
    let ghost second = assigned@;
    emails.append(&mut assigned);
    assert(email_views(first + second) =~= email_views(first) + email_views(second));
    let rest = queue_notices(queue, emails);
    Ok(("Successfully created ticket!".to_owned(), rest))
}

/// The notices of a new comment: one for every user given who has an
/// email address, but none for the commenter.
pub open spec fn comment_notices(
    commenter: User,
    users: Seq<User>,
    comment_content: Seq<char>,
    ticket_subject: Seq<char>,
    ticket_id: i64,
    link_base: Seq<char>,
) -> Seq<EmailView> {
    comment_recipients(users, commenter.id).map_values(
        |u: User|
            comment_notice(u, commenter, comment_content, ticket_subject, ticket_id, link_base),
    )
}

/// The endpoint for commenting on a ticket, once the comment is written. A
/// blank comment is rejected as it is before anything is written, and
/// nobody is told of it: the queue stays as it was. Else a notice is
/// queued for every user given but the commenter, and the response for the
/// client is returned with the notices that the queue had no room for.
pub fn create_comment_by_ticket_id_endpoint(
    queue: &mut NotificationQueue,
    commenter: &User,
    users: &Vec<User>,
    comment_content: &str,
    ticket_subject: &String,
    ticket_id: i64,
    created_comment_id: i64,
    link_base: &str,
) -> (res: Result<(AlteredResourceResponse, Vec<Email>), TiraError>)
    ensures
        final(queue)@.capacity == old(queue)@.capacity,
        res is Ok <==> is_acceptable_comment(comment_content@),
        res matches Err(e) ==> is_comment_fault(e, comment_content@) && final(queue)@ == old(
            queue,
        )@,
        res matches Ok(done) ==> done.0.message@ == "Successfully created comment!"@ && done.0.id
            == created_comment_id && notices_are_queued(
            old(queue)@.jobs,
            old(queue)@.capacity,
            comment_notices(
                *commenter,
                users@,
                comment_content@,
                ticket_subject@,
                ticket_id,
                link_base@,
            ),
            final(queue)@.jobs,
            done.1@,
        ),
{
    if let Err(e) = check_comment(comment_content) {
        return Err(e);
    }
    let emails = comment_emails(
        commenter,
        users,
        comment_content,
        ticket_subject,
        ticket_id,
        link_base,
    );
    let rest = queue_notices(queue, emails);
    let response = AlteredResourceResponse {
        message: "Successfully created comment!".to_owned(),
        id: created_comment_id,
    };
    Ok((response, rest))
}

/// The notices of one assignment: one for the assignee where they have an
/// email address, else none.
pub open spec fn assignment_notices(
    assignee: User,
    assigner: User,
    ticket_subject: Seq<char>,
    ticket_id: i64,
    link_base: Seq<char>,
) -> Seq<EmailView> {
    if assignee.email_address is Some {
        seq![assignment_notice(assignee, assigner, ticket_subject, ticket_id, link_base)]
    } else {
        Seq::<EmailView>::empty()
    }
}

/// The endpoint for assigning a user to a ticket, once the assignment is
/// written: queues one notice for the assignee where they have an email
/// address. Returns the response for the client, and the notice if the queue
/// had no room for it.
pub fn create_assignment_by_ticket_id_endpoint(
    queue: &mut NotificationQueue,
    assignee: &User,
    assigner: &User,
    ticket_subject: &String,
    ticket_id: i64,
    created_assignment_id: i64,
    link_base: &str,
) -> (res: (AlteredResourceResponse, Vec<Email>))
    ensures
        res.0.message@ == "Successfully created assignment!"@,
        res.0.id == created_assignment_id,
        final(queue)@.capacity == old(queue)@.capacity,
        notices_are_queued(
            old(queue)@.jobs,
            old(queue)@.capacity,
            assignment_notices(*assignee, *assigner, ticket_subject@, ticket_id, link_base@),
            final(queue)@.jobs,
            res.1@,
        ),
{
    let mut emails: Vec<Email> = Vec::new();
    let notice = assignment_email(assignee, assigner, ticket_subject, ticket_id, link_base);
    if let Some(email) = notice {
        emails.push(email);
    }
    assert(email_views(emails@) =~= assignment_notices(
        *assignee,
        *assigner,
        ticket_subject@,
        ticket_id,
        link_base@,
    ));
    let rest = queue_notices(queue, emails);
    let response = AlteredResourceResponse {
        message: "Successfully created assignment!".to_owned(),
        id: created_assignment_id,
    };
    (response, rest)
}

/// The filters and the order of a listing of tickets.
#[derive(Debug, PartialEq, Eq)]
pub struct GetTicketsQueryParams {
    pub limit: Option<i64>,
    pub offset: Option<i64>,
    pub reporter: Option<i64>,
    pub open: Option<bool>,
    pub sort_by: Option<String>,
    pub order_by: Option<String>,
}

/// The number of tickets that a counting query found; zero where the
/// store gave no number.
pub fn get_total_ticket_count(count: Count) -> (total: i64)
    ensures
        total == (match count.cnt {
            Some(n) => n,
            None => 0,
        }),
{
    match count.cnt {
        Some(n) => n,
        None => 0,
    }
}

/// One ticket of the listing, with its category, reporter and assignees in full.
pub fn ticket_list_entry(
    ticket: &TicketWithoutDescription,
    category: Option<Category>,
    reporter: User,
    assignees: Vec<User>,
) -> (entry: TicketWithoutDescriptionResponse)
    ensures
        entry.id == ticket.id,
        entry.subject == ticket.subject,
        entry.category == category,
        entry.priority == ticket.priority,
        entry.status == ticket.status,
        entry.created == ticket.created,
        entry.reporter == reporter,
        entry.assignees == assignees,
{
    TicketWithoutDescriptionResponse {
        id: ticket.id,
        subject: ticket.subject.clone(),
        category,
        priority: ticket.priority.clone(),
        status: ticket.status.clone(),
        created: ticket.created,
        reporter,
        assignees,
    }
}

/// The endpoint that lists the tickets, once each is read with what
/// belongs to it: the entries, and the number of tickets in all.
pub fn get_tickets_endpoint(
    entries: Vec<TicketWithoutDescriptionResponse>,
    count: Count,
) -> (response: CountResponse<TicketWithoutDescriptionResponse>)
    ensures
        response.data == entries,
        response.total_count == (match count.cnt {
            Some(n) => n,
            None => 0,
        }),
{
    CountResponse { data: entries, total_count: get_total_ticket_count(count) }
}

/// The endpoint that shows one ticket, once it is read with what belongs
/// to it: the ticket with its category, reporter and assignees in full.
pub fn get_ticket_by_id_endpoint(
    ticket: Ticket,
    category: Option<Category>,
    reporter: User,
    assignees: Vec<User>,
) -> (response: TicketResponse)
    ensures
        response.id == ticket.id,
        response.subject == ticket.subject,
        response.description == ticket.description,
        response.category == category,
        response.priority == ticket.priority,
        response.status == ticket.status,
        response.created == ticket.created,
        response.reporter == reporter,
        response.assignees == assignees,
{
    TicketResponse {
        id: ticket.id,
        subject: ticket.subject,
        description: ticket.description,
        category,
        priority: ticket.priority,
        status: ticket.status,
        created: ticket.created,
        reporter,
        assignees,
    }
}

/// One comment of a ticket with its author in full.
pub fn comment_response(comment: Comment, commenter: User) -> (response: CommentResponse)
    ensures
        response.id == comment.id,
        response.commenter == commenter,
        response.content == comment.content,
        response.commented == comment.commented,
{
    CommentResponse {
        id: comment.id,
        commenter,
        content: comment.content,
        commented: comment.commented,
    }
}

/// The endpoint that edits a ticket, once the store has said how many
/// rows it changed. Anything but one row is an error, and the assignments
/// are then left alone. Else, where the update names assignees, they are to
/// replace the assignments of the ticket, with the user who edits as the
/// assigner.
pub fn patch_ticket_by_id_endpoint(
    ticket: &UpdateTicket,
    ticket_id: i64,
    tickets_updated: u64,
    assigner_id: i64,
) -> (res: Result<(AlteredResourceResponse, Option<AssignmentReplacement>), TiraError>)
    ensures
        res is Ok <==> tickets_updated == 1,
        res matches Ok(done) ==> {
            &&& done.0.id == ticket_id
            &&& done.0.message@ == "Successfully edited ticket!"@
            &&& done.1 is Some <==> ticket.assignee_ids is Some
            &&& done.1 matches Some(change) ==> change.delete_ticket_id == ticket_id
                && change.insert@ == assignment_rows(
                ticket_id,
                ticket.assignee_ids->0@,
                assigner_id,
            )
        },
        res matches Err(e) ==> is_row_count_error(e, tickets_updated),
{
    match check_only_one_row_changed(tickets_updated) {
        Err(e) => Err(e),
        Ok(()) => {
            let change = match &ticket.assignee_ids {
                Some(assignee_ids) => Some(
                    update_assignments_by_ticket_id(ticket_id, assignee_ids, assigner_id),
                ),
                None => None,
            };
            let response = AlteredResourceResponse {
                message: "Successfully edited ticket!".to_owned(),
                id: ticket_id,
            };
            Ok((response, change))
        },
    }
}

} // verus!
