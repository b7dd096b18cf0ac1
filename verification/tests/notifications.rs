use tira::controller::tickets::{
    assignment_email, comment_emails, create_assignment_by_ticket_id_endpoint,
    create_comment_by_ticket_id_endpoint, create_ticket_endpoint, ticket_assignment_emails,
    ticket_creation_emails,
};
use tira::errors::ErrorKind;
use tira::models::{CreateTicket, User};
use tira::service::emails::{Email, NotificationQueue};

const LINK: &str = "https://tira.example/tickets";

fn user(id: i64, name: &str, email: bool, archived: bool) -> User {
    User {
        id,
        username: name.to_string(),
        password: String::new(),
        email_address: if email { Some(format!("{}@example.org", name)) } else { None },
        first_name: None,
        last_name: None,
        profile_picture_url: None,
        created: 0,
        archived,
    }
}

// reporter 1; 2 and 3 are active with an address; 4 has none; 5 is archived
fn users() -> Vec<User> {
    vec![
        user(1, "rita", true, false),
        user(2, "bob", true, false),
        user(3, "carl", true, false),
        user(4, "dora", false, false),
        user(5, "ed", true, true),
    ]
}

fn ticket(assignee_ids: Vec<i64>, description: Option<&str>) -> CreateTicket {
    CreateTicket {
        category_id: None,
        subject: "Fix the roof".to_string(),
        description: description.map(|d| d.to_string()),
        status: "Backlog".to_string(),
        priority: "High".to_string(),
        assignee_ids,
    }
}

fn created(to: &str, description: &str) -> Email {
    Email {
        to: format!("{}@example.org", to),
        subject: "Fix the roof".to_string(),
        body: format!(
            "<p>rita created ticket 'Fix the roof'.</p>{}<p><a href=\"https://tira.example/tickets/12\">Link to ticket</a></p>",
            description
        ),
    }
}

fn assigned(to: &str) -> Email {
    Email {
        to: format!("{}@example.org", to),
        subject: "Fix the roof".to_string(),
        body: "<p>rita assigned you to ticket 'Fix the roof'.</p><p><a href=\"https://tira.example/tickets/12\">Link to ticket</a></p>".to_string(),
    }
}

#[test]
fn every_active_user_but_the_reporter_hears_of_a_ticket() {
    let users = users();
    let emails = ticket_creation_emails(&users[0], &users, &ticket(vec![], Some("It leaks.")), 12, LINK);
    assert_eq!(emails, vec![created("bob", "<p>It leaks.</p>"), created("carl", "<p>It leaks.</p>")]);
}

#[test]
fn a_ticket_without_description_has_no_paragraph_for_it() {
    let users = users();
    let emails = ticket_creation_emails(&users[0], &users, &ticket(vec![], None), 12, LINK);
    assert_eq!(emails, vec![created("bob", ""), created("carl", "")]);
}

#[test]
fn a_reporter_who_assigns_themselves_gets_no_notice() {
    let users = users();
    let reporter = &users[0];
    let ticket = ticket(vec![1, 2], None);
    // reporter R = 1, assignees {A = R, B = 2}
    let emails = ticket_assignment_emails(reporter, &users, &ticket, 12, LINK);
    assert_eq!(emails, vec![assigned("bob")]);
    let mut queue = NotificationQueue::new(512);
    let (message, rest) =
        create_ticket_endpoint(&mut queue, reporter, &users, &ticket, 12, LINK).unwrap();
    assert_eq!(message, "Successfully created ticket!");
    assert_eq!(rest, vec![]);
    let mut sent = Vec::new();
    while let Some(job) = queue.dequeue() {
        sent.push(job);
    }
    assert_eq!(sent, vec![created("bob", ""), created("carl", ""), assigned("bob")]);
    assert!(sent.iter().all(|e| e.to != "rita@example.org"));
}

#[test]
fn assignees_without_address_or_unknown_get_no_notice() {
    let users = users();
    let emails =
        ticket_assignment_emails(&users[0], &users, &ticket(vec![4, 99, 3, 5, 3], None), 12, LINK);
    // an archived assignee with an address is told; one asked for twice is told once
    assert_eq!(emails, vec![assigned("carl"), assigned("ed")]);
}

#[test]
fn notices_that_find_no_room_come_back() {
    let users = users();
    let ticket = ticket(vec![2, 3], None);
    let mut queue = NotificationQueue::new(3);
    queue.enqueue(created("zoe", "")).unwrap();
    let (_, rest) =
        create_ticket_endpoint(&mut queue, &users[0], &users, &ticket, 12, LINK).unwrap();
    assert_eq!(queue.len(), 3);
    assert_eq!(rest, vec![assigned("bob"), assigned("carl")]);
    assert_eq!(queue.dequeue(), Some(created("zoe", "")));
    assert_eq!(queue.dequeue(), Some(created("bob", "")));
    assert_eq!(queue.dequeue(), Some(created("carl", "")));
}

#[test]
fn every_user_but_the_commenter_hears_of_a_comment() {
    let users = users();
    let commenter = &users[1];
    let subject = "Fix the roof".to_string();
    let emails = comment_emails(commenter, &users, "<p>On it.</p>", &subject, 12, LINK);
    let body = "<p>bob added a comment to ticket 'Fix the roof'.</p><p><p>On it.</p></p><p><a href=\"https://tira.example/tickets/12\">Link to ticket</a></p>";
    let to = |name: &str| Email {
        to: format!("{}@example.org", name),
        subject: subject.clone(),
        body: body.to_string(),
    };
    // every user of the list is told, whatever they have to do with the ticket
    assert_eq!(emails, vec![to("rita"), to("carl"), to("ed")]);
    let mut queue = NotificationQueue::new(2);
    let (response, rest) = create_comment_by_ticket_id_endpoint(
        &mut queue,
        commenter,
        &users,
        "<p>On it.</p>",
        &subject,
        12,
        31,
        LINK,
    )
    .unwrap();
    assert_eq!(response.message, "Successfully created comment!");
    assert_eq!(response.id, 31);
    assert_eq!(rest, vec![to("ed")]);
    assert_eq!(queue.dequeue(), Some(to("rita")));
    assert_eq!(queue.dequeue(), Some(to("carl")));
}

#[test]
fn an_assignee_with_an_address_gets_one_notice() {
    let users = users();
    let subject = "Fix the roof".to_string();
    assert_eq!(assignment_email(&users[1], &users[0], &subject, 12, LINK), Some(assigned("bob")));
    assert_eq!(assignment_email(&users[3], &users[0], &subject, 12, LINK), None);
    // who assigns themselves through this endpoint is told as anyone else
    let own = assignment_email(&users[0], &users[0], &subject, 12, LINK).unwrap();
    assert_eq!(own, assigned("rita"));
    let mut queue = NotificationQueue::new(512);
    let (response, rest) =
        create_assignment_by_ticket_id_endpoint(&mut queue, &users[1], &users[0], &subject, 12, 77, LINK);
    assert_eq!(response.message, "Successfully created assignment!");
    assert_eq!(response.id, 77);
    assert_eq!(rest, vec![]);
    assert_eq!(queue.len(), 1);
    assert_eq!(queue.dequeue(), Some(assigned("bob")));
    let (_, rest) =
        create_assignment_by_ticket_id_endpoint(&mut queue, &users[3], &users[0], &subject, 12, 78, LINK);
    assert_eq!(rest, vec![]);
    assert_eq!(queue.len(), 0);
}

#[test]
fn nobody_is_told_of_a_ticket_that_breaks_a_rule() {
    let users = users();
    let mut faulty = Vec::new();
    let mut without_subject = ticket(vec![2, 3], Some("It leaks."));
    without_subject.subject = String::new();
    faulty.push((without_subject, "Subject can not be empty"));
    let mut unknown_status = ticket(vec![2, 3], None);
    unknown_status.status = "Open".to_string();
    faulty.push((
        unknown_status,
        "Status must be 'Backlog', 'In Progress', 'Not Deployed Yet', 'Done', or 'Closed'",
    ));
    let mut unknown_priority = ticket(vec![2, 3], None);
    unknown_priority.priority = "Urgent".to_string();
    faulty.push((unknown_priority, "Priority must be 'Low', 'Medium', or 'High'"));
    for (ticket, message) in faulty {
        let mut queue = NotificationQueue::new(4);
        queue.enqueue(created("zoe", "")).unwrap();
        let e = create_ticket_endpoint(&mut queue, &users[0], &users, &ticket, 12, LINK).unwrap_err();
        assert_eq!(e.kind, ErrorKind::ValidationError);
        assert_eq!(e.message, message);
        // the queue is as it was
        assert_eq!(queue.len(), 1);
        assert_eq!(queue.capacity(), 4);
        assert_eq!(queue.dequeue(), Some(created("zoe", "")));
        assert_eq!(queue.dequeue(), None);
    }
}

#[test]
fn nobody_is_told_of_a_blank_comment() {
    let users = users();
    let subject = "Fix the roof".to_string();
    for comment in ["", "<p>   </p>", "&nbsp;<br/>\n"] {
        let mut queue = NotificationQueue::new(4);
        queue.enqueue(created("zoe", "")).unwrap();
        let e = create_comment_by_ticket_id_endpoint(
            &mut queue, &users[1], &users, comment, &subject, 12, 31, LINK,
        )
        .unwrap_err();
        assert_eq!(e.kind, ErrorKind::ValidationError);
        assert_eq!(e.message, "Comment cannot be blank!");
        assert_eq!(queue.len(), 1);
        assert_eq!(queue.dequeue(), Some(created("zoe", "")));
    }
}

#[test]
fn nobody_is_told_twice_of_a_ticket() {
    let users = users();
    // the reporter and bob are asked for twice, carl once
    let ticket = ticket(vec![2, 1, 3, 2, 1], None);
    let mut queue = NotificationQueue::new(512);
    let (_, rest) =
        create_ticket_endpoint(&mut queue, &users[0], &users, &ticket, 12, LINK).unwrap();
    assert_eq!(rest, vec![]);
    let mut sent = Vec::new();
    while let Some(job) = queue.dequeue() {
        sent.push(job);
    }
    assert_eq!(
        sent,
        vec![created("bob", ""), created("carl", ""), assigned("bob"), assigned("carl")]
    );
    assert!(sent.iter().all(|e| e.to != "rita@example.org"));
}
