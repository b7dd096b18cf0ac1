use tira::errors::ErrorKind;
use tira::models::CreateTicket;
use tira::service::tickets::{
    check_comment, check_comment_content, check_ticket,
    create_assignment_by_ticket_id_and_assigner_id,
    create_assignments_by_ticket_id, create_comment_by_ticket_id_and_commenter_id,
    create_ticket_by_reporter_id, priority_is_known, status_is_known,
    update_assignments_by_ticket_id, AssignmentReplacement, NewAssignment, NewComment, NewTicket,
    MARKUP_PATTERN,
};

fn ticket(subject: &str, status: &str, priority: &str) -> CreateTicket {
    CreateTicket {
        category_id: Some(3),
        subject: subject.to_string(),
        description: Some("It leaks.".to_string()),
        status: status.to_string(),
        priority: priority.to_string(),
        assignee_ids: vec![4, 5],
    }
}

#[test]
fn a_valid_ticket_gives_its_row() {
    let row = create_ticket_by_reporter_id(&ticket("Fix the roof", "Backlog", "High"), 9).unwrap();
    assert_eq!(
        row,
        NewTicket {
            category_id: Some(3),
            subject: "Fix the roof".to_string(),
            description: Some("It leaks.".to_string()),
            status: "Backlog".to_string(),
            priority: "High".to_string(),
            reporter_id: 9,
            assignee_ids: vec![4, 5],
        }
    );
    // the reporter assigns each assignee once the ticket has its id
    assert_eq!(
        row.assignments(31),
        vec![
            NewAssignment { ticket_id: 31, assignee_id: 4, assigner_id: 9 },
            NewAssignment { ticket_id: 31, assignee_id: 5, assigner_id: 9 },
        ]
    );
}

#[test]
fn every_known_status_and_priority_is_accepted() {
    for status in ["Backlog", "In Progress", "Not Deployed Yet", "Done", "Closed"] {
        for priority in ["Low", "Medium", "High"] {
            assert!(create_ticket_by_reporter_id(&ticket("s", status, priority), 1).is_ok());
        }
    }
}

#[test]
fn a_ticket_without_subject_is_rejected() {
    let e = create_ticket_by_reporter_id(&ticket("", "Backlog", "High"), 9).unwrap_err();
    assert_eq!(e.kind, ErrorKind::ValidationError);
    assert_eq!(e.message, "Subject can not be empty");
    // the subject is judged first
    let e = create_ticket_by_reporter_id(&ticket("", "Open", "Urgent"), 9).unwrap_err();
    assert_eq!(e.message, "Subject can not be empty");
}

#[test]
fn a_ticket_with_an_unknown_status_is_rejected() {
    for status in ["", "Open", "backlog", "BACKLOG", "In Review", "Backlog ", "In  Progress"] {
        let e = create_ticket_by_reporter_id(&ticket("s", status, "High"), 9).unwrap_err();
        assert_eq!(e.kind, ErrorKind::ValidationError);
        assert_eq!(
            e.message,
            "Status must be 'Backlog', 'In Progress', 'Not Deployed Yet', 'Done', or 'Closed'"
        );
    }
    // the status is judged before the priority
    let e = create_ticket_by_reporter_id(&ticket("s", "Open", "Urgent"), 9).unwrap_err();
    assert_eq!(
        e.message,
        "Status must be 'Backlog', 'In Progress', 'Not Deployed Yet', 'Done', or 'Closed'"
    );
}

#[test]
fn a_ticket_with_an_unknown_priority_is_rejected() {
    for priority in ["", "low", "Urgent", "3", "High!"] {
        let e = create_ticket_by_reporter_id(&ticket("s", "Done", priority), 9).unwrap_err();
        assert_eq!(e.kind, ErrorKind::ValidationError);
        assert_eq!(e.message, "Priority must be 'Low', 'Medium', or 'High'");
    }
}

#[test]
fn statuses_and_priorities_are_told_apart() {
    assert!(status_is_known(&"In Progress".to_string()));
    assert!(!status_is_known(&"Low".to_string()));
    assert!(priority_is_known(&"Medium".to_string()));
    assert!(!priority_is_known(&"Done".to_string()));
}

#[test]
fn a_comment_of_tags_and_white_space_is_blank() {
    let e = create_comment_by_ticket_id_and_commenter_id("<p>   </p>", 1, 2).unwrap_err();
    assert_eq!(e.kind, ErrorKind::ValidationError);
    assert_eq!(e.message, "Comment cannot be blank!");
}

#[test]
fn a_comment_with_text_between_tags_is_accepted() {
    assert_eq!(
        create_comment_by_ticket_id_and_commenter_id("<p>ok</p>", 1, 2),
        Ok(NewComment { ticket_id: 1, commenter_id: 2, content: "<p>ok</p>".to_string() })
    );
}

#[test]
fn blank_comments_of_every_form_are_rejected() {
    for comment in [
        "",
        "   ",
        "\n\t\r",
        "&nbsp;",
        "&nbsp; <br/>\n\t",
        "<p>&nbsp;</p><p><br></p>",
        "<div><img src=\"x.png\"></div>",
        "< >",
        "</",
        "<a",
        "<p>  <unclosed",
        "\u{a0}",
        "\u{3000} \u{2003}",
    ] {
        let res = create_comment_by_ticket_id_and_commenter_id(comment, 1, 2);
        assert_eq!(res.unwrap_err().message, "Comment cannot be blank!");
    }
}

#[test]
fn comments_with_anything_left_are_accepted() {
    for comment in ["hello", "<>", "<", ">", "a<b", "&nbsp", "<p>x", "<p>&amp;</p>", " . ", "&nbsp;0"] {
        let row = create_comment_by_ticket_id_and_commenter_id(comment, 7, 8).unwrap();
        assert_eq!(row.ticket_id, 7);
        assert_eq!(row.commenter_id, 8);
        // the comment is stored as it was sent, tags and all
        assert_eq!(row.content, comment);
    }
}

#[test]
fn a_comment_is_judged_as_it_was_sent() {
    assert_eq!(check_comment("<p>ok</p>"), Ok(()));
    assert_eq!(check_comment("a<b"), Ok(()));
    let e = check_comment("<p>   </p>").unwrap_err();
    assert_eq!(e.kind, ErrorKind::ValidationError);
    assert_eq!(e.message, "Comment cannot be blank!");
}

#[test]
fn a_ticket_is_judged_as_it_was_sent() {
    assert_eq!(check_ticket(&ticket("s", "Done", "Low")), Ok(()));
    assert_eq!(check_ticket(&ticket("", "Done", "Low")).unwrap_err().message, "Subject can not be empty");
    assert_eq!(
        check_ticket(&ticket("s", "Done", "")).unwrap_err().message,
        "Priority must be 'Low', 'Medium', or 'High'"
    );
}

#[test]
fn what_is_left_of_a_comment_decides() {
    assert!(check_comment_content("ok").is_ok());
    assert!(check_comment_content(" ").is_ok());
    let e = check_comment_content("").unwrap_err();
    assert_eq!(e.kind, ErrorKind::ValidationError);
    assert_eq!(e.message, "Comment cannot be blank!");
}

#[test]
fn the_pattern_of_markup() {
    assert_eq!(MARKUP_PATTERN, r"(</?[^>]+(>|$)|&nbsp;|\s)");
}

#[test]
fn one_assignment_row() {
    assert_eq!(
        create_assignment_by_ticket_id_and_assigner_id(4, 10, 9),
        NewAssignment { ticket_id: 10, assignee_id: 4, assigner_id: 9 }
    );
}

#[test]
fn one_assignment_row_for_each_assignee() {
    assert_eq!(
        create_assignments_by_ticket_id(10, &vec![4, 5, 4], 9),
        vec![
            NewAssignment { ticket_id: 10, assignee_id: 4, assigner_id: 9 },
            NewAssignment { ticket_id: 10, assignee_id: 5, assigner_id: 9 },
            NewAssignment { ticket_id: 10, assignee_id: 4, assigner_id: 9 },
        ]
    );
    assert_eq!(create_assignments_by_ticket_id(10, &vec![], 9), vec![]);
}

#[test]
fn the_assignments_of_a_ticket_are_replaced_as_a_whole() {
    assert_eq!(
        update_assignments_by_ticket_id(10, &vec![6, 7], 2),
        AssignmentReplacement {
            delete_ticket_id: 10,
            insert: vec![
                NewAssignment { ticket_id: 10, assignee_id: 6, assigner_id: 2 },
                NewAssignment { ticket_id: 10, assignee_id: 7, assigner_id: 2 },
            ],
        }
    );
    // an empty set leaves the ticket without assignees
    assert_eq!(
        update_assignments_by_ticket_id(10, &vec![], 2),
        AssignmentReplacement { delete_ticket_id: 10, insert: vec![] }
    );
}
