use mailnav::app::{App, Command, Pane, Size};
use mailnav::message::{HeaderValue, Message, Part};
use mailnav::render::{
    display_message, display_part, list_labels, pane_percents, render_plan, subject_label,
};

fn leaf(body: &str) -> Part {
    Part { body: Ok(body.to_string()), children: Vec::new() }
}

fn bare(body: Part) -> Message {
    Message {
        subject: HeaderValue::Absent,
        message_id: HeaderValue::Absent,
        in_reply_to: HeaderValue::Absent,
        from: None,
        date: None,
        content_type: None,
        body,
    }
}

#[test]
fn active_pane_gets_seventy_percent() {
    assert_eq!(pane_percents(Pane::List), (70, 30));
    assert_eq!(pane_percents(Pane::Detail), (30, 70));
}

#[test]
fn missing_subject_gets_placeholder() {
    assert_eq!(subject_label(&HeaderValue::Absent), "MISSING SUBJECT");
    assert_eq!(subject_label(&HeaderValue::Undecodable("Hello".to_string())), "MISSING SUBJECT");
    assert_eq!(subject_label(&HeaderValue::Text("Hello".to_string())), "Hello");
    assert_eq!(subject_label(&HeaderValue::Text(String::new())), "");
}

#[test]
fn labels_follow_the_store_order() {
    let mut first = bare(leaf(""));
    first.subject = HeaderValue::Text("one".to_string());
    let second = bare(leaf(""));
    let mut third = bare(leaf(""));
    third.subject = HeaderValue::Text("three".to_string());
    let labels = list_labels(&vec![first, second, third]);
    assert_eq!(labels, vec!["one".to_string(), "MISSING SUBJECT".to_string(), "three".to_string()]);
    assert_eq!(list_labels(&Vec::new()), Vec::<String>::new());
}

#[test]
fn message_without_headers_shows_blank_line_and_body() {
    assert_eq!(display_message(&bare(leaf("hello"))), "\nhello");
    assert_eq!(display_message(&bare(leaf(""))), "\n");
}

#[test]
fn message_headers_come_in_fixed_order() {
    let mut m = bare(leaf("text"));
    m.from = Some("a@example.org".to_string());
    m.date = Some("Mon, 1 Jan 2018 00:00:00 +0000".to_string());
    m.content_type = Some(("text".to_string(), "plain".to_string()));
    assert_eq!(
        display_message(&m),
        "From: a@example.org\nDate: Mon, 1 Jan 2018 00:00:00 +0000\nContent-Type: text/plain\n\ntext"
    );
    m.from = None;
    assert_eq!(
        display_message(&m),
        "Date: Mon, 1 Jan 2018 00:00:00 +0000\nContent-Type: text/plain\n\ntext"
    );
    m.date = None;
    assert_eq!(display_message(&m), "Content-Type: text/plain\n\ntext");
}

#[test]
fn parts_are_flattened_depth_first() {
    let tree = Part {
        body: Ok("a".to_string()),
        children: vec![
            Part { body: Ok("b".to_string()), children: vec![leaf("c"), leaf("d")] },
            leaf("e"),
            Part { body: Ok("f".to_string()), children: vec![leaf("g")] },
        ],
    };
    assert_eq!(display_part(&tree), "abcdefg");
    assert_eq!(display_message(&bare(tree)), "\nabcdefg");
}

#[test]
fn undecodable_part_shows_diagnostic_and_siblings_still_render() {
    let tree = Part {
        body: Ok("preamble|".to_string()),
        children: vec![
            Part { body: Err("bad charset".to_string()), children: Vec::new() },
            leaf("|ok"),
        ],
    };
    assert_eq!(display_part(&tree), "preamble|Error decoding body: bad charset|ok");
    let broken = Part { body: Err(String::new()), children: vec![leaf("x")] };
    assert_eq!(display_part(&broken), "Error decoding body: x");
}

#[test]
fn plan_follows_the_state() {
    let mut first = bare(leaf("first body"));
    first.from = Some("me".to_string());
    let second = bare(leaf("second body"));
    let mut app = App::new(vec!["1".to_string(), "2".to_string()], vec![first, second]);
    app.resize(Size { width: 80, height: 24 });
    let plan = render_plan(&app);
    assert_eq!((plan.list_percent, plan.detail_percent), (70, 30));
    assert_eq!(plan.highlighted, 0);
    assert_eq!(plan.scroll, 0);
    assert_eq!(plan.text, "From: me\n\nfirst body");
    app.apply(Command::MoveDown);
    app.apply(Command::SwitchPane);
    app.apply(Command::MoveDown);
    app.apply(Command::MoveDown);
    let plan = render_plan(&app);
    assert_eq!((plan.list_percent, plan.detail_percent), (30, 70));
    assert_eq!(plan.highlighted, 1);
    assert_eq!(plan.scroll, 2);
    assert_eq!(plan.text, "\nsecond body");
}

#[test]
fn plan_of_empty_store_has_no_text() {
    let app = App::new(Vec::new(), Vec::new());
    let plan = render_plan(&app);
    assert_eq!(plan.highlighted, 0);
    assert_eq!(plan.scroll, 0);
    assert_eq!(plan.text, "");
    assert_eq!((plan.list_percent, plan.detail_percent), (70, 30));
}
