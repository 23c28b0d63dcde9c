//! What the screen shows of a view state: the share of each pane, the labels
//! of the list, and the text of the selected message.

use vstd::prelude::*;
use vstd::string::StringExecFns;
use crate::app::{App, Pane};
use crate::message::{text_of, HeaderValue, Message, Part};

verus! {

/// The label of a message without a subject.
pub open spec fn missing_subject() -> Seq<char> {
    "MISSING SUBJECT"@
}

/// The label under which a message with this subject is listed.
pub open spec fn label_text(subject: Option<Seq<char>>) -> Seq<char> {
    match subject {
        Some(text) => text,
        None => missing_subject(),
    }
}

/// One header line: the name, a colon and a space, the value and a line
/// break. An absent header gives no line at all.
pub open spec fn header_line(name: Seq<char>, value: Option<Seq<char>>) -> Seq<char> {
    match value {
        Some(text) => name + ": "@ + text + "\n"@,
        None => Seq::empty(),
    }
}

/// The line that names the content type as major and minor type.
pub open spec fn content_type_line(content_type: Option<(String, String)>) -> Seq<char> {
    match content_type {
        Some((major, minor)) => "Content-Type: "@ + major@ + "/"@ + minor@ + "\n"@,
        None => Seq::empty(),
    }
}

/// The text shown for one body: the decoded text, or a diagnostic in its
/// place where decoding failed.
pub open spec fn body_text(body: Result<String, String>) -> Seq<char> {
    match body {
        Ok(text) => text@,
        Err(reason) => "Error decoding body: "@ + reason@,
    }
}

/// The text of a body tree in depth-first pre-order: the part's own body,
/// then each nested part in turn, with nothing between them.
pub open spec fn part_text(part: Part) -> Seq<char>
    decreases part,
{
    body_text(part.body) + children_text(part.children, 0)
}

/// The text of the nested parts from position `from` on.
pub open spec fn children_text(children: Vec<Part>, from: nat) -> Seq<char>
    decreases children, children.len() - from,
{
    if from >= children.len() {
        Seq::empty()
    } else {
        part_text(children[from as int]) + children_text(children, from + 1)
    }
}

/// The text of the detail pane for a message: the sender, date and content
/// type lines that the message has, an empty line, and the body tree.
pub open spec fn message_text(message: Message) -> Seq<char> {
    header_line("From"@, text_of(message.from)) + header_line("Date"@, text_of(message.date))
        + content_type_line(message.content_type) + "\n"@ + part_text(message.body)
}

/// The plan of one screen.
#[derive(Debug)]
pub struct RenderPlan {
    /// The share of the width given to the list pane, in percent.
    pub list_percent: u16,
    /// The share of the width given to the detail pane, in percent.
    pub detail_percent: u16,
    /// The index of the highlighted label.
    pub highlighted: usize,
    /// The number of lines of `text` that are scrolled out at the top.
    pub scroll: u16,
    /// The text of the detail pane before scrolling.
    pub text: String,
}

/// The shares of the list and the detail pane in percent: the active pane
/// gets the larger one.
pub open spec fn pane_shares(active: Pane) -> (u16, u16) {
    match active {
        Pane::List => (70u16, 30u16),
        Pane::Detail => (30u16, 70u16),
    }
}

/// Computes the shares of the list and the detail pane.
pub fn pane_percents(active: Pane) -> (shares: (u16, u16))
    ensures
        shares == pane_shares(active),
        shares.0 + shares.1 == 100,
{
    match active {
        Pane::List => (70, 30),
        Pane::Detail => (30, 70),
    }
}

/// The label for a message with this subject: the decoded subject, or the
/// placeholder where there is none.
pub fn subject_label(subject: &HeaderValue) -> (label: String)
    ensures
        label@ == label_text(subject.text()),
{
    match subject.as_text() {
        Some(text) => text.clone(),
        None => String::from_str("MISSING SUBJECT"),
    }
}

/// The labels of a mailbox, one for each message and in the same order.
pub fn list_labels(messages: &Vec<Message>) -> (labels: Vec<String>)
    ensures
        labels.len() == messages.len(),
        forall|i: int|
            0 <= i < messages.len() ==> (#[trigger] labels[i])@ == label_text(
                messages[i].subject.text(),
            ),
{
    let mut labels: Vec<String> = Vec::new();
    let mut i: usize = 0;
    while i < messages.len()
        invariant
            i <= messages.len(),
            labels.len() == i,
            forall|k: int|
                0 <= k < i ==> (#[trigger] labels[k])@ == label_text(messages[k].subject.text()),
        decreases messages.len() - i,
    {
        labels.push(subject_label(&messages[i].subject));
        i += 1;
    }
    labels
}

/// Appends the line of one header to `out`, if the header is present.
fn push_header_line(out: &mut String, name: &str, value: &Option<String>)
    ensures
        final(out)@ == old(out)@ + header_line(name@, text_of(*value)),
{
    if let Some(text) = value {
        out.append(name);
        out.append(": ");
        out.append(text.as_str());
        out.append("\n");
        assert(out@ =~= old(out)@ + (name@ + ": "@ + text@ + "\n"@));
    } else {
        assert(out@ =~= old(out)@ + Seq::<char>::empty());
    }
}

/// Appends the content type line to `out`, if the type is known.
fn push_content_type_line(out: &mut String, content_type: &Option<(String, String)>)
    ensures
        final(out)@ == old(out)@ + content_type_line(*content_type),
{
    if let Some(pair) = content_type {
        out.append("Content-Type: ");
        out.append(pair.0.as_str());
        out.append("/");
        out.append(pair.1.as_str());
        out.append("\n");
        assert(out@ =~= old(out)@ + ("Content-Type: "@ + pair.0@ + "/"@ + pair.1@ + "\n"@));
    } else {
        assert(out@ =~= old(out)@ + Seq::<char>::empty());
    }
}

/// Flattens a body tree into the text of its parts in depth-first
/// pre-order.
pub fn display_part(part: &Part) -> (out: String)
    ensures
        out@ == part_text(*part),
    decreases part,
{
    let mut out = match &part.body {
        Ok(text) => text.clone(),
        Err(reason) => {
            let mut diagnostic = String::from_str("Error decoding body: ");
            diagnostic.append(reason.as_str());
            diagnostic
        },
    };
    let mut i: usize = 0;
    proof {
        assert(out@ + children_text(part.children, 0) == part_text(*part));
    }
    while i < part.children.len()
        invariant
            i <= part.children.len(),
            out@ + children_text(part.children, i as nat) == part_text(*part),
        decreases part.children.len() - i,
    {
        let child = display_part(&part.children[i]);
        proof {
            assert(out@ + child@ + children_text(part.children, (i + 1) as nat) =~= out@
                + children_text(part.children, i as nat));
        }
        out.append(child.as_str());
        i += 1;
    }
    proof {
        assert(out@ + children_text(part.children, i as nat) =~= out@);
    }
    out
}

/// The text of the detail pane for `message`.
pub fn display_message(message: &Message) -> (out: String)
    ensures
        out@ == message_text(*message),
{
    let mut out = String::new();
    push_header_line(&mut out, "From", &message.from);
    push_header_line(&mut out, "Date", &message.date);
    push_content_type_line(&mut out, &message.content_type);
    out.append("\n");
    let body = display_part(&message.body);
    out.append(body.as_str());
    assert(out@ =~= message_text(*message));
    out
}

/// The plan of the screen for the current state: the panes' shares by the
/// active pane, the selection, the scroll offset, and the text of the
/// selected message (no text in an empty mailbox).
pub fn render_plan(app: &App) -> (plan: RenderPlan)
    requires
        app.wf(),
    ensures
        (plan.list_percent, plan.detail_percent) == pane_shares(app@.active),
        plan.highlighted as int == app@.selected,
        plan.scroll as int == app@.offset,
        plan.text@ == (if app.store().len() == 0 {
            Seq::<char>::empty()
        } else {
            message_text(app.store()[app@.selected])
        }),
{
    let shares = pane_percents(app.active_pane());
    let messages = app.messages();
    let text = if messages.len() == 0 {
        String::new()
    } else {
        display_message(&messages[app.selected()])
    };
    RenderPlan {
        list_percent: shares.0,
        detail_percent: shares.1,
        highlighted: app.selected(),
        scroll: app.scroll_offset(),
        text,
    }
}

} // verus!
