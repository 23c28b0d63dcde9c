//! The parts of a mail message that navigation and display read.

use vstd::prelude::*;

verus! {

/// One node of a message's body tree: its decoded text, or the reason the
/// decoding failed, and the nested parts of a multipart body in order.
#[derive(Debug)]
pub struct Part {
    pub body: Result<String, String>,
    pub children: Vec<Part>,
}

/// What the lookup of one header in a message gave. Finding the header and
/// decoding its value are two steps, and the second can fail on its own.
#[derive(Debug)]
pub enum HeaderValue {
    /// The message has no header of that name.
    Absent,
    /// The header is there, but its value does not decode to a string; the
    /// text says why.
    Undecodable(String),
    /// The decoded value.
    Text(String),
}

/// A parsed mail message, reduced to plain values.
///
/// `message_id` is the header that identifies this message, `in_reply_to`
/// the one naming the message it answers. `from` and `date` hold raw header
/// values; `content_type` holds the major and minor type.
#[derive(Debug)]
pub struct Message {
    pub subject: HeaderValue,
    pub message_id: HeaderValue,
    pub in_reply_to: HeaderValue,
    pub from: Option<String>,
    pub date: Option<String>,
    pub content_type: Option<(String, String)>,
    pub body: Part,
}

/// The two headers from which thread relations are derived.
#[derive(Clone, Copy, PartialEq, Eq, Structural, Debug)]
pub enum HeaderKind {
    MessageId,
    InReplyTo,
}

impl HeaderKind {
    /// The name under which the header stands in a message. Names are
    /// matched exactly, letter case included.
    pub open spec fn name_text(self) -> Seq<char> {
        match self {
            HeaderKind::MessageId => "Message-ID"@,
            HeaderKind::InReplyTo => "In-Reply-To"@,
        }
    }

    /// The name under which the header stands in a message.
    pub fn name(self) -> (name: &'static str)
        ensures
            name@ == self.name_text(),
    {
        match self {
            HeaderKind::MessageId => "Message-ID",
            HeaderKind::InReplyTo => "In-Reply-To",
        }
    }
}

/// The characters of an optional string.
pub open spec fn text_of(value: Option<String>) -> Option<Seq<char>> {
    match value {
        Some(s) => Some(s@),
        None => None,
    }
}

impl HeaderValue {
    /// The decoded value. A header that is absent and one whose value does
    /// not decode both count as no value.
    pub open spec fn text(self) -> Option<Seq<char>> {
        match self {
            HeaderValue::Text(value) => Some(value@),
            _ => None,
        }
    }

    /// The decoded value, if the header is present and decodes.
    pub fn as_text(&self) -> (value: Option<&String>)
        ensures
            match value {
                Some(text) => self.text() == Some(text@),
                None => self.text() is None,
            },
    {
        match self {
            HeaderValue::Text(value) => Some(value),
            _ => None,
        }
    }

    /// The value for the outcome of a lookup followed by a decoding: `None`
    /// for no such header, `Err` for a value that did not decode.
    pub fn from_lookup(found: Option<Result<String, String>>) -> (value: HeaderValue)
        ensures
            value == (match found {
                None => HeaderValue::Absent,
                Some(Err(reason)) => HeaderValue::Undecodable(reason),
                Some(Ok(text)) => HeaderValue::Text(text),
            }),
    {
        match found {
            None => HeaderValue::Absent,
            Some(Err(reason)) => HeaderValue::Undecodable(reason),
            Some(Ok(text)) => HeaderValue::Text(text),
        }
    }
}

impl Message {
    /// The identifier of this message, if it has one.
    pub open spec fn id(&self) -> Option<Seq<char>> {
        self.message_id.text()
    }

    /// The identifier of the message this one replies to, if it names one.
    pub open spec fn reply_to(&self) -> Option<Seq<char>> {
        self.in_reply_to.text()
    }

    /// The value of the header `kind`.
    pub open spec fn key(&self, kind: HeaderKind) -> Option<Seq<char>> {
        match kind {
            HeaderKind::MessageId => self.id(),
            HeaderKind::InReplyTo => self.reply_to(),
        }
    }

    /// Whether the header `kind` is present with exactly the value `target`.
    pub fn has_key(&self, kind: HeaderKind, target: &String) -> (found: bool)
        ensures
            found == (self.key(kind) == Some(target@)),
    {
        let field = match kind {
            HeaderKind::MessageId => &self.message_id,
            HeaderKind::InReplyTo => &self.in_reply_to,
        };
        match field.as_text() {
            Some(value) => *value == *target,
            None => false,
        }
    }
}

} // verus!
