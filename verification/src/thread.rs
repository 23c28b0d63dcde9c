//! Thread relations between messages, computed by scanning their headers.
//!
//! Nothing is indexed or cached: each lookup is one pass over a window of
//! the message sequence, and the first match in scan order wins.

use vstd::prelude::*;
use crate::message::{HeaderKind, Message};

verus! {

/// The first position in `lo..hi` whose header `kind` equals `target`.
pub open spec fn first_match(
    msgs: Seq<Message>,
    kind: HeaderKind,
    target: Seq<char>,
    lo: int,
    hi: int,
) -> Option<int>
    decreases hi - lo,
{
    if lo >= hi {
        None
    } else if msgs[lo].key(kind) == Some(target) {
        Some(lo)
    } else {
        first_match(msgs, kind, target, lo + 1, hi)
    }
}

/// The message that `msgs[i]` replies to: the first message anywhere in the
/// sequence whose identifier is the reply reference of `msgs[i]`.
pub open spec fn parent_of(msgs: Seq<Message>, i: int) -> Option<int> {
    match msgs[i].reply_to() {
        Some(target) => first_match(msgs, HeaderKind::MessageId, target, 0, msgs.len() as int),
        None => None,
    }
}

/// The first reply to `msgs[i]`, scanning from position `i` itself to the end.
pub open spec fn child_of(msgs: Seq<Message>, i: int) -> Option<int> {
    match msgs[i].id() {
        Some(target) => first_match(msgs, HeaderKind::InReplyTo, target, i, msgs.len() as int),
        None => None,
    }
}

/// The first message before position `i` that replies to the same message
/// as `msgs[i]`. It is the earliest such message, not the nearest.
pub open spec fn prev_sibling_of(msgs: Seq<Message>, i: int) -> Option<int> {
    match msgs[i].reply_to() {
        Some(target) => first_match(msgs, HeaderKind::InReplyTo, target, 0, i),
        None => None,
    }
}

/// The nearest message after position `i` that replies to the same message
/// as `msgs[i]`.
pub open spec fn next_sibling_of(msgs: Seq<Message>, i: int) -> Option<int> {
    match msgs[i].reply_to() {
        Some(target) => first_match(msgs, HeaderKind::InReplyTo, target, i + 1, msgs.len() as int),
        None => None,
    }
}

/// A position as a mathematical integer.
pub open spec fn position(found: Option<usize>) -> Option<int> {
    match found {
        Some(j) => Some(j as int),
        None => None,
    }
}

/// `first_match` returns a matching position of the window before which the
/// window holds no match, and `None` exactly when the window holds none.
pub proof fn lemma_first_match_is_least(
    msgs: Seq<Message>,
    kind: HeaderKind,
    target: Seq<char>,
    lo: int,
    hi: int,
)
    ensures
        match first_match(msgs, kind, target, lo, hi) {
            Some(j) => {
                &&& lo <= j < hi
                &&& msgs[j].key(kind) == Some(target)
                &&& forall|k: int| lo <= k < j ==> #[trigger] msgs[k].key(kind) != Some(target)
            },
            None => forall|k: int| lo <= k < hi ==> #[trigger] msgs[k].key(kind) != Some(target),
        },
    decreases hi - lo,
{
    if lo < hi && msgs[lo].key(kind) != Some(target) {
        lemma_first_match_is_least(msgs, kind, target, lo + 1, hi);
    }
}

/// Any matching position of the window, with no match before it, is the one
/// that `first_match` returns.
pub proof fn lemma_least_is_first_match(
    msgs: Seq<Message>,
    kind: HeaderKind,
    target: Seq<char>,
    lo: int,
    hi: int,
    j: int,
)
    requires
        lo <= j < hi,
        msgs[j].key(kind) == Some(target),
        forall|k: int| lo <= k < j ==> #[trigger] msgs[k].key(kind) != Some(target),
    ensures
        first_match(msgs, kind, target, lo, hi) == Some(j),
    decreases j - lo,
{
    if lo < j {
        lemma_least_is_first_match(msgs, kind, target, lo + 1, hi, j);
    }
}

/// Scans positions `lo..hi` in order for the first message whose header
/// `kind` has the value `target`.
pub fn find_first(
    msgs: &Vec<Message>,
    kind: HeaderKind,
    target: &String,
    lo: usize,
    hi: usize,
) -> (found: Option<usize>)
    requires
        lo <= hi <= msgs.len(),
    ensures
        position(found) == first_match(msgs@, kind, target@, lo as int, hi as int),
        found matches Some(j) ==> lo <= j < hi,
{
    let mut j: usize = lo;
    while j < hi
        invariant
            lo <= j <= hi <= msgs.len(),
            first_match(msgs@, kind, target@, lo as int, hi as int) == first_match(
                msgs@,
                kind,
                target@,
                j as int,
                hi as int,
            ),
        decreases hi - j,
    {
        if msgs[j].has_key(kind, target) {
            return Some(j);
        }
        j += 1;
    }
    None
}

/// The message that the one at `index` replies to.
pub fn find_parent(msgs: &Vec<Message>, index: usize) -> (found: Option<usize>)
    requires
        index < msgs.len(),
    ensures
        position(found) == parent_of(msgs@, index as int),
        found matches Some(j) ==> j < msgs.len(),
{
    match msgs[index].in_reply_to.as_text() {
        Some(target) => find_first(msgs, HeaderKind::MessageId, target, 0, msgs.len()),
        None => None,
    }
}

/// The first reply to the message at `index`, at or after `index`.
pub fn find_child(msgs: &Vec<Message>, index: usize) -> (found: Option<usize>)
    requires
        index < msgs.len(),
    ensures
        position(found) == child_of(msgs@, index as int),
        found matches Some(j) ==> index <= j < msgs.len(),
{
    match msgs[index].message_id.as_text() {
        Some(target) => find_first(msgs, HeaderKind::InReplyTo, target, index, msgs.len()),
        None => None,
    }
}

/// The earliest message before `index` with the same reply reference.
pub fn find_prev_sibling(msgs: &Vec<Message>, index: usize) -> (found: Option<usize>)
    requires
        index < msgs.len(),
    ensures
        position(found) == prev_sibling_of(msgs@, index as int),
        found matches Some(j) ==> j < index,
{
    match msgs[index].in_reply_to.as_text() {
        Some(target) => find_first(msgs, HeaderKind::InReplyTo, target, 0, index),
        None => None,
    }
}

/// The nearest message after `index` with the same reply reference.
pub fn find_next_sibling(msgs: &Vec<Message>, index: usize) -> (found: Option<usize>)
    requires
        index < msgs.len(),
    ensures
        position(found) == next_sibling_of(msgs@, index as int),
        found matches Some(j) ==> index < j < msgs.len(),
{
    match msgs[index].in_reply_to.as_text() {
        Some(target) => find_first(msgs, HeaderKind::InReplyTo, target, index + 1, msgs.len()),
        None => None,
    }
}

/// Going to the first reply of a message and from there to its parent leads
/// back to the message, provided no earlier message carries the same
/// identifier. With an earlier duplicate the parent lookup stops there.
pub proof fn law_parent_of_child(msgs: Seq<Message>, i: int, c: int)
    requires
        0 <= i < msgs.len(),
        child_of(msgs, i) == Some(c),
        forall|k: int| 0 <= k < i ==> #[trigger] msgs[k].id() != msgs[i].id(),
    ensures
        parent_of(msgs, c) == Some(i),
{
    let target = msgs[i].id()->Some_0;
    lemma_first_match_is_least(msgs, HeaderKind::InReplyTo, target, i, msgs.len() as int);
    assert forall|k: int| 0 <= k < i implies #[trigger] msgs[k].key(HeaderKind::MessageId)
        != Some(target) by {
        assert(msgs[k].id() != msgs[i].id());
    }
    lemma_least_is_first_match(msgs, HeaderKind::MessageId, target, 0, msgs.len() as int, i);
}

/// A sibling found in either direction replies to the same message, so both
/// have the same parent.
pub proof fn law_siblings_share_parent(msgs: Seq<Message>, i: int, s: int)
    requires
        0 <= i < msgs.len(),
        prev_sibling_of(msgs, i) == Some(s) || next_sibling_of(msgs, i) == Some(s),
    ensures
        0 <= s < msgs.len(),
        s != i,
        msgs[s].reply_to() == msgs[i].reply_to(),
        parent_of(msgs, s) == parent_of(msgs, i),
{
    let target = msgs[i].reply_to()->Some_0;
    lemma_first_match_is_least(msgs, HeaderKind::InReplyTo, target, 0, i);
    lemma_first_match_is_least(msgs, HeaderKind::InReplyTo, target, i + 1, msgs.len() as int);
}

} // verus!
