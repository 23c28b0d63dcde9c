//! What holds of the transition function on every state and mailbox.

use vstd::prelude::*;
use crate::app::{jump_size, run, step, valid, Command, Pane, ViewState};
use crate::message::{HeaderKind, Message};
use crate::thread::{
    child_of, lemma_first_match_is_least, next_sibling_of, parent_of, prev_sibling_of,
};

verus! {

/// The commands that move by rows in the active pane.
pub open spec fn is_row_command(command: Command) -> bool {
    command == Command::MoveDown || command == Command::MoveUp || command == Command::PageDown
        || command == Command::PageUp
}

/// The message a jump command leads to from position `i`, if it leads
/// anywhere; `None` for every other command.
pub open spec fn jump_target(msgs: Seq<Message>, i: int, command: Command) -> Option<int> {
    match command {
        Command::JumpToParent => parent_of(msgs, i),
        Command::JumpToChild => child_of(msgs, i),
        Command::JumpToPrevSibling => prev_sibling_of(msgs, i),
        Command::JumpToNextSibling => next_sibling_of(msgs, i),
        _ => None,
    }
}

/// A thread relation of a message of the mailbox names a message of the
/// mailbox.
pub proof fn law_jump_target_in_range(msgs: Seq<Message>, i: int, command: Command)
    requires
        0 <= i < msgs.len(),
    ensures
        jump_target(msgs, i, command) matches Some(j) ==> 0 <= j < msgs.len(),
{
    let len = msgs.len() as int;
    if let Some(target) = msgs[i].reply_to() {
        lemma_first_match_is_least(msgs, HeaderKind::MessageId, target, 0, len);
        lemma_first_match_is_least(msgs, HeaderKind::InReplyTo, target, 0, i);
        lemma_first_match_is_least(msgs, HeaderKind::InReplyTo, target, i + 1, len);
    }
    if let Some(target) = msgs[i].id() {
        lemma_first_match_is_least(msgs, HeaderKind::InReplyTo, target, i, len);
    }
}

/// No command leads out of the valid states: afterwards the selection still
/// names a message of the mailbox and the scroll offset is not negative.
/// This holds for a mailbox of one message as for any other, and for every
/// viewport height.
pub proof fn law_step_keeps_valid(s: ViewState, msgs: Seq<Message>, height: int, command: Command)
    requires
        valid(s, msgs.len() as int),
    ensures
        valid(step(s, msgs, height, command), msgs.len() as int),
{
    if msgs.len() > 0 {
        law_jump_target_in_range(msgs, s.selected, command);
    }
}

/// No sequence of commands leads out of the valid states.
pub proof fn law_run_keeps_valid(s: ViewState, msgs: Seq<Message>, events: Seq<(Command, int)>)
    requires
        valid(s, msgs.len() as int),
    ensures
        valid(run(s, msgs, events), msgs.len() as int),
    decreases events.len(),
{
    if events.len() > 0 {
        law_run_keeps_valid(s, msgs, events.drop_last());
        law_step_keeps_valid(
            run(s, msgs, events.drop_last()),
            msgs,
            events.last().1,
            events.last().0,
        );
    }
}

/// In the list pane, moving down and then up leads back to the message the
/// selection started on, except from the last message of a mailbox that has
/// more than one: there the move down is clamped and the move up is not.
pub proof fn law_down_then_up(s: ViewState, msgs: Seq<Message>, first: int, second: int)
    requires
        valid(s, msgs.len() as int),
        s.active == Pane::List,
    ensures
        step(step(s, msgs, first, Command::MoveDown), msgs, second, Command::MoveUp).selected
            == s.selected <==> (s.selected + 1 < msgs.len() || msgs.len() <= 1),
{
}

/// Scrolling up in the detail pane stops at the top: from offset 0 neither
/// a move up nor a page up changes anything.
pub proof fn law_scroll_up_stops_at_top(s: ViewState, msgs: Seq<Message>, height: int)
    requires
        valid(s, msgs.len() as int),
        s.active == Pane::Detail,
        s.offset == 0,
    ensures
        step(s, msgs, height, Command::MoveUp) == s,
        step(s, msgs, height, Command::PageUp) == s,
{
}

/// A command that changes the selection shows the newly selected message
/// from its top. So does every row command in the list pane of a mailbox
/// that is not empty, and every jump that finds its target, also where the
/// selection stays on the same message.
pub proof fn law_selection_change_resets_scroll(
    s: ViewState,
    msgs: Seq<Message>,
    height: int,
    command: Command,
)
    requires
        valid(s, msgs.len() as int),
    ensures
        ({
            let after = step(s, msgs, height, command);
            &&& after.selected != s.selected ==> after.offset == 0
            &&& msgs.len() > 0 && s.active == Pane::List && is_row_command(command)
                ==> after.offset == 0
            &&& msgs.len() > 0 && jump_target(msgs, s.selected, command) is Some
                ==> after.offset == 0
        }),
{
}

/// Switching panes and scrolling the detail pane never move the selection,
/// and no command but a switch changes the active pane.
pub proof fn law_selection_untouched(
    s: ViewState,
    msgs: Seq<Message>,
    height: int,
    command: Command,
)
    ensures
        command == Command::SwitchPane || (s.active == Pane::Detail && is_row_command(command))
            ==> step(s, msgs, height, command).selected == s.selected,
        command != Command::SwitchPane ==> step(s, msgs, height, command).active == s.active,
{
}

/// Switching panes twice restores the state: the same pane is active, and
/// neither the selection nor the scroll offset has changed.
pub proof fn law_switch_pane_twice(s: ViewState, msgs: Seq<Message>, first: int, second: int)
    ensures
        step(step(s, msgs, first, Command::SwitchPane), msgs, second, Command::SwitchPane) == s,
{
}

/// A page down in the list pane ends on the last message whenever the page
/// would reach or pass it, and never beyond it.
pub proof fn law_page_down_clamps(s: ViewState, msgs: Seq<Message>, height: int)
    requires
        valid(s, msgs.len() as int),
        msgs.len() > 0,
        s.active == Pane::List,
        s.selected + jump_size(height) >= msgs.len() - 1,
    ensures
        step(s, msgs, height, Command::PageDown).selected == msgs.len() - 1,
{
}

} // verus!
