//! The view state of the viewer and the commands that change it.
//!
//! The state is a selected message, the pane that has the focus and the
//! scroll offset of the detail pane. Every command is one total transition
//! on that state; the mailbox itself is never changed.

use vstd::prelude::*;
use crate::message::Message;
use crate::thread::{
    child_of, find_child, find_next_sibling, find_parent, find_prev_sibling, next_sibling_of,
    parent_of, position, prev_sibling_of,
};

verus! {

/// The two regions of the screen.
#[derive(Clone, Copy, PartialEq, Eq, Structural, Debug)]
pub enum Pane {
    /// The list of subjects.
    List,
    /// The text of the selected message.
    Detail,
}

/// A navigation command.
#[derive(Clone, Copy, PartialEq, Eq, Structural, Debug)]
pub enum Command {
    MoveDown,
    MoveUp,
    PageDown,
    PageUp,
    SwitchPane,
    JumpToParent,
    JumpToChild,
    JumpToPrevSibling,
    JumpToNextSibling,
    Quit,
}

/// A key press, as far as the viewer tells keys apart.
#[derive(Clone, Copy, PartialEq, Eq, Structural, Debug)]
pub enum Key {
    Char(char),
    Up,
    Down,
    PageUp,
    PageDown,
    Other,
}

/// What the caller does after a command has been applied.
#[derive(Clone, Copy, PartialEq, Eq, Structural, Debug)]
pub enum Action {
    /// Draw the screen again and wait for the next key.
    Redraw,
    /// Leave the session.
    Exit,
}

/// The size of the terminal in cells.
#[derive(Clone, Copy, PartialEq, Eq, Structural, Debug)]
pub struct Size {
    pub width: u16,
    pub height: u16,
}

/// The navigation state as mathematical values.
pub struct ViewState {
    pub selected: int,
    pub active: Pane,
    pub offset: int,
}

/// The largest scroll offset that the state can hold.
pub open spec fn max_offset() -> int {
    u16::MAX as int
}

/// The smaller of two integers.
pub open spec fn least(a: int, b: int) -> int {
    if a <= b {
        a
    } else {
        b
    }
}

/// The larger of two integers.
pub open spec fn greatest(a: int, b: int) -> int {
    if a >= b {
        a
    } else {
        b
    }
}

/// The number of rows a page command moves by: the viewport's height less
/// the two border rows, and nothing where the viewport has no room inside
/// its border.
pub open spec fn jump_size(height: int) -> int {
    greatest(height - 2, 0)
}

/// The pane that is not `pane`.
pub open spec fn other_pane(pane: Pane) -> Pane {
    match pane {
        Pane::List => Pane::Detail,
        Pane::Detail => Pane::List,
    }
}

/// A state over a mailbox of `len` messages is valid when the selection
/// names one of the messages (or is 0 in an empty mailbox) and the offset
/// lies in the range of the scroll counter.
pub open spec fn valid(s: ViewState, len: int) -> bool {
    &&& 0 <= s.offset <= max_offset()
    &&& if len == 0 {
        s.selected == 0
    } else {
        0 <= s.selected < len
    }
}

/// The state in which a session starts.
pub open spec fn initial() -> ViewState {
    ViewState { selected: 0, active: Pane::List, offset: 0 }
}

/// Selects message `index` and shows it from its top.
pub open spec fn select(s: ViewState, index: int) -> ViewState {
    ViewState { selected: index, active: s.active, offset: 0 }
}

/// The state with another scroll offset.
pub open spec fn scroll_to(s: ViewState, offset: int) -> ViewState {
    ViewState { selected: s.selected, active: s.active, offset: offset }
}

/// Follows a thread relation: selects the related message if there is one,
/// and changes nothing otherwise.
pub open spec fn jump(s: ViewState, target: Option<int>) -> ViewState {
    match target {
        Some(index) => select(s, index),
        None => s,
    }
}

/// Moves by `delta` rows in the active pane: the selection in the list,
/// clamped to the mailbox, or the scroll offset in the detail pane, clamped
/// to the range of the counter.
pub open spec fn move_by(s: ViewState, len: int, delta: int) -> ViewState {
    match s.active {
        Pane::List => select(s, greatest(least(s.selected + delta, len - 1), 0)),
        Pane::Detail => scroll_to(s, greatest(least(s.offset + delta, max_offset()), 0)),
    }
}

/// The state after `command`, in a mailbox `msgs` shown in a viewport of
/// `height` rows.
///
/// Switching panes always works. In an empty mailbox no other command does
/// anything. Otherwise the move and page commands act on the active pane,
/// and the jump commands follow a thread relation from the selected message
/// whichever pane is active.
pub open spec fn step(s: ViewState, msgs: Seq<Message>, height: int, command: Command)
    -> ViewState {
    if command == Command::SwitchPane {
        ViewState { selected: s.selected, active: other_pane(s.active), offset: s.offset }
    } else if msgs.len() == 0 {
        s
    } else {
        match command {
            Command::MoveDown => move_by(s, msgs.len() as int, 1),
            Command::MoveUp => move_by(s, msgs.len() as int, -1),
            Command::PageDown => move_by(s, msgs.len() as int, jump_size(height)),
            Command::PageUp => move_by(s, msgs.len() as int, -jump_size(height)),
            Command::JumpToParent => jump(s, parent_of(msgs, s.selected)),
            Command::JumpToChild => jump(s, child_of(msgs, s.selected)),
            Command::JumpToPrevSibling => jump(s, prev_sibling_of(msgs, s.selected)),
            Command::JumpToNextSibling => jump(s, next_sibling_of(msgs, s.selected)),
            Command::SwitchPane | Command::Quit => s,
        }
    }
}

/// The state after a sequence of commands, each given with the viewport
/// height in force when it arrives.
pub open spec fn run(s: ViewState, msgs: Seq<Message>, events: Seq<(Command, int)>) -> ViewState
    decreases events.len(),
{
    if events.len() == 0 {
        s
    } else {
        step(run(s, msgs, events.drop_last()), msgs, events.last().1, events.last().0)
    }
}

/// The state after the command bound to `key`; a key without a binding
/// changes nothing.
pub open spec fn step_key(s: ViewState, msgs: Seq<Message>, height: int, key: Key) -> ViewState {
    match key_command(key) {
        Some(command) => step(s, msgs, height, command),
        None => s,
    }
}

/// The state after a sequence of key presses in a viewport of `height` rows.
pub open spec fn run_keys(s: ViewState, msgs: Seq<Message>, height: int, keys: Seq<Key>)
    -> ViewState
    decreases keys.len(),
{
    if keys.len() == 0 {
        s
    } else {
        step_key(run_keys(s, msgs, height, keys.drop_last()), msgs, height, keys.last())
    }
}

/// Whether `key` ends the session.
pub open spec fn is_quit_key(key: Key) -> bool {
    key_command(key) == Some(Command::Quit)
}

/// The position of the first key that ends the session, or the number of
/// keys if none does.
pub open spec fn first_quit(keys: Seq<Key>) -> int
    decreases keys.len(),
{
    if keys.len() == 0 {
        0
    } else if is_quit_key(keys[0]) {
        0
    } else {
        1 + first_quit(keys.subrange(1, keys.len() as int))
    }
}

/// The command bound to a key, if any.
pub open spec fn key_command(key: Key) -> Option<Command> {
    match key {
        Key::Char('q') => Some(Command::Quit),
        Key::Char('h') => Some(Command::JumpToParent),
        Key::Char('l') => Some(Command::JumpToChild),
        Key::Char('N') => Some(Command::JumpToPrevSibling),
        Key::Char('n') => Some(Command::JumpToNextSibling),
        Key::Char('\t') => Some(Command::SwitchPane),
        Key::Down | Key::Char('j') => Some(Command::MoveDown),
        Key::Up | Key::Char('k') => Some(Command::MoveUp),
        Key::PageUp => Some(Command::PageUp),
        Key::PageDown => Some(Command::PageDown),
        _ => None,
    }
}

/// Maps a key press to the command it is bound to.
pub fn command_for_key(key: Key) -> (command: Option<Command>)
    ensures
        command == key_command(key),
{
    match key {
        Key::Char('q') => Some(Command::Quit),
        Key::Char('h') => Some(Command::JumpToParent),
        Key::Char('l') => Some(Command::JumpToChild),
        Key::Char('N') => Some(Command::JumpToPrevSibling),
        Key::Char('n') => Some(Command::JumpToNextSibling),
        Key::Char('\t') => Some(Command::SwitchPane),
        Key::Down | Key::Char('j') => Some(Command::MoveDown),
        Key::Up | Key::Char('k') => Some(Command::MoveUp),
        Key::PageUp => Some(Command::PageUp),
        Key::PageDown => Some(Command::PageDown),
        _ => None,
    }
}

/// `first_quit` names the first key that ends the session: no key before
/// that position does, and the key at it does unless it is past the end.
pub proof fn lemma_first_quit(keys: Seq<Key>)
    ensures
        0 <= first_quit(keys) <= keys.len(),
        forall|k: int| 0 <= k < first_quit(keys) ==> !is_quit_key(#[trigger] keys[k]),
        first_quit(keys) < keys.len() ==> is_quit_key(keys[first_quit(keys)]),
    decreases keys.len(),
{
    if keys.len() > 0 && !is_quit_key(keys[0]) {
        let rest = keys.subrange(1, keys.len() as int);
        lemma_first_quit(rest);
        assert forall|k: int| 0 <= k < first_quit(keys) implies !is_quit_key(
            #[trigger] keys[k],
        ) by {
            if k > 0 {
                assert(keys[k] == rest[k - 1]);
            }
        }
        if first_quit(keys) < keys.len() {
            assert(rest[first_quit(rest)] == keys[first_quit(keys)]);
        }
    }
}

/// The key that ends the session leaves the view state as it is.
pub proof fn lemma_quit_is_silent(s: ViewState, msgs: Seq<Message>, height: int, key: Key)
    requires
        is_quit_key(key),
    ensures
        step_key(s, msgs, height, key) == s,
{
}

/// The viewer: a mailbox, the labels of its list, and the view state.
pub struct App {
    size: Size,
    names: Vec<String>,
    messages: Vec<Message>,
    selected: usize,
    active: Pane,
    offset: u16,
}

impl View for App {
    type V = ViewState;

    closed spec fn view(&self) -> ViewState {
        ViewState {
            selected: self.selected as int,
            active: self.active,
            offset: self.offset as int,
        }
    }
}

impl App {
    /// The mailbox.
    pub closed spec fn store(&self) -> Seq<Message> {
        self.messages@
    }

    /// The labels shown in the list pane.
    pub closed spec fn labels(&self) -> Seq<String> {
        self.names@
    }

    /// The viewport size last reported.
    pub closed spec fn viewport(&self) -> Size {
        self.size
    }

    /// The view state is valid for the mailbox.
    pub open spec fn wf(&self) -> bool {
        valid(self@, self.store().len() as int)
    }

    /// A viewer over `messages`, listed under `names`, in its initial state
    /// and with an empty viewport.
    pub fn new(names: Vec<String>, messages: Vec<Message>) -> (app: App)
        ensures
            app.wf(),
            app@ == initial(),
            app.store() == messages@,
            app.labels() == names@,
            app.viewport() == (Size { width: 0, height: 0 }),
    {
        App {
            size: Size { width: 0, height: 0 },
            names,
            messages,
            selected: 0,
            active: Pane::List,
            offset: 0,
        }
    }

    /// The index of the selected message.
    pub fn selected(&self) -> (index: usize)
        ensures
            index as int == self@.selected,
    {
        self.selected
    }

    /// The pane that has the focus.
    pub fn active_pane(&self) -> (pane: Pane)
        ensures
            pane == self@.active,
    {
        self.active
    }

    /// The number of lines the detail pane is scrolled down by.
    pub fn scroll_offset(&self) -> (offset: u16)
        ensures
            offset as int == self@.offset,
    {
        self.offset
    }

    /// The viewport size last reported.
    pub fn size(&self) -> (size: Size)
        ensures
            size == self.viewport(),
    {
        self.size
    }

    /// The mailbox.
    pub fn messages(&self) -> (messages: &Vec<Message>)
        ensures
            messages@ == self.store(),
    {
        &self.messages
    }

    /// The labels shown in the list pane.
    pub fn names(&self) -> (names: &Vec<String>)
        ensures
            names@ == self.labels(),
    {
        &self.names
    }

    /// Records the size the terminal reports. Nothing else changes.
    pub fn resize(&mut self, size: Size)
        ensures
            final(self).viewport() == size,
            final(self)@ == old(self)@,
            final(self).store() == old(self).store(),
            final(self).labels() == old(self).labels(),
    {
        self.size = size;
    }

    /// The number of rows a page command moves by in the current viewport.
    pub fn page_jump(&self) -> (rows: u16)
        ensures
            rows as int == jump_size(self.viewport().height as int),
    {
        if self.size.height >= 2 {
            self.size.height - 2
        } else {
            0
        }
    }

    /// Selects `target` if it names a message; leaves the state alone if the
    /// lookup found nothing.
    fn jump_to(&mut self, target: Option<usize>)
        requires
            old(self).wf(),
            target matches Some(j) ==> j < old(self).store().len(),
        ensures
            final(self).wf(),
            final(self)@ == jump(old(self)@, position(target)),
            final(self).store() == old(self).store(),
            final(self).labels() == old(self).labels(),
            final(self).viewport() == old(self).viewport(),
    {
        if let Some(index) = target {
            self.selected = index;
            self.offset = 0;
        }
    }

    /// Jumps to the message the selected one replies to.
    pub fn find_parent(&mut self)
        requires
            old(self).wf(),
        ensures
            final(self).wf(),
            final(self)@ == step(
                old(self)@,
                old(self).store(),
                old(self).viewport().height as int,
                Command::JumpToParent,
            ),
            final(self).store() == old(self).store(),
            final(self).labels() == old(self).labels(),
            final(self).viewport() == old(self).viewport(),
    {
        if self.messages.len() > 0 {
            let target = find_parent(&self.messages, self.selected);
            self.jump_to(target);
        }
    }

    /// Jumps to the first reply to the selected message.
    pub fn find_child(&mut self)
        requires
            old(self).wf(),
        ensures
            final(self).wf(),
            final(self)@ == step(
                old(self)@,
                old(self).store(),
                old(self).viewport().height as int,
                Command::JumpToChild,
            ),
            final(self).store() == old(self).store(),
            final(self).labels() == old(self).labels(),
            final(self).viewport() == old(self).viewport(),
    {
        if self.messages.len() > 0 {
            let target = find_child(&self.messages, self.selected);
            self.jump_to(target);
        }
    }

    /// Jumps to the earliest message before the selected one that replies to
    /// the same message.
    pub fn prev_sibling(&mut self)
        requires
            old(self).wf(),
        ensures
            final(self).wf(),
            final(self)@ == step(
                old(self)@,
                old(self).store(),
                old(self).viewport().height as int,
                Command::JumpToPrevSibling,
            ),
            final(self).store() == old(self).store(),
            final(self).labels() == old(self).labels(),
            final(self).viewport() == old(self).viewport(),
    {
        if self.messages.len() > 0 {
            let target = find_prev_sibling(&self.messages, self.selected);
            self.jump_to(target);
        }
    }

    /// Jumps to the nearest message after the selected one that replies to
    /// the same message.
    pub fn next_sibling(&mut self)
        requires
            old(self).wf(),
        ensures
            final(self).wf(),
            final(self)@ == step(
                old(self)@,
                old(self).store(),
                old(self).viewport().height as int,
                Command::JumpToNextSibling,
            ),
            final(self).store() == old(self).store(),
            final(self).labels() == old(self).labels(),
            final(self).viewport() == old(self).viewport(),
    {
        if self.messages.len() > 0 {
            let target = find_next_sibling(&self.messages, self.selected);
            self.jump_to(target);
        }
    }

    /// Moves `rows` down in the active pane, stopping at the last message or
    /// at the largest offset.
    fn move_down(&mut self, rows: u16)
        requires
            old(self).wf(),
            old(self).store().len() > 0,
        ensures
            final(self).wf(),
            final(self)@ == move_by(old(self)@, old(self).store().len() as int, rows as int),
            final(self).store() == old(self).store(),
            final(self).labels() == old(self).labels(),
            final(self).viewport() == old(self).viewport(),
    {
        match self.active {
            Pane::List => {
                let last: usize = self.messages.len() - 1;
                let room: usize = last - self.selected;
                if (rows as usize) < room {
                    self.selected = self.selected + rows as usize;
                } else {
                    self.selected = last;
                }
                self.offset = 0;
            },
            Pane::Detail => {
                let room: u16 = u16::MAX - self.offset;
                if rows < room {
                    self.offset = self.offset + rows;
                } else {
                    self.offset = u16::MAX;
                }
            },
        }
    }

    /// Moves `rows` up in the active pane, stopping at the first message or
    /// at offset 0.
    fn move_up(&mut self, rows: u16)
        requires
            old(self).wf(),
            old(self).store().len() > 0,
        ensures
            final(self).wf(),
            final(self)@ == move_by(old(self)@, old(self).store().len() as int, -(rows as int)),
            final(self).store() == old(self).store(),
            final(self).labels() == old(self).labels(),
            final(self).viewport() == old(self).viewport(),
    {
        match self.active {
            Pane::List => {
                if self.selected > rows as usize {
                    self.selected = self.selected - rows as usize;
                } else {
                    self.selected = 0;
                }
                self.offset = 0;
            },
            Pane::Detail => {
                if self.offset > rows {
                    self.offset = self.offset - rows;
                } else {
                    self.offset = 0;
                }
            },
        }
    }

    /// Gives the focus to the other pane.
    pub fn switch_pane(&mut self)
        ensures
            final(self)@ == step(
                old(self)@,
                old(self).store(),
                old(self).viewport().height as int,
                Command::SwitchPane,
            ),
            final(self).store() == old(self).store(),
            final(self).labels() == old(self).labels(),
            final(self).viewport() == old(self).viewport(),
            old(self).wf() ==> final(self).wf(),
    {
        self.active = match self.active {
            Pane::List => Pane::Detail,
            Pane::Detail => Pane::List,
        };
    }

    /// Applies one command to the view state and says whether the session
    /// goes on. The mailbox, the labels and the viewport stay as they are.
    pub fn apply(&mut self, command: Command) -> (action: Action)
        requires
            old(self).wf(),
        ensures
            final(self).wf(),
            final(self)@ == step(
                old(self)@,
                old(self).store(),
                old(self).viewport().height as int,
                command,
            ),
            final(self).store() == old(self).store(),
            final(self).labels() == old(self).labels(),
            final(self).viewport() == old(self).viewport(),
            action == (if command == Command::Quit {
                Action::Exit
            } else {
                Action::Redraw
            }),
    {
        let rows = self.page_jump();
        let empty = self.messages.len() == 0;
        match command {
            Command::Quit => {
                return Action::Exit;
            },
            Command::SwitchPane => self.switch_pane(),
            Command::JumpToParent => self.find_parent(),
            Command::JumpToChild => self.find_child(),
            Command::JumpToPrevSibling => self.prev_sibling(),
            Command::JumpToNextSibling => self.next_sibling(),
            Command::MoveDown => if !empty {
                self.move_down(1)
            },
            Command::MoveUp => if !empty {
                self.move_up(1)
            },
            Command::PageDown => if !empty {
                self.move_down(rows)
            },
            Command::PageUp => if !empty {
                self.move_up(rows)
            },
        }
        Action::Redraw
    }

    /// Applies the command bound to `key`; a key without a binding changes
    /// nothing and the session goes on.
    pub fn handle_key(&mut self, key: Key) -> (action: Action)
        requires
            old(self).wf(),
        ensures
            final(self).wf(),
            final(self)@ == step_key(
                old(self)@,
                old(self).store(),
                old(self).viewport().height as int,
                key,
            ),
            final(self).store() == old(self).store(),
            final(self).labels() == old(self).labels(),
            final(self).viewport() == old(self).viewport(),
            action == (if is_quit_key(key) {
                Action::Exit
            } else {
                Action::Redraw
            }),
    {
        match command_for_key(key) {
            Some(command) => self.apply(command),
            None => Action::Redraw,
        }
    }

    /// Handles the key presses in order, up to and including the first one
    /// that ends the session; later keys are not looked at. The result says
    /// whether the session has ended.
    pub fn run(&mut self, keys: &Vec<Key>) -> (action: Action)
        requires
            old(self).wf(),
        ensures
            final(self).wf(),
            final(self)@ == run_keys(
                old(self)@,
                old(self).store(),
                old(self).viewport().height as int,
                keys@.take(first_quit(keys@)),
            ),
            final(self).store() == old(self).store(),
            final(self).labels() == old(self).labels(),
            final(self).viewport() == old(self).viewport(),
            action == (if first_quit(keys@) < keys.len() {
                Action::Exit
            } else {
                Action::Redraw
            }),
    {
        let mut i: usize = 0;
        proof {
            lemma_first_quit(keys@);
        }
        while i < keys.len()
            invariant
                i <= keys.len(),
                i <= first_quit(keys@) <= keys.len(),
                self.wf(),
                self@ == run_keys(
                    old(self)@,
                    old(self).store(),
                    old(self).viewport().height as int,
                    keys@.take(i as int),
                ),
                self.store() == old(self).store(),
                self.labels() == old(self).labels(),
                self.viewport() == old(self).viewport(),
            decreases keys.len() - i,
        {
            proof {
                lemma_first_quit(keys@);
                assert(keys@.take(i + 1).drop_last() =~= keys@.take(i as int));
                assert(keys@.take(i + 1).last() == keys@[i as int]);
            }
            if self.handle_key(keys[i]) == Action::Exit {
                proof {
                    lemma_quit_is_silent(
                        self@,
                        self.store(),
                        self.viewport().height as int,
                        keys@[i as int],
                    );
                }
                return Action::Exit;
            }
            i += 1;
        }
        Action::Redraw
    }
}

} // verus!
