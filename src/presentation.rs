//! The presentation side of the bus: its filter, and the transcript view
//! that the user interface keeps from what it receives.

use vstd::prelude::*;
use crate::message::{contents_view, opt_view, Content, ContentView, Message, MessageView, Role, Token, TokenView};
use vstd::string::StringExecFns;

verus! {

/// The presentation adapter shows everything but what the local user typed.
pub open spec fn accepts(m: MessageView) -> bool {
    m.role != Role::User
}

pub open spec fn filter_view(m: MessageView) -> Option<MessageView> {
    if accepts(m) {
        Some(m)
    } else {
        None
    }
}

/// The bus filter of the presentation adapter: passes a copy of every
/// message not authored by the user.
pub fn filter(message: &Message) -> (r: Option<Message>)
    ensures
        opt_view(r) == filter_view(message@),
{
    if message.role != Role::User {
        Some(message.clone())
    } else {
        None
    }
}

/// A key press, as far as the chat view tells keys apart.
#[derive(Clone, Copy, Debug, PartialEq, Eq, Structural)]
pub enum Key {
    /// Redraw the screen from scratch.
    Refresh,
    /// Send what was typed.
    Submit,
    /// Leave; pressed twice in a row, the view closes.
    Escape,
    /// Anything else, for the input box.
    Other,
}

/// A terminal event, as far as the chat view tells events apart.
#[derive(Clone, Copy, Debug, PartialEq, Eq, Structural)]
pub enum UiEvent {
    Key(Key),
    /// The wheel turned down; `sideways` when the control key was held.
    ScrollDown { sideways: bool },
    /// The wheel turned up; `sideways` when the control key was held.
    ScrollUp { sideways: bool },
    Other,
}

/// What reaches the chat view: a terminal event or a message from the bus.
#[derive(Debug)]
pub enum Input {
    Event(UiEvent),
    Message(Message),
}

/// The transcript as the view shows it, after one message from the bus.
pub open spec fn apply_message(contents: Seq<ContentView>, m: MessageView) -> Seq<ContentView> {
    match (m.role, m.token) {
        (Role::Assistant, TokenView::Start) => contents.push(
            ContentView { role: Role::Assistant, message: Seq::empty() },
        ),
        (Role::Assistant, TokenView::Chunk(c)) => if contents.len() > 0 {
            contents.update(
                contents.len() - 1,
                ContentView {
                    role: contents.last().role,
                    message: contents.last().message + c,
                },
            )
        } else {
            contents
        },
        (Role::Assistant, TokenView::End(full)) => if contents.len() > 0 {
            contents.update(
                contents.len() - 1,
                ContentView { role: contents.last().role, message: full },
            )
        } else {
            contents
        },
        (Role::Tool, TokenView::End(text)) => contents.push(
            ContentView { role: Role::Tool, message: text },
        ),
        _ => contents,
    }
}

/// Whether the view waits for the rest of a turn after message `m`.
pub open spec fn waiting_after(waiting: bool, m: MessageView) -> bool {
    match (m.role, m.token) {
        (Role::Assistant, TokenView::Start) => true,
        (Role::Assistant, TokenView::End(_)) => false,
        _ => waiting,
    }
}

/// One step down a scroll axis, stopping at the largest position.
pub open spec fn step_down(p: u16) -> u16 {
    if p < u16::MAX {
        (p + 1) as u16
    } else {
        p
    }
}

/// One step up a scroll axis, stopping at the top.
pub open spec fn step_up(p: u16) -> u16 {
    if p > 0 {
        (p - 1) as u16
    } else {
        0
    }
}

/// The scroll position after a terminal event.
pub open spec fn cursor_after(cursor: (u16, u16), e: UiEvent) -> (u16, u16) {
    match e {
        UiEvent::ScrollDown { sideways: false } => (step_down(cursor.0), cursor.1),
        UiEvent::ScrollDown { sideways: true } => (cursor.0, step_down(cursor.1)),
        UiEvent::ScrollUp { sideways: false } => (step_up(cursor.0), cursor.1),
        UiEvent::ScrollUp { sideways: true } => (cursor.0, step_up(cursor.1)),
        _ => cursor,
    }
}

/// Whether the view follows the bottom after a terminal event: scrolling up
/// lets go of it.
pub open spec fn follows_after(follows: bool, e: UiEvent) -> bool {
    follows && !(e matches UiEvent::ScrollUp { sideways: false })
}

/// The rows of an area `height` rows high that hold transcript lines.
pub open spec fn visible_lines(height: u16) -> nat {
    if height >= 3 {
        (height - 3) as nat
    } else {
        0
    }
}

/// The scroll position that shows the last screenful of `lines` lines,
/// capped at the largest position.
pub open spec fn max_scroll(lines: nat, height: u16) -> nat {
    if lines <= visible_lines(height) {
        0
    } else if lines - visible_lines(height) > u16::MAX {
        u16::MAX as nat
    } else {
        (lines - visible_lines(height)) as nat
    }
}

/// The transcript view of the chat: the turns received so far, the scroll
/// position (lines, columns), whether the view follows the newest line, and
/// whether a turn is still streaming in.
pub struct MessagesComponent {
    contents: Vec<Content>,
    cursor: (u16, u16),
    lock_on_bottom: bool,
    wait_token: bool,
}

impl MessagesComponent {
    pub closed spec fn contents_view(&self) -> Seq<ContentView> {
        contents_view(self.contents@)
    }

    pub closed spec fn cursor_view(&self) -> (u16, u16) {
        self.cursor
    }

    pub closed spec fn follows_bottom(&self) -> bool {
        self.lock_on_bottom
    }

    pub closed spec fn waiting(&self) -> bool {
        self.wait_token
    }

    pub fn new(contents: Vec<Content>) -> (r: Self)
        ensures
            r.contents_view() == contents_view(contents@),
            r.cursor_view() == (0u16, 0u16),
            r.follows_bottom(),
            !r.waiting(),
    {
        MessagesComponent { contents, cursor: (0, 0), lock_on_bottom: true, wait_token: false }
    }

    pub fn contents(&self) -> (r: &Vec<Content>)
        ensures
            contents_view(r@) == self.contents_view(),
    {
        &self.contents
    }

    pub fn cursor(&self) -> (r: (u16, u16))
        ensures
            r == self.cursor_view(),
    {
        self.cursor
    }

    pub fn is_waiting(&self) -> (r: bool)
        ensures
            r == self.waiting(),
    {
        self.wait_token
    }

    /// Records a turn the local user typed, and follows the bottom again.
    pub fn push_user(&mut self, text: String)
        ensures
            final(self).contents_view() == old(self).contents_view().push(
                ContentView { role: Role::User, message: text@ },
            ),
            final(self).cursor_view() == old(self).cursor_view(),
            final(self).follows_bottom(),
            final(self).waiting() == old(self).waiting(),
    {
        let ghost t = text@;
        self.contents.push(Content { role: Role::User, message: text });
        self.lock_on_bottom = true;
        proof {
            assert(contents_view(self.contents@) =~= contents_view(old(self).contents@).push(
                ContentView { role: Role::User, message: t },
            ));
        }
    }

    /// Replaces the text of the newest turn, keeping its author.
    fn set_last(&mut self, text: String, append: bool)
        requires
            old(self).contents@.len() > 0,
        ensures
            final(self).contents_view() == old(self).contents_view().update(
                old(self).contents_view().len() - 1,
                ContentView {
                    role: old(self).contents_view().last().role,
                    message: if append {
                        old(self).contents_view().last().message + text@
                    } else {
                        text@
                    },
                },
            ),
            final(self).cursor == old(self).cursor,
            final(self).lock_on_bottom == old(self).lock_on_bottom,
            final(self).wait_token == old(self).wait_token,
    {
        let ghost before = contents_view(self.contents@);
        let last = self.contents.pop().unwrap();
        let message = if append {
            let mut m = last.message;
            m.append(text.as_str());
            m
        } else {
            text
        };
        let ghost updated = ContentView { role: last.role, message: message@ };
        self.contents.push(Content { role: last.role, message });
        proof {
            assert(contents_view(self.contents@) =~= before.update(before.len() - 1, updated));
        }
    }

    /// Fits the scroll position to a transcript of `line_count` lines shown
    /// in an area `area_height` rows high (three rows go to the frame and
    /// title). When the transcript overflows, reaching the last screenful
    /// makes the view follow the bottom again, and a view that follows the
    /// bottom shows the last screenful. When it fits, the view goes to the
    /// top.
    pub fn fit_scroll(&mut self, line_count: usize, area_height: u16)
        ensures
            final(self).contents_view() == old(self).contents_view(),
            final(self).waiting() == old(self).waiting(),
            final(self).cursor_view().1 == old(self).cursor_view().1,
            line_count > visible_lines(area_height) ==> {
                &&& final(self).follows_bottom() == (old(self).follows_bottom()
                    || old(self).cursor_view().0 >= max_scroll(line_count as nat, area_height))
                &&& final(self).cursor_view().0 == if final(self).follows_bottom() {
                    max_scroll(line_count as nat, area_height)
                } else {
                    old(self).cursor_view().0 as nat
                }
            },
            line_count <= visible_lines(area_height) ==> {
                &&& final(self).follows_bottom() == old(self).follows_bottom()
                &&& final(self).cursor_view().0 == 0
            },
    {
        let max_line = area_height.saturating_sub(3) as usize;
        if line_count > max_line {
            let over = line_count - max_line;
            let max_cursor: u16 = if over > 0xffff {
                0xffff
            } else {
                over as u16
            };
            if self.cursor.0 >= max_cursor {
                self.lock_on_bottom = true;
            }
            if self.lock_on_bottom {
                self.cursor.0 = max_cursor;
            }
        } else {
            self.cursor.0 = 0;
        }
    }

    /// Takes one input: a message from the bus updates the transcript, a
    /// wheel event moves the scroll position.
    pub fn handler_input(&mut self, input: Input)
        ensures
            match input {
                Input::Message(m) => {
                    &&& final(self).contents_view() == apply_message(old(self).contents_view(), m@)
                    &&& final(self).waiting() == waiting_after(old(self).waiting(), m@)
                    &&& final(self).cursor_view() == old(self).cursor_view()
                    &&& final(self).follows_bottom() == old(self).follows_bottom()
                },
                Input::Event(e) => {
                    &&& final(self).contents_view() == old(self).contents_view()
                    &&& final(self).waiting() == old(self).waiting()
                    &&& final(self).cursor_view() == cursor_after(old(self).cursor_view(), e)
                    &&& final(self).follows_bottom() == follows_after(
                        old(self).follows_bottom(),
                        e,
                    )
                },
            },
    {
        match input {
            Input::Message(m) => {
                match (m.role, m.token) {
                    (Role::Assistant, Token::Start) => {
                        self.wait_token = true;
                        self.contents.push(Content { role: Role::Assistant, message: String::new() });
                        proof {
                            assert(contents_view(self.contents@) =~= contents_view(
                                old(self).contents@,
                            ).push(ContentView { role: Role::Assistant, message: Seq::empty() }));
                        }
                    },
                    (Role::Assistant, Token::Chunk(chunk)) => {
                        if self.contents.len() > 0 {
                            self.set_last(chunk, true);
                        }
                    },
                    (Role::Assistant, Token::End(full)) => {
                        self.wait_token = false;
                        if self.contents.len() > 0 {
                            self.set_last(full, false);
                        }
                    },
                    (Role::Tool, Token::End(text)) => {
                        let ghost t = text@;
                        self.contents.push(Content { role: Role::Tool, message: text });
                        proof {
                            assert(contents_view(self.contents@) =~= contents_view(
                                old(self).contents@,
                            ).push(ContentView { role: Role::Tool, message: t }));
                        }
                    },
                    _ => {},
                }
            },
            Input::Event(UiEvent::ScrollDown { sideways }) => {
                if sideways {
                    self.cursor.1 = self.cursor.1.saturating_add(1);
                } else {
                    self.cursor.0 = self.cursor.0.saturating_add(1);
                }
            },
            Input::Event(UiEvent::ScrollUp { sideways }) => {
                if sideways {
                    self.cursor.1 = self.cursor.1.saturating_sub(1);
                } else {
                    self.cursor.0 = self.cursor.0.saturating_sub(1);
                    self.lock_on_bottom = false;
                }
            },
            Input::Event(_) => {},
        }
    }
}

/// What the chat view asks its host to do after an input.
#[derive(Clone, Copy, Debug, PartialEq, Eq, Structural)]
pub enum ChatAction {
    /// Nothing beyond what the view did itself.
    Continue,
    /// Clear and redraw the terminal.
    ClearScreen,
    /// Take the typed text and hand it to `submit_message`.
    Submit,
    /// Pass the key to the input box.
    Edit,
    /// Close the view.
    Exit,
}

/// The chat view: the transcript, and how many times in a row Escape was
/// pressed.
pub struct ChatComponent {
    messages: MessagesComponent,
    exit_n: u8,
}

impl ChatComponent {
    pub closed spec fn messages_view(&self) -> MessagesComponent {
        self.messages
    }

    pub closed spec fn escapes(&self) -> nat {
        self.exit_n as nat
    }

    pub fn new(contents: Vec<Content>) -> (r: Self)
        ensures
            r.messages_view().contents_view() == contents_view(contents@),
            !r.messages_view().waiting(),
            r.escapes() == 0,
    {
        ChatComponent { messages: MessagesComponent::new(contents), exit_n: 0 }
    }

    pub fn messages(&self) -> (r: &MessagesComponent)
        ensures
            *r == self.messages_view(),
    {
        &self.messages
    }

    pub fn messages_mut(&mut self) -> (r: &mut MessagesComponent)
        ensures
            *r == old(self).messages_view(),
            final(self).messages_view() == *final(r),
            final(self).escapes() == old(self).escapes(),
    {
        &mut self.messages
    }

    /// Takes one input. Escape twice in a row closes the view; any other
    /// input breaks the run. Submitting is refused while a turn streams in.
    /// Bus messages and wheel events go to the transcript.
    pub fn handler_input(&mut self, input: Input) -> (r: ChatAction)
        ensures
            match input {
                Input::Event(UiEvent::Key(Key::Escape)) => {
                    &&& final(self).escapes() == if old(self).escapes() < 255 {
                        old(self).escapes() + 1
                    } else {
                        old(self).escapes()
                    }
                    &&& r == if final(self).escapes() >= 2 {
                        ChatAction::Exit
                    } else {
                        ChatAction::Continue
                    }
                    &&& final(self).messages_view() == old(self).messages_view()
                },
                Input::Event(UiEvent::Key(k)) => {
                    &&& final(self).escapes() == 0
                    &&& r == match k {
                        Key::Refresh => ChatAction::ClearScreen,
                        Key::Submit => if old(self).messages_view().waiting() {
                            ChatAction::Continue
                        } else {
                            ChatAction::Submit
                        },
                        _ => ChatAction::Edit,
                    }
                    &&& final(self).messages_view() == old(self).messages_view()
                },
                Input::Message(m) => {
                    &&& final(self).escapes() == 0
                    &&& r == ChatAction::Continue
                    &&& final(self).messages_view().contents_view() == apply_message(
                        old(self).messages_view().contents_view(),
                        m@,
                    )
                    &&& final(self).messages_view().waiting() == waiting_after(
                        old(self).messages_view().waiting(),
                        m@,
                    )
                    &&& final(self).messages_view().cursor_view() == old(
                        self,
                    ).messages_view().cursor_view()
                    &&& final(self).messages_view().follows_bottom() == old(
                        self,
                    ).messages_view().follows_bottom()
                },
                Input::Event(e) => {
                    &&& final(self).escapes() == 0
                    &&& r == ChatAction::Continue
                    &&& final(self).messages_view().contents_view() == old(
                        self,
                    ).messages_view().contents_view()
                    &&& final(self).messages_view().waiting() == old(self).messages_view().waiting()
                    &&& final(self).messages_view().cursor_view() == cursor_after(
                        old(self).messages_view().cursor_view(),
                        e,
                    )
                    &&& final(self).messages_view().follows_bottom() == follows_after(
                        old(self).messages_view().follows_bottom(),
                        e,
                    )
                },
            },
    {
        match input {
            Input::Event(UiEvent::Key(Key::Escape)) => {
                self.exit_n = self.exit_n.saturating_add(1);
                if self.exit_n >= 2 {
                    ChatAction::Exit
                } else {
                    ChatAction::Continue
                }
            },
            Input::Event(UiEvent::Key(Key::Refresh)) => {
                self.exit_n = 0;
                ChatAction::ClearScreen
            },
            Input::Event(UiEvent::Key(Key::Submit)) => {
                self.exit_n = 0;
                if self.messages.is_waiting() {
                    ChatAction::Continue
                } else {
                    ChatAction::Submit
                }
            },
            Input::Event(UiEvent::Key(Key::Other)) => {
                self.exit_n = 0;
                ChatAction::Edit
            },
            other => {
                self.exit_n = 0;
                self.messages.handler_input(other);
                ChatAction::Continue
            },
        }
    }

    /// Records what the user typed and returns the message to publish.
    pub fn submit_message(&mut self, text: String) -> (r: Message)
        ensures
            r@ == (MessageView { role: Role::User, token: TokenView::End(text@) }),
            final(self).messages_view().contents_view() == old(
                self,
            ).messages_view().contents_view().push(ContentView { role: Role::User, message: text@ }),
            final(self).messages_view().follows_bottom(),
            final(self).escapes() == old(self).escapes(),
    {
        let message = Message { role: Role::User, token: Token::End(text.clone()) };
        self.messages.push_user(text);
        message
    }
}

} // verus!
