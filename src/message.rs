//! The shared vocabulary of the bus: who wrote a message, and one increment
//! of a streamed turn.

use vstd::prelude::*;
use vstd::string::StrSliceExecFns;

verus! {

/// The author of a message.
#[derive(Clone, Copy, Debug, PartialEq, Eq, Structural)]
pub enum Role {
    User,
    Assistant,
    Tool,
    System,
}

/// One increment of a streamed generation.
#[derive(Debug)]
pub enum Token {
    /// Opens a new turn.
    Start,
    /// A fragment of the turn, appended in order of receipt.
    Chunk(String),
    /// The complete text of the turn; closes it.
    End(String),
}

/// Mathematical view of a token: its text as a sequence of characters.
pub enum TokenView {
    Start,
    Chunk(Seq<char>),
    End(Seq<char>),
}

impl View for Token {
    type V = TokenView;

    open spec fn view(&self) -> TokenView {
        match self {
            Token::Start => TokenView::Start,
            Token::Chunk(s) => TokenView::Chunk(s@),
            Token::End(s) => TokenView::End(s@),
        }
    }
}

impl Clone for Token {
    fn clone(&self) -> (r: Self)
        ensures
            r@ == self@,
    {
        match self {
            Token::Start => Token::Start,
            Token::Chunk(s) => Token::Chunk(s.clone()),
            Token::End(s) => Token::End(s.clone()),
        }
    }
}

impl PartialEq for Token {
    fn eq(&self, other: &Token) -> (r: bool)
        ensures
            r == (self@ == other@),
    {
        match self {
            Token::Start => match other {
                Token::Start => true,
                _ => false,
            },
            Token::Chunk(a) => match other {
                Token::Chunk(b) => a.eq(b),
                _ => false,
            },
            Token::End(a) => match other {
                Token::End(b) => a.eq(b),
                _ => false,
            },
        }
    }
}

impl vstd::std_specs::cmp::PartialEqSpecImpl for Token {
    open spec fn obeys_eq_spec() -> bool {
        true
    }

    open spec fn eq_spec(&self, other: &Token) -> bool {
        self@ == other@
    }
}

/// A chat message: an author and one token of a stream.
#[derive(Debug)]
pub struct Message {
    pub role: Role,
    pub token: Token,
}

/// Mathematical view of a message.
pub struct MessageView {
    pub role: Role,
    pub token: TokenView,
}

impl View for Message {
    type V = MessageView;

    open spec fn view(&self) -> MessageView {
        MessageView { role: self.role, token: self.token@ }
    }
}

impl Clone for Message {
    fn clone(&self) -> (r: Self)
        ensures
            r@ == self@,
    {
        Message { role: self.role, token: self.token.clone() }
    }
}

impl PartialEq for Message {
    fn eq(&self, other: &Message) -> (r: bool)
        ensures
            r == (self@ == other@),
    {
        self.role == other.role && self.token == other.token
    }
}

impl vstd::std_specs::cmp::PartialEqSpecImpl for Message {
    open spec fn obeys_eq_spec() -> bool {
        true
    }

    open spec fn eq_spec(&self, other: &Message) -> bool {
        self@ == other@
    }
}

/// The view of an optional message.
pub open spec fn opt_view(m: Option<Message>) -> Option<MessageView> {
    match m {
        Some(x) => Some(x@),
        None => None,
    }
}

/// The text that closes a turn, if the token is an `End`.
pub open spec fn end_text(t: TokenView) -> Option<Seq<char>> {
    match t {
        TokenView::End(s) => Some(s),
        _ => None,
    }
}

/// Whether `text` begins with `prefix`.
pub fn has_prefix(text: &str, prefix: &str) -> (r: bool)
    ensures
        r == (prefix@.len() <= text@.len() && text@.subrange(0, prefix@.len() as int) == prefix@),
{
    let n = prefix.unicode_len();
    if n > text.unicode_len() {
        return false;
    }
    let mut i: usize = 0;
    while i < n
        invariant
            n == prefix@.len(),
            n <= text@.len(),
            i <= n,
            forall|k: int| 0 <= k < i ==> text@[k] == prefix@[k],
        decreases n - i,
    {
        if text.get_char(i) != prefix.get_char(i) {
            proof {
                assert(text@.subrange(0, n as int)[i as int] != prefix@[i as int]);
            }
            return false;
        }
        i = i + 1;
    }
    proof {
        assert(text@.subrange(0, n as int) =~= prefix@);
    }
    true
}

impl Message {
    /// A message that closes a turn with the given text.
    pub fn end(role: Role, text: String) -> (r: Message)
        ensures
            r@ == (MessageView { role, token: TokenView::End(text@) }),
    {
        Message { role, token: Token::End(text) }
    }
}

/// One turn of the conversation transcript: who spoke, and the full text.
#[derive(Debug)]
pub struct Content {
    pub role: Role,
    pub message: String,
}

/// Mathematical view of a transcript turn.
pub struct ContentView {
    pub role: Role,
    pub message: Seq<char>,
}

impl View for Content {
    type V = ContentView;

    open spec fn view(&self) -> ContentView {
        ContentView { role: self.role, message: self.message@ }
    }
}

impl Clone for Content {
    fn clone(&self) -> (r: Self)
        ensures
            r@ == self@,
    {
        Content { role: self.role, message: self.message.clone() }
    }
}

impl PartialEq for Content {
    fn eq(&self, other: &Content) -> (r: bool)
        ensures
            r == (self@ == other@),
    {
        self.role == other.role && self.message.eq(&other.message)
    }
}

impl vstd::std_specs::cmp::PartialEqSpecImpl for Content {
    open spec fn obeys_eq_spec() -> bool {
        true
    }

    open spec fn eq_spec(&self, other: &Content) -> bool {
        self@ == other@
    }
}

/// The views of a sequence of transcript turns.
pub open spec fn contents_view(v: Seq<Content>) -> Seq<ContentView> {
    v.map_values(|c: Content| c@)
}

} // verus!
