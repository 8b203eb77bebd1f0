//! The inference adapter: turns completed user and tool messages into
//! generation requests and republishes the engine's answer as one streamed
//! turn, `Start`, any number of `Chunk`, then `End` with the full text.
//!
//! The engine itself is driven by the caller: this type decides what enters
//! the transcript and which message goes on the bus at each point of a turn.

use vstd::prelude::*;
use crate::message::{
    contents_view, end_text, opt_view, Content, ContentView, Message, MessageView, Role, Token,
    TokenView,
};

verus! {

/// The adapter takes a message only when it closes a user or tool turn;
/// never its own (assistant) output.
pub open spec fn accepts(m: MessageView) -> bool {
    &&& (m.role == Role::User || m.role == Role::Tool)
    &&& end_text(m.token) is Some
}

pub open spec fn filter_view(m: MessageView) -> Option<MessageView> {
    if accepts(m) {
        Some(m)
    } else {
        None
    }
}

/// The transcript turn that an accepted message becomes.
pub open spec fn input_view(m: MessageView) -> Option<ContentView> {
    if accepts(m) {
        Some(ContentView { role: m.role, message: end_text(m.token).unwrap() })
    } else {
        None
    }
}

/// The tokens are one whole turn: a `Start`, then only `Chunk`s, then an
/// `End` that carries `full`.
pub open spec fn is_turn(tokens: Seq<TokenView>, full: Seq<char>) -> bool {
    &&& tokens.len() >= 2
    &&& tokens[0] is Start
    &&& tokens.last() == TokenView::End(full)
    &&& forall|i: int| 0 < i < tokens.len() - 1 ==> (#[trigger] tokens[i]) is Chunk
}

/// The tokens are a turn still open: a `Start` followed by `Chunk`s only.
pub open spec fn is_open_turn(tokens: Seq<TokenView>) -> bool {
    &&& tokens.len() >= 1
    &&& tokens[0] is Start
    &&& forall|i: int| 0 < i < tokens.len() ==> (#[trigger] tokens[i]) is Chunk
}

/// The tokens of a turn whose fragments were `fragments` and whose full text
/// is `full`.
pub open spec fn turn_tokens(fragments: Seq<Seq<char>>, full: Seq<char>) -> Seq<TokenView> {
    seq![TokenView::Start] + fragments.map_values(|f: Seq<char>| TokenView::Chunk(f)) + seq![
        TokenView::End(full),
    ]
}

/// Every turn the adapter publishes is one `Start`, the fragments as
/// `Chunk`s in order (none at all included), and one `End` with the full
/// text, whatever the number of fragments.
pub proof fn lemma_turn_shape(fragments: Seq<Seq<char>>, full: Seq<char>)
    ensures
        is_turn(turn_tokens(fragments, full), full),
        turn_tokens(fragments, full).len() == fragments.len() + 2,
        forall|i: int|
            0 <= i < fragments.len() ==> turn_tokens(fragments, full)[i + 1] == TokenView::Chunk(
                #[trigger] fragments[i],
            ),
{
    let t = turn_tokens(fragments, full);
    let chunks = fragments.map_values(|f: Seq<char>| TokenView::Chunk(f));
    assert(t == seq![TokenView::Start] + chunks + seq![TokenView::End(full)]);
    assert forall|i: int| 0 < i < t.len() - 1 implies (#[trigger] t[i]) is Chunk by {
        assert(t[i] == chunks[i - 1]);
    }
    assert forall|i: int| 0 <= i < fragments.len() implies t[i + 1] == TokenView::Chunk(
        #[trigger] fragments[i],
    ) by {
        assert(t[i + 1] == chunks[i]);
    }
}

/// Streaming keeps a turn open and well formed, and closing it yields one
/// whole turn.
pub proof fn lemma_turn_steps(open: Seq<TokenView>, fragment: Seq<char>, full: Seq<char>)
    requires
        is_open_turn(open),
    ensures
        is_open_turn(open.push(TokenView::Chunk(fragment))),
        is_turn(open.push(TokenView::End(full)), full),
{
    let c = open.push(TokenView::Chunk(fragment));
    let e = open.push(TokenView::End(full));
    assert forall|i: int| 0 < i < c.len() implies (#[trigger] c[i]) is Chunk by {
        if i < open.len() {
            assert(c[i] == open[i]);
        }
    }
    assert forall|i: int| 0 < i < e.len() - 1 implies (#[trigger] e[i]) is Chunk by {
        assert(e[i] == open[i]);
    }
}

pub struct LocalLlama {
    prompts: Vec<Content>,
    generating: bool,
    /// The tokens of the current turn, or of the last one when idle.
    turn: Ghost<Seq<TokenView>>,
}

impl LocalLlama {
    /// The conversation so far, oldest turn first.
    pub closed spec fn transcript(&self) -> Seq<ContentView> {
        contents_view(self.prompts@)
    }

    /// A turn has started and not yet ended.
    pub closed spec fn in_turn(&self) -> bool {
        self.generating
    }

    /// The tokens published for the current turn, or for the last one when
    /// idle.
    pub closed spec fn turn(&self) -> Seq<TokenView> {
        self.turn@
    }

    pub closed spec fn wf(&self) -> bool {
        if self.generating {
            is_open_turn(self.turn@)
        } else {
            self.turn@.len() == 0 || is_turn(self.turn@, end_text(self.turn@.last()).unwrap())
        }
    }

    /// An idle adapter whose transcript is seeded with `prompts`.
    pub fn new(prompts: Vec<Content>) -> (r: Self)
        ensures
            r.wf(),
            !r.in_turn(),
            r.transcript() == contents_view(prompts@),
            r.turn().len() == 0,
    {
        let ghost empty = Seq::<TokenView>::empty();
        LocalLlama { prompts, generating: false, turn: Ghost(empty) }
    }

    /// The bus filter of the adapter: passes a copy of each completed user or
    /// tool message, drops everything else.
    pub fn filter(message: &Message) -> (r: Option<Message>)
        ensures
            opt_view(r) == filter_view(message@),
    {
        match &message.token {
            Token::End(_) => {
                if message.role == Role::User || message.role == Role::Tool {
                    Some(message.clone())
                } else {
                    None
                }
            },
            _ => None,
        }
    }

    /// The transcript turn for an incoming message, or `None` when the
    /// adapter does not react to it.
    pub fn take_input(message: Message) -> (r: Option<Content>)
        ensures
            match r {
                Some(c) => input_view(message@) == Some(c@),
                None => input_view(message@) is None,
            },
    {
        match message.token {
            Token::End(text) => {
                if message.role == Role::User || message.role == Role::Tool {
                    Some(Content { role: message.role, message: text })
                } else {
                    None
                }
            },
            _ => None,
        }
    }

    pub fn is_generating(&self) -> (r: bool)
        ensures
            r == self.in_turn(),
    {
        self.generating
    }

    /// The transcript to hand to the engine.
    pub fn prompts(&self) -> (r: &Vec<Content>)
        ensures
            contents_view(r@) == self.transcript(),
    {
        &self.prompts
    }

    /// Opens a turn for `input`: records it in the transcript and returns the
    /// `Start` message to publish.
    pub fn begin_turn(&mut self, input: Content) -> (r: Message)
        requires
            old(self).wf(),
            !old(self).in_turn(),
        ensures
            final(self).wf(),
            final(self).in_turn(),
            final(self).transcript() == old(self).transcript().push(input@),
            final(self).turn() == seq![TokenView::Start],
            r@ == (MessageView { role: Role::Assistant, token: TokenView::Start }),
    {
        self.prompts.push(input);
        self.generating = true;
        let ghost start = seq![TokenView::Start];
        self.turn = Ghost(start);
        proof {
            assert(contents_view(self.prompts@) =~= contents_view(old(self).prompts@).push(
                input@,
            ));
        }
        Message { role: Role::Assistant, token: Token::Start }
    }

    /// Passes one fragment of the engine's output on as a `Chunk`.
    pub fn next_chunk(&mut self, fragment: String) -> (r: Message)
        requires
            old(self).wf(),
            old(self).in_turn(),
        ensures
            final(self).wf(),
            final(self).in_turn(),
            final(self).transcript() == old(self).transcript(),
            final(self).turn() == old(self).turn().push(TokenView::Chunk(fragment@)),
            r@ == (MessageView { role: Role::Assistant, token: TokenView::Chunk(fragment@) }),
    {
        let ghost frag = fragment@;
        let ghost next = self.turn@.push(TokenView::Chunk(frag));
        self.turn = Ghost(next);
        proof {
            lemma_turn_steps(old(self).turn@, frag, Seq::empty());
        }
        Message { role: Role::Assistant, token: Token::Chunk(fragment) }
    }

    /// Closes the turn with the engine's full text: records it as an
    /// assistant turn and returns the `End` message to publish.
    pub fn finish_turn(&mut self, full: String) -> (r: Message)
        requires
            old(self).wf(),
            old(self).in_turn(),
        ensures
            final(self).wf(),
            !final(self).in_turn(),
            final(self).transcript() == old(self).transcript().push(
                ContentView { role: Role::Assistant, message: full@ },
            ),
            final(self).turn() == old(self).turn().push(TokenView::End(full@)),
            is_turn(final(self).turn(), full@),
            r@ == (MessageView { role: Role::Assistant, token: TokenView::End(full@) }),
    {
        let ghost text = full@;
        let message = Message { role: Role::Assistant, token: Token::End(full.clone()) };
        self.prompts.push(Content { role: Role::Assistant, message: full });
        self.generating = false;
        let ghost next = self.turn@.push(TokenView::End(text));
        self.turn = Ghost(next);
        proof {
            assert(contents_view(self.prompts@) =~= contents_view(old(self).prompts@).push(
                ContentView { role: Role::Assistant, message: text },
            ));
            lemma_turn_steps(old(self).turn@, Seq::empty(), text);
        }
        message
    }
}

} // verus!
