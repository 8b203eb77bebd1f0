//! Stand-ins for the real actors, used to debug the bus from a plain
//! terminal: an assistant that echoes the user, and a line-based console.

use vstd::prelude::*;
use crate::message::{has_prefix, Message, MessageView, Role, Token, TokenView};

verus! {

/// A line that starts with this ends the console session.
pub const EXIT_COMMAND: &'static str = "exit!";

/// The echo assistant's answer to `m`: a whole turn that repeats a user's
/// text, and nothing for any other message.
pub open spec fn echo_view(m: MessageView) -> Seq<MessageView> {
    match (m.role, m.token) {
        (Role::User, TokenView::End(text)) => seq![
            MessageView { role: Role::Assistant, token: TokenView::Start },
            MessageView { role: Role::Assistant, token: TokenView::End(text) },
        ],
        _ => Seq::empty(),
    }
}

/// The messages the echo assistant publishes for one incoming message.
pub fn echo_reply(input: Message) -> (r: Vec<Message>)
    ensures
        r@.map_values(|m: Message| m@) == echo_view(input@),
{
    match (input.role, input.token) {
        (Role::User, Token::End(text)) => {
            let ghost t = text@;
            let r = vec![
                Message { role: Role::Assistant, token: Token::Start },
                Message { role: Role::Assistant, token: Token::End(text) },
            ];
            proof {
                assert(r@.map_values(|m: Message| m@) =~= echo_view(input@));
            }
            r
        },
        _ => {
            let r: Vec<Message> = Vec::new();
            proof {
                assert(r@.map_values(|m: Message| m@) =~= echo_view(input@));
            }
            r
        },
    }
}

/// What one console line means: `None` ends the session, otherwise the user
/// message to publish, the line unchanged.
pub fn console_line(line: String) -> (r: Option<Message>)
    ensures
        r is None <==> EXIT_COMMAND@.len() <= line@.len() && line@.subrange(
            0,
            EXIT_COMMAND@.len() as int,
        ) == EXIT_COMMAND@,
        r matches Some(m) ==> m@ == (MessageView { role: Role::User, token: TokenView::End(line@) }),
{
    if has_prefix(line.as_str(), EXIT_COMMAND) {
        None
    } else {
        Some(Message { role: Role::User, token: Token::End(line) })
    }
}

} // verus!
