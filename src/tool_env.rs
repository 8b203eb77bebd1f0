//! The tool executor: evaluates completed assistant output with a script
//! interpreter and reports the result, or the failure, as a `Tool` message.

use vstd::prelude::*;
use crate::message::{has_prefix, end_text, opt_view, Message, MessageView, Role, Token, TokenView};
use vstd::string::StringExecFns;

verus! {

/// The comment marker of the interpreter: text that starts with it is prose
/// rather than code.
pub const COMMENT_MARKER: &'static str = "//";

/// The text starts with the interpreter's comment marker.
pub open spec fn starts_with_comment_marker(text: Seq<char>) -> bool {
    text.len() >= 2 && text.subrange(0, 2) == seq!['/', '/']
}

/// The executor takes a message only when it closes an assistant turn with
/// non-empty text that is not a comment.
pub open spec fn accepts(m: MessageView) -> bool {
    &&& m.role == Role::Assistant
    &&& end_text(m.token) matches Some(text)
    &&& text.len() > 0
    &&& !starts_with_comment_marker(text)
}

pub open spec fn filter_view(m: MessageView) -> Option<MessageView> {
    if accepts(m) {
        Some(m)
    } else {
        None
    }
}

/// Whether `text` starts with the comment marker.
fn is_comment(text: &String) -> (r: bool)
    ensures
        r == starts_with_comment_marker(text@),
{
    proof {
        reveal_strlit("//");
        assert(COMMENT_MARKER@ =~= seq!['/', '/']);
    }
    has_prefix(text.as_str(), COMMENT_MARKER)
}

/// The bus filter of the tool executor: passes a copy of every message it
/// accepts, drops the rest.
pub fn filter(message: &Message) -> (r: Option<Message>)
    ensures
        opt_view(r) == filter_view(message@),
{
    match &message.token {
        Token::End(text) => {
            if message.role == Role::Assistant && !text.as_str().is_empty() && !is_comment(text) {
                Some(message.clone())
            } else {
                None
            }
        },
        _ => None,
    }
}

/// A lower-case hexadecimal digit.
pub open spec fn hex_digit(n: int) -> char
    recommends
        0 <= n < 16,
{
    seq!['0', '1', '2', '3', '4', '5', '6', '7', '8', '9', 'a', 'b', 'c', 'd', 'e', 'f'][n]
}

/// How serde_json writes one character inside a JSON string: the quote and
/// the backslash escaped, five control characters by their short escapes,
/// the other controls below U+0020 as `\u00xx`, everything else as it is.
pub open spec fn json_escape(c: char) -> Seq<char> {
    if c == '"' {
        seq!['\\', '"']
    } else if c == '\\' {
        seq!['\\', '\\']
    } else if c == '\x08' {
        seq!['\\', 'b']
    } else if c == '\t' {
        seq!['\\', 't']
    } else if c == '\n' {
        seq!['\\', 'n']
    } else if c == '\x0c' {
        seq!['\\', 'f']
    } else if c == '\r' {
        seq!['\\', 'r']
    } else if (c as u32) < 0x20 {
        seq!['\\', 'u', '0', '0', hex_digit((c as u32) as int / 16), hex_digit((c as u32) as int % 16)]
    } else {
        seq![c]
    }
}

/// The characters of `s`, each escaped.
pub open spec fn json_escaped(s: Seq<char>) -> Seq<char>
    decreases s.len(),
{
    if s.len() == 0 {
        Seq::empty()
    } else {
        json_escaped(s.drop_last()) + json_escape(s.last())
    }
}

/// No character of `s` needs escaping in a JSON string.
pub open spec fn is_plain_text(s: Seq<char>) -> bool {
    forall|i: int| 0 <= i < s.len() ==> json_escape(#[trigger] s[i]) == seq![s[i]]
}

/// Text with nothing to escape stands in its JSON string as it is, so an
/// error envelope carries such an error text verbatim.
pub proof fn lemma_plain_text_quoted(s: Seq<char>)
    requires
        is_plain_text(s),
    ensures
        json_escaped(s) == s,
        json_quoted(s) == seq!['"'] + s + seq!['"'],
    decreases s.len(),
{
    if s.len() > 0 {
        let init = s.drop_last();
        assert forall|i: int| 0 <= i < init.len() implies json_escape(#[trigger] init[i]) == seq![
            init[i],
        ] by {
            assert(init[i] == s[i]);
        }
        lemma_plain_text_quoted(init);
        assert(json_escape(s.last()) == seq![s[s.len() - 1]]);
        assert(init + seq![s.last()] =~= s);
    } else {
        assert(s =~= Seq::<char>::empty());
    }
}

/// The JSON string literal that serde_json writes for `s`.
pub open spec fn json_quoted(s: Seq<char>) -> Seq<char> {
    seq!['"'] + json_escaped(s) + seq!['"']
}

/// Relies on serde_json::to_string on a `str` (format_escaped_str with its
/// ESCAPE table): the text as a JSON string literal. Serializing a string
/// into memory cannot fail.
#[verifier::external_body]
pub(crate) fn quote_json(s: &str) -> (r: String)
    ensures
        r@ == json_quoted(s@),
{
    match serde_json::to_string(s) {
        Ok(r) => r,
        Err(_) => String::new(),
    }
}

/// The object that reports a failed evaluation: `{"error":…,"status":"error"}`
/// with the error text as a JSON string, keys in the order serde_json gives
/// them.
pub open spec fn error_envelope(err: Seq<char>) -> Seq<char> {
    "{\"error\":"@ + json_quoted(err) + ",\"status\":\"error\"}"@
}

/// Frames an evaluation error as the JSON envelope that goes back into the
/// conversation.
pub fn error_message(err: &str) -> (r: String)
    ensures
        r@ == error_envelope(err@),
{
    let mut out = String::from_str("{\"error\":");
    let quoted = quote_json(err);
    out.append(quoted.as_str());
    out.append(",\"status\":\"error\"}");
    out
}

/// The message that reports an evaluation result: the value itself on
/// success, the error envelope on failure.
pub open spec fn reply_view(result: Result<Seq<char>, Seq<char>>) -> MessageView {
    match result {
        Ok(value) => MessageView { role: Role::Tool, token: TokenView::End(value) },
        Err(err) => MessageView { role: Role::Tool, token: TokenView::End(error_envelope(err)) },
    }
}

pub open spec fn result_view(result: Result<String, String>) -> Result<Seq<char>, Seq<char>> {
    match result {
        Ok(v) => Ok(v@),
        Err(e) => Err(e@),
    }
}

/// Turns the outcome of an evaluation into the `Tool` message to publish. A
/// failure is reported as data, never raised.
pub fn tool_reply(result: Result<String, String>) -> (r: Message)
    ensures
        r@ == reply_view(result_view(result)),
{
    match result {
        Ok(value) => Message { role: Role::Tool, token: Token::End(value) },
        Err(err) => Message { role: Role::Tool, token: Token::End(error_message(err.as_str())) },
    }
}

/// A script interpreter: evaluates a piece of code to a portable (JSON)
/// rendering of its value, or to an error text.
pub trait ScriptEngin {
    fn eval(&self, code: &str) -> Result<String, String>;
}

/// Evaluates completed assistant output with its engine, one script at a
/// time, and answers with a `Tool` message.
pub struct ScriptExecutor<E: ScriptEngin> {
    engine: E,
}

impl<E: ScriptEngin> ScriptExecutor<E> {
    pub fn new(engine: E) -> (r: Self) {
        ScriptExecutor { engine }
    }

    /// Evaluates `code` with the engine.
    pub fn eval(&self, code: &str) -> Result<String, String> {
        self.engine.eval(code)
    }

    /// Handles one message from the executor's queue. A message the
    /// executor's filter rejects gets no answer and nothing is evaluated;
    /// otherwise exactly the script that `script_of` picks is evaluated, once,
    /// and `tool_reply` turns its outcome into the reply to publish.
    pub fn handle(&self, input: &Message) -> (r: Option<Message>)
        ensures
            r is Some <==> accepts(input@),
            r matches Some(m) ==> exists|result: Result<Seq<char>, Seq<char>>|
                m@ == reply_view(result),
    {
        match script_of(input) {
            Some(code) => {
                let result = self.eval(code.as_str());
                let reply = tool_reply(result);
                proof {
                    assert(reply@ == reply_view(result_view(result)));
                }
                Some(reply)
            },
            None => None,
        }
    }
}

/// The script a message asks the executor to run: the text of an accepted
/// message, and nothing for any other.
pub fn script_of(input: &Message) -> (r: Option<&String>)
    ensures
        r is Some <==> accepts(input@),
        r matches Some(c) ==> end_text(input@.token) == Some(c@),
{
    match &input.token {
        Token::End(code) => {
            if input.role == Role::Assistant && !code.as_str().is_empty() && !is_comment(code) {
                Some(code)
            } else {
                None
            }
        },
        _ => None,
    }
}

} // verus!
