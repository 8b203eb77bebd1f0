//! How turns are framed for a model that calls tools through scripts: user
//! and tool turns become small JSON objects, and the assistant's complete
//! output is kept as the next script to run unless it is a comment.

use vstd::prelude::*;
use vstd::string::StringExecFns;
use crate::message::{has_prefix, Content, ContentView, Role, Token, TokenView};
use crate::tool_env::{
    error_envelope, error_message, json_quoted, quote_json, result_view, ScriptEngin,
};

verus! {

/// A tool result as the model reads it: `{ "role":"tool","message":…}` with
/// the result's JSON text inside as it is.
pub open spec fn tool_frame(result: Seq<char>) -> Seq<char> {
    "{ \"role\":\"tool\",\"message\":"@ + result + "}"@
}

/// A user turn as the model reads it: `{"message":…,"role":"user"}`, the
/// text as a JSON string.
pub open spec fn user_frame(text: Seq<char>) -> Seq<char> {
    "{\"message\":"@ + json_quoted(text) + ",\"role\":\"user\"}"@
}

/// A failed script as the model reads it: the error envelope as the message
/// of a tool object.
pub open spec fn tool_error_frame(err: Seq<char>) -> Seq<char> {
    "{\"message\":"@ + error_envelope(err) + ",\"role\":\"tool\"}"@
}

/// Frames a script's JSON result for the model.
pub fn parse_script_result(result: &str) -> (r: String)
    ensures
        r@ == tool_frame(result@),
{
    let mut out = String::from_str("{ \"role\":\"tool\",\"message\":");
    out.append(result);
    out.append("}");
    out
}

/// Frames a script's error for the model.
pub fn parse_script_error(err: &str) -> (r: String)
    ensures
        r@ == tool_error_frame(err@),
{
    let mut out = String::from_str("{\"message\":");
    let envelope = error_message(err);
    out.append(envelope.as_str());
    out.append(",\"role\":\"tool\"}");
    out
}

/// A turn as the model reads it: user text framed as a user object, a tool
/// result framed as a tool object and handed over as a user turn; other
/// turns as they are.
pub open spec fn framed(c: ContentView) -> ContentView {
    match c.role {
        Role::User => ContentView { role: Role::User, message: user_frame(c.message) },
        Role::Tool => ContentView { role: Role::User, message: tool_frame(c.message) },
        _ => c,
    }
}

/// Frames one turn in place before it reaches the model.
pub fn parse_input(content: &mut Content)
    ensures
        final(content)@ == framed(old(content)@),
{
    match content.role {
        Role::User => {
            let mut out = String::from_str("{\"message\":");
            let quoted = quote_json(content.message.as_str());
            out.append(quoted.as_str());
            out.append(",\"role\":\"user\"}");
            content.message = out;
        },
        Role::Tool => {
            content.role = Role::User;
            content.message = parse_script_result(content.message.as_str());
        },
        _ => {},
    }
}

/// The script language whose comment marker tells prose from code.
#[derive(Clone, Copy, Debug, PartialEq, Eq, Structural)]
pub enum Dialect {
    /// Comments start with `--`.
    Lua,
    /// Comments start with `//`.
    Rhai,
}

pub open spec fn marker_view(d: Dialect) -> Seq<char> {
    match d {
        Dialect::Lua => seq!['-', '-'],
        Dialect::Rhai => seq!['/', '/'],
    }
}

/// Whether the assistant's complete output is a script to run.
pub open spec fn is_script(d: Dialect, text: Seq<char>) -> bool {
    text.len() > 0 && !(text.len() >= 2 && text.subrange(0, 2) == marker_view(d))
}

impl Dialect {
    pub fn comment_marker(&self) -> (r: &'static str)
        ensures
            r@ == marker_view(*self),
    {
        proof {
            reveal_strlit("--");
            reveal_strlit("//");
        }
        match self {
            Dialect::Lua => "--",
            Dialect::Rhai => "//",
        }
    }
}

/// Remembers the script the assistant's last complete output asked for,
/// until it is taken to be run.
pub struct ScriptHook {
    dialect: Dialect,
    code: Option<String>,
}

impl ScriptHook {
    pub closed spec fn pending(&self) -> Option<Seq<char>> {
        match self.code {
            Some(c) => Some(c@),
            None => None,
        }
    }

    pub closed spec fn dialect_view(&self) -> Dialect {
        self.dialect
    }

    pub fn new(dialect: Dialect) -> (r: Self)
        ensures
            r.pending() is None,
            r.dialect_view() == dialect,
    {
        ScriptHook { dialect, code: None }
    }

    /// Sees one token of the assistant's output: an `End` whose text is a
    /// script becomes the pending script; anything else leaves it as it was.
    pub fn token_callback(&mut self, token: &Token)
        ensures
            final(self).dialect_view() == old(self).dialect_view(),
            final(self).pending() == match token@ {
                TokenView::End(text) => if is_script(old(self).dialect_view(), text) {
                    Some(text)
                } else {
                    old(self).pending()
                },
                _ => old(self).pending(),
            },
    {
        match token {
            Token::End(full) => {
                let marker = self.dialect.comment_marker();
                if !full.as_str().is_empty() && !has_prefix(full.as_str(), marker) {
                    self.code = Some(full.clone());
                }
            },
            _ => {},
        }
    }

    /// Takes the pending script, leaving none.
    pub fn take_code(&mut self) -> (r: Option<String>)
        ensures
            final(self).pending() is None,
            final(self).dialect_view() == old(self).dialect_view(),
            match r {
                Some(c) => old(self).pending() == Some(c@),
                None => old(self).pending() is None,
            },
    {
        self.code.take()
    }

    /// Runs the pending script, if any, with `engine`. Exactly the pending
    /// script is evaluated, once, and `pending_turn` decides what its outcome
    /// gives: a tool turn, or nothing when a Lua script yields nil. With no
    /// pending script, or with nothing to report, the caller turns to the
    /// user for input.
    pub fn run_pending<E: ScriptEngin>(&mut self, engine: &E) -> (r: Option<Content>)
        ensures
            final(self).pending() is None,
            final(self).dialect_view() == old(self).dialect_view(),
            old(self).pending() is None ==> r is None,
            r matches Some(c) ==> old(self).pending() is Some && exists|
                result: Result<Seq<char>, Seq<char>>,
            | pending_turn_view(old(self).dialect_view(), result) == Some(c@),
    {
        match self.take_code() {
            Some(code) => {
                let result = engine.eval(code.as_str());
                let ghost rv = result_view(result);
                let turn = pending_turn(self.dialect, result);
                proof {
                    assert(opt_content_view(turn) == pending_turn_view(self.dialect, rv));
                }
                turn
            },
            None => None,
        }
    }
}

/// A script's value as JSON text is `null`: the script yielded nil.
pub open spec fn is_nil(v: Seq<char>) -> bool {
    v == "null"@
}

/// What a script's outcome gives: under Lua, a nil value gives no turn;
/// otherwise the tool turn that reports the outcome.
pub open spec fn pending_turn_view(d: Dialect, result: Result<Seq<char>, Seq<char>>) -> Option<
    ContentView,
> {
    match result {
        Ok(v) if d == Dialect::Lua && is_nil(v) => None,
        _ => Some(script_turn_view(result)),
    }
}

pub open spec fn opt_content_view(c: Option<Content>) -> Option<ContentView> {
    match c {
        Some(x) => Some(x@),
        None => None,
    }
}

/// The turn, if any, that a script's outcome gives.
pub fn pending_turn(dialect: Dialect, result: Result<String, String>) -> (r: Option<Content>)
    ensures
        opt_content_view(r) == pending_turn_view(dialect, result_view(result)),
{
    let nil = match &result {
        Ok(v) => dialect == Dialect::Lua && v.eq(&String::from_str("null")),
        Err(_) => false,
    };
    proof {
        reveal_strlit("null");
    }
    if nil {
        None
    } else {
        Some(script_turn(result))
    }
}

/// The tool turn for a script's outcome: its JSON value, or the error
/// envelope.
pub open spec fn script_turn_view(result: Result<Seq<char>, Seq<char>>) -> ContentView {
    match result {
        Ok(v) => ContentView { role: Role::Tool, message: v },
        Err(e) => ContentView { role: Role::Tool, message: error_envelope(e) },
    }
}

/// The tool turn that reports a script's outcome.
pub fn script_turn(result: Result<String, String>) -> (r: Content)
    ensures
        r@ == script_turn_view(result_view(result)),
{
    match result {
        Ok(v) => Content { role: Role::Tool, message: v },
        Err(e) => Content { role: Role::Tool, message: error_message(e.as_str()) },
    }
}

} // verus!
