use llama_chat::message::{Content, Role, Token};
use llama_chat::script_hook::{
    pending_turn, parse_input, parse_script_error, parse_script_result, script_turn, Dialect, ScriptHook,
};

fn object(pairs: &[(&str, serde_json::Value)]) -> serde_json::Value {
    let mut m = serde_json::Map::new();
    for (k, v) in pairs {
        m.insert(k.to_string(), v.clone());
    }
    serde_json::Value::Object(m)
}

#[test]
fn user_turn_is_framed_as_json_object() {
    let mut c = Content { role: Role::User, message: "say \"hi\"".to_string() };
    parse_input(&mut c);
    let expected = object(&[
        ("role", serde_json::Value::String("user".into())),
        ("message", serde_json::Value::String("say \"hi\"".into())),
    ]);
    assert_eq!(c, Content { role: Role::User, message: expected.to_string() });
}

#[test]
fn tool_turn_is_handed_over_as_user_turn() {
    let mut c = Content { role: Role::Tool, message: "{\"a\":1}".to_string() };
    parse_input(&mut c);
    assert_eq!(c, Content { role: Role::User, message: "{ \"role\":\"tool\",\"message\":{\"a\":1}}".to_string() });
    let mut s = Content { role: Role::System, message: "rules".to_string() };
    parse_input(&mut s);
    assert_eq!(s, Content { role: Role::System, message: "rules".to_string() });
}

#[test]
fn script_result_and_error_frames() {
    assert_eq!(parse_script_result("2"), "{ \"role\":\"tool\",\"message\":2}");
    let expected = object(&[
        ("role", serde_json::Value::String("tool".into())),
        (
            "message",
            object(&[
                ("status", serde_json::Value::String("error".into())),
                ("error", serde_json::Value::String("bad \"x\"".into())),
            ]),
        ),
    ]);
    assert_eq!(parse_script_error("bad \"x\""), expected.to_string());
}

#[test]
fn hook_keeps_last_script_but_not_comments() {
    let mut hook = ScriptHook::new(Dialect::Lua);
    hook.token_callback(&Token::Start);
    hook.token_callback(&Token::Chunk("return 1".into()));
    assert_eq!(hook.take_code(), None);
    hook.token_callback(&Token::End("return 1".into()));
    hook.token_callback(&Token::End("-- just talk".into()));
    hook.token_callback(&Token::End(String::new()));
    assert_eq!(hook.take_code(), Some("return 1".to_string()));
    assert_eq!(hook.take_code(), None);

    let mut rhai = ScriptHook::new(Dialect::Rhai);
    rhai.token_callback(&Token::End("-- not a comment here".into()));
    assert_eq!(rhai.take_code(), Some("-- not a comment here".to_string()));
    rhai.token_callback(&Token::End("// comment".into()));
    assert_eq!(rhai.take_code(), None);
}

#[test]
fn script_turn_reports_value_or_error() {
    assert_eq!(script_turn(Ok("3".into())), Content { role: Role::Tool, message: "3".into() });
    assert_eq!(
        script_turn(Err("e".into())),
        Content { role: Role::Tool, message: "{\"error\":\"e\",\"status\":\"error\"}".into() }
    );
}

struct Doubler;

impl llama_chat::tool_env::ScriptEngin for Doubler {
    fn eval(&self, code: &str) -> Result<String, String> {
        if code.is_empty() {
            Err("nothing to run".to_string())
        } else {
            Ok(format!("{code}{code}"))
        }
    }
}

#[test]
fn pending_script_runs_once() {
    let mut hook = ScriptHook::new(Dialect::Rhai);
    assert_eq!(hook.run_pending(&Doubler), None);
    hook.token_callback(&Token::End("ab".into()));
    assert_eq!(hook.run_pending(&Doubler), Some(Content { role: Role::Tool, message: "abab".into() }));
    assert_eq!(hook.run_pending(&Doubler), None);
}

#[test]
fn lua_nil_gives_no_tool_turn() {
    assert_eq!(pending_turn(Dialect::Lua, Ok("null".into())), None);
    assert_eq!(
        pending_turn(Dialect::Rhai, Ok("null".into())),
        Some(Content { role: Role::Tool, message: "null".into() })
    );
    assert_eq!(
        pending_turn(Dialect::Lua, Ok("1".into())),
        Some(Content { role: Role::Tool, message: "1".into() })
    );
    assert_eq!(
        pending_turn(Dialect::Lua, Err("e".into())),
        Some(Content { role: Role::Tool, message: "{\"error\":\"e\",\"status\":\"error\"}".into() })
    );
    let lua = llama_chat::lua_env::new_lua().unwrap();
    let mut hook = ScriptHook::new(Dialect::Lua);
    hook.token_callback(&Token::End("local x = 1".into()));
    assert_eq!(hook.run_pending(&lua), None);
    assert_eq!(hook.run_pending(&lua), None);
    hook.token_callback(&Token::End("return 'hi'".into()));
    assert_eq!(hook.run_pending(&lua), Some(Content { role: Role::Tool, message: "\"hi\"".into() }));
}
