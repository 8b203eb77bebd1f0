//! A tool engine on the rhai interpreter, with the host functions that
//! scripts can call. Each host function answers with a record of strings.

use vstd::prelude::*;
use crate::host::{now_rfc3339, ok_reply, time_reply, weather_reply};
use crate::tool_env::ScriptEngin;

verus! {

#[verifier::external_type_specification]
#[verifier::external_body]
pub struct ExEngine(rhai::Engine);

#[verifier::external_type_specification]
#[verifier::external_body]
pub struct ExDynamic(rhai::Dynamic);

#[verifier::external_type_specification]
#[verifier::external_body]
pub struct ExEvalAltResult(rhai::EvalAltResult);

#[verifier::external_type_specification]
#[verifier::external_body]
pub struct ExValue(serde_json::Value);

/// Relies on rhai::Engine::new: an engine with the standard packages.
#[verifier::external_body]
fn engine_new() -> rhai::Engine {
    rhai::Engine::new()
}

/// The names under which scripts reach the host functions.
pub open spec fn host_names() -> Set<Seq<char>> {
    set!["send_sms"@, "send_msg"@, "get_weather"@, "get_current_time"@]
}

/// A rhai engine, and the names of the host functions registered on it.
pub struct RhaiEngine {
    engine: rhai::Engine,
    host_functions: Ghost<Set<Seq<char>>>,
}

impl RhaiEngine {
    /// The names scripts can call host functions by.
    pub closed spec fn host_functions(&self) -> Set<Seq<char>> {
        self.host_functions@
    }
}

/// Relies on rhai::Engine::register_fn: makes each host function callable
/// from scripts under its name.
#[verifier::external_body]
fn register_host_functions(e: &mut RhaiEngine)
    ensures
        final(e).host_functions() == old(e).host_functions().union(host_names()),
{
    e.engine
        .register_fn("send_sms", |n: String, m: String| send_sms(n, m))
        .register_fn("send_msg", |r: i64, m: String| send_msg(r, m))
        .register_fn("get_weather", || get_weather())
        .register_fn("get_current_time", || get_current_time());
}

/// Relies on rhai::Dynamic::from_map: a script object map holding the given
/// string fields.
#[verifier::external_body]
fn record(fields: Vec<(String, String)>) -> rhai::Dynamic {
    rhai::Dynamic::from_map(fields.into_iter().map(|(k, v)| (k.into(), v.into())).collect())
}

/// Relies on rhai::Engine::eval: runs a script and returns its value.
#[verifier::external_body]
fn run_script(engine: &rhai::Engine, code: &str) -> Result<rhai::Dynamic, Box<rhai::EvalAltResult>> {
    engine.eval::<rhai::Dynamic>(code)
}

/// Relies on rhai::serde::from_dynamic: a script value as a JSON value.
#[verifier::external_body]
fn to_json_value(value: &rhai::Dynamic) -> Result<serde_json::Value, Box<rhai::EvalAltResult>> {
    rhai::serde::from_dynamic::<serde_json::Value>(value)
}

/// Relies on serde_json::Value's Display: the compact JSON text of a value.
#[verifier::external_body]
fn json_text(value: &serde_json::Value) -> String {
    value.to_string()
}

/// Relies on rhai::EvalAltResult's Display: the error's message.
#[verifier::external_body]
fn error_text(err: &Box<rhai::EvalAltResult>) -> String {
    err.to_string()
}

fn send_sms(_number: String, _sms_msg: String) -> rhai::Dynamic {
    record(ok_reply())
}

fn send_msg(_room_id: i64, _message: String) -> rhai::Dynamic {
    record(ok_reply())
}

fn get_weather() -> rhai::Dynamic {
    record(weather_reply())
}

fn get_current_time() -> rhai::Dynamic {
    record(time_reply(now_rfc3339()))
}

/// A rhai engine with the host functions `send_sms`, `send_msg`,
/// `get_weather` and `get_current_time` registered.
pub fn new_rhai() -> (r: RhaiEngine)
    ensures
        r.host_functions() == host_names(),
{
    let ghost none = Set::<Seq<char>>::empty();
    let mut e = RhaiEngine { engine: engine_new(), host_functions: Ghost(none) };
    register_host_functions(&mut e);
    proof {
        assert(none.union(host_names()) =~= host_names());
    }
    e
}

impl ScriptEngin for RhaiEngine {
    /// Runs the script and renders its value as JSON; a failure to run or to
    /// render gives the error's message.
    fn eval(&self, code: &str) -> Result<String, String> {
        match run_script(&self.engine, code) {
            Ok(value) => match to_json_value(&value) {
                Ok(json) => Ok(json_text(&json)),
                Err(err) => Err(error_text(&err)),
            },
            Err(err) => Err(error_text(&err)),
        }
    }
}

} // verus!
