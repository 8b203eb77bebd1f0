//! A tool engine on the Lua interpreter, with the host functions that
//! scripts can call. Each host function answers with a table.

use vstd::prelude::*;
use crate::host::{now_rfc3339, ok_reply, room_message_reply, sms_reply, time_reply, weather_reply};
use crate::tool_env::ScriptEngin;

verus! {

#[verifier::external_type_specification]
#[verifier::external_body]
pub struct ExLua(mlua::Lua);

#[verifier::external_type_specification]
#[verifier::external_body]
pub struct ExLuaValue(mlua::Value);

#[verifier::external_type_specification]
#[verifier::external_body]
pub struct ExLuaTable(mlua::Table);

#[verifier::external_type_specification]
#[verifier::external_body]
pub struct ExLuaError(mlua::Error);

#[verifier::external_type_specification]
#[verifier::external_body]
pub struct ExJsonError(serde_json::Error);

/// Relies on mlua::Lua::new: a Lua state with the safe standard libraries.
#[verifier::external_body]
fn lua_new() -> mlua::Lua {
    mlua::Lua::new()
}

/// The names under which scripts reach the host functions.
pub open spec fn host_names() -> Set<Seq<char>> {
    set!["send_sms"@, "send_msg"@, "remember"@, "get_weather"@, "get_current_time"@]
}

/// A Lua state, and the names of the host functions set as its globals.
pub struct LuaEngine {
    lua: mlua::Lua,
    host_functions: Ghost<Set<Seq<char>>>,
}

impl LuaEngine {
    /// The names scripts can call host functions by.
    pub closed spec fn host_functions(&self) -> Set<Seq<char>> {
        self.host_functions@
    }
}

/// Relies on mlua::Lua::create_function, with Table::set on the globals:
/// makes each host function callable from scripts under its name. A failure
/// may leave some of them set.
#[verifier::external_body]
fn install_host_functions(e: &mut LuaEngine) -> (r: Result<(), mlua::Error>)
    ensures
        r is Ok ==> final(e).host_functions() == old(e).host_functions().union(host_names()),
{
    let lua = &e.lua;
    let g = lua.globals();
    g.set("send_sms", lua.create_function(|l, (n, m): (String, String)| send_sms(l, n, m))?)?;
    g.set("send_msg", lua.create_function(|l, (r, m): (u64, String)| send_msg(l, r, m))?)?;
    g.set("remember", lua.create_function(|l, (_t, _x): (u64, String)| remember(l))?)?;
    g.set("get_weather", lua.create_function(|l, (): ()| get_weather(l))?)?;
    g.set("get_current_time", lua.create_function(|l, (): ()| get_current_time(l))?)
}

/// Relies on mlua::Lua::create_table_from: a table holding the given string
/// fields.
#[verifier::external_body]
fn lua_table(lua: &mlua::Lua, fields: Vec<(String, String)>) -> Result<mlua::Table, mlua::Error> {
    lua.create_table_from(fields)
}

/// Relies on mlua::Table::set: stores an integer field.
#[verifier::external_body]
fn set_integer(table: &mlua::Table, key: &str, value: u64) -> Result<(), mlua::Error> {
    table.set(key, value)
}

/// Relies on mlua::Chunk::eval of the loaded code: runs it and returns its
/// value.
#[verifier::external_body]
fn run_chunk(lua: &mlua::Lua, code: &str) -> Result<mlua::Value, mlua::Error> {
    lua.load(code).eval::<mlua::Value>()
}

/// Relies on serde_json::to_string over mlua's Serialize for values: the
/// value as JSON, or an error for what JSON cannot hold (a function, say).
#[verifier::external_body]
fn value_json(value: &mlua::Value) -> Result<String, serde_json::Error> {
    serde_json::to_string(value)
}

/// Relies on mlua::Error's Display: the error's message.
#[verifier::external_body]
fn lua_error_text(err: &mlua::Error) -> String {
    err.to_string()
}

/// Relies on serde_json::Error's Display: the error's message.
#[verifier::external_body]
fn json_error_text(err: &serde_json::Error) -> String {
    err.to_string()
}

fn send_sms(lua: &mlua::Lua, number: String, sms_msg: String) -> Result<mlua::Table, mlua::Error> {
    lua_table(lua, sms_reply(number, sms_msg))
}

fn send_msg(lua: &mlua::Lua, room_id: u64, message: String) -> Result<mlua::Table, mlua::Error> {
    let table = match lua_table(lua, room_message_reply(message)) {
        Ok(t) => t,
        Err(e) => return Err(e),
    };
    match set_integer(&table, "room_id", room_id) {
        Ok(()) => Ok(table),
        Err(e) => Err(e),
    }
}

fn remember(lua: &mlua::Lua) -> Result<mlua::Table, mlua::Error> {
    lua_table(lua, ok_reply())
}

fn get_weather(lua: &mlua::Lua) -> Result<mlua::Table, mlua::Error> {
    lua_table(lua, weather_reply())
}

fn get_current_time(lua: &mlua::Lua) -> Result<mlua::Table, mlua::Error> {
    lua_table(lua, time_reply(now_rfc3339()))
}

/// A Lua state with the host functions `send_sms`, `send_msg`, `remember`,
/// `get_weather` and `get_current_time` set as globals.
pub fn new_lua() -> (r: Result<LuaEngine, mlua::Error>)
    ensures
        r matches Ok(e) ==> e.host_functions() == host_names(),
{
    let ghost none = Set::<Seq<char>>::empty();
    let mut e = LuaEngine { lua: lua_new(), host_functions: Ghost(none) };
    match install_host_functions(&mut e) {
        Ok(()) => {
            proof {
                assert(none.union(host_names()) =~= host_names());
            }
            Ok(e)
        },
        Err(err) => Err(err),
    }
}

impl ScriptEngin for LuaEngine {
    /// Runs the chunk and renders its value as JSON; a failure to run or to
    /// render gives the error's message.
    fn eval(&self, code: &str) -> Result<String, String> {
        match run_chunk(&self.lua, code) {
            Ok(value) => match value_json(&value) {
                Ok(json) => Ok(json),
                Err(err) => Err(json_error_text(&err)),
            },
            Err(err) => Err(lua_error_text(&err)),
        }
    }
}

} // verus!
