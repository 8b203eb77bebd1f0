//! What the host functions offered to scripts answer: records of string
//! fields, the same under every interpreter.

use vstd::prelude::*;
use vstd::string::StringExecFns;

verus! {

/// Relies on chrono::Local::now, rendered by to_rfc3339: the local time now.
#[verifier::external_body]
pub(crate) fn now_rfc3339() -> String {
    chrono::Local::now().to_rfc3339()
}

/// The fields of a plain acknowledgement: `status` is `ok`.
pub open spec fn ok_fields() -> Seq<(Seq<char>, Seq<char>)> {
    seq![("status"@, "ok"@)]
}

pub open spec fn fields_view(v: Seq<(String, String)>) -> Seq<(Seq<char>, Seq<char>)> {
    v.map_values(|f: (String, String)| (f.0@, f.1@))
}

fn field(key: &str, value: String) -> (r: (String, String))
    ensures
        r.0@ == key@,
        r.1@ == value@,
{
    (String::from_str(key), value)
}

fn text(s: &str) -> (r: String)
    ensures
        r@ == s@,
{
    String::from_str(s)
}

/// The acknowledgement of a request that has nothing more to report.
pub fn ok_reply() -> (r: Vec<(String, String)>)
    ensures
        fields_view(r@) == ok_fields(),
{
    let r = vec![field("status", text("ok"))];
    proof {
        assert(fields_view(r@) =~= ok_fields());
    }
    r
}

/// The weather report: rain at eighteen degrees.
pub fn weather_reply() -> (r: Vec<(String, String)>)
    ensures
        fields_view(r@) == seq![("status"@, "ok"@), ("temp"@, "18"@), ("weather"@, "雨"@)],
{
    let r = vec![field("status", text("ok")), field("temp", text("18")), field("weather", text("雨"))];
    proof {
        assert(fields_view(r@) =~= seq![("status"@, "ok"@), ("temp"@, "18"@), ("weather"@, "雨"@)]);
    }
    r
}

/// The answer to a request for the time.
pub fn time_reply(time: String) -> (r: Vec<(String, String)>)
    ensures
        fields_view(r@) == seq![("status"@, "ok"@), ("time"@, time@)],
{
    let ghost t = time@;
    let r = vec![field("status", text("ok")), field("time", time)];
    proof {
        assert(fields_view(r@) =~= seq![("status"@, "ok"@), ("time"@, t)]);
    }
    r
}

/// The acknowledgement of a text message: `status` is `ok`, and the number
/// and text are echoed back.
pub fn sms_reply(number: String, sms_msg: String) -> (r: Vec<(String, String)>)
    ensures
        fields_view(r@) == seq![("status"@, "ok"@), ("number"@, number@), ("sms_msg"@, sms_msg@)],
{
    let ghost (n, m) = (number@, sms_msg@);
    let r = vec![
        field("status", text("ok")),
        field("number", number),
        field("sms_msg", sms_msg),
    ];
    proof {
        assert(fields_view(r@) =~= seq![("status"@, "ok"@), ("number"@, n), ("sms_msg"@, m)]);
    }
    r
}

/// The acknowledgement of a chat message, less its room (an integer field
/// added by the caller).
pub fn room_message_reply(message: String) -> (r: Vec<(String, String)>)
    ensures
        fields_view(r@) == seq![("status"@, "ok"@), ("message"@, message@)],
{
    let ghost m = message@;
    let r = vec![field("status", text("ok")), field("message", message)];
    proof {
        assert(fields_view(r@) =~= seq![("status"@, "ok"@), ("message"@, m)]);
    }
    r
}

} // verus!
