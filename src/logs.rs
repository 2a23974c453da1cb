//! The two log streams: the operational messages the server writes, and the
//! line formats of the operational log and of the access log.

use crate::text::{concat_text, decimal, decimal_text, push_text};
use vstd::prelude::*;

verus! {

/// One request as the access log records it.
#[derive(Debug, Clone)]
pub struct AccessRecord {
    /// The client's address, or `unknown`.
    pub client_address: String,
    pub method: String,
    pub uri_path: String,
    pub status_code: u16,
    pub user_agent: Option<String>,
}

/// The operational log line for a message: `[<timestamp>] <message>`.
pub open spec fn event_line_text(timestamp: Seq<char>, message: Seq<char>) -> Seq<char> {
    "["@ + timestamp + "] "@ + message + "\n"@
}

/// Formats an operational log line.
pub fn event_line(timestamp: &str, message: &str) -> (r: String)
    ensures
        r@ == event_line_text(timestamp@, message@),
{
    let mut line = concat_text("[", timestamp);
    push_text(&mut line, "] ");
    push_text(&mut line, message);
    push_text(&mut line, "\n");
    line
}

/// The user agent as logged: the agent, or `-` when there is none.
pub open spec fn agent_text(user_agent: Option<String>) -> Seq<char> {
    match user_agent {
        Some(a) => a@,
        None => "-"@,
    }
}

/// The access log line for a record:
/// `[<timestamp>] <client> "<method>" <uri> <status> "<user agent or ->"`.
pub open spec fn access_line_text(timestamp: Seq<char>, record: AccessRecord) -> Seq<char> {
    "["@ + timestamp + "] "@ + record.client_address@ + " \""@ + record.method@ + "\" "@
        + record.uri_path@ + " "@ + decimal(record.status_code as nat) + " \""@ + agent_text(
        record.user_agent,
    ) + "\"\n"@
}

/// Formats an access log line.
pub fn access_line(timestamp: &str, record: &AccessRecord) -> (r: String)
    ensures
        r@ == access_line_text(timestamp@, *record),
{
    let mut line = concat_text("[", timestamp);
    push_text(&mut line, "] ");
    push_text(&mut line, record.client_address.as_str());
    push_text(&mut line, " \"");
    push_text(&mut line, record.method.as_str());
    push_text(&mut line, "\" ");
    push_text(&mut line, record.uri_path.as_str());
    push_text(&mut line, " ");
    let status = decimal_text(record.status_code as u64);
    push_text(&mut line, status.as_str());
    push_text(&mut line, " \"");
    match &record.user_agent {
        Some(a) => push_text(&mut line, a.as_str()),
        None => push_text(&mut line, "-"),
    }
    push_text(&mut line, "\"\n");
    line
}

/// `Served <kind> file: <path>`.
pub open spec fn served_text(path: Seq<char>, file_type: Seq<char>) -> Seq<char> {
    "Served "@ + file_type + " file: "@ + path
}

/// The message logged when a file has been served; `file_type` is `static`
/// or `markdown`.
pub fn served_message(path: &str, file_type: &str) -> (r: String)
    ensures
        r@ == served_text(path@, file_type@),
{
    let mut m = concat_text("Served ", file_type);
    push_text(&mut m, " file: ");
    push_text(&mut m, path);
    m
}

/// The message logged for an error.
pub fn error_message(message: &str) -> (r: String)
    ensures
        r@ == "ERROR: "@ + message@,
{
    concat_text("ERROR: ", message)
}

/// The message logged for a warning.
pub fn warning_message(message: &str) -> (r: String)
    ensures
        r@ == "WARNING: "@ + message@,
{
    concat_text("WARNING: ", message)
}

/// The message logged when the server starts.
pub fn startup_message(port: u16, webroot: &str) -> (r: String)
    ensures
        r@ == "Server started on port "@ + decimal(port as nat) + " serving files from "@
            + webroot@,
{
    let mut m = String::from_str("Server started on port ");
    let p = decimal_text(port as u64);
    push_text(&mut m, p.as_str());
    push_text(&mut m, " serving files from ");
    push_text(&mut m, webroot);
    m
}

/// The message logged when the server stops.
pub fn shutdown_message() -> (r: String)
    ensures
        r@ == "Server shutting down"@,
{
    String::from_str("Server shutting down")
}

/// Relies on chrono's `Utc::now` and `format`: the current time in UTC,
/// written `YYYY-MM-DD HH:MM:SS UTC`. The value depends on the clock; the
/// pattern writes only digits, signs, `-`, `:`, spaces and `UTC`, so the text
/// holds no line feed.
#[verifier::external_body]
fn utc_timestamp() -> (r: String)
    ensures
        !r@.contains('\n'),
{
    chrono::Utc::now().format("%Y-%m-%d %H:%M:%S UTC").to_string()
}

/// An operational log line for a message, stamped with the current time.
pub fn stamped_event_line(message: &str) -> (r: String)
    ensures
        exists|t: Seq<char>| !t.contains('\n') && r@ == event_line_text(t, message@),
{
    let t = utc_timestamp();
    event_line(t.as_str(), message)
}

/// An access log line for a record, stamped with the current time.
pub fn stamped_access_line(record: &AccessRecord) -> (r: String)
    ensures
        exists|t: Seq<char>| !t.contains('\n') && r@ == access_line_text(t, *record),
{
    let t = utc_timestamp();
    access_line(t.as_str(), record)
}

} // verus!
