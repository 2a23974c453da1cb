//! Request handling, one request at a time: from the resolved target to the
//! reply, with the operational events and the one access record that each
//! reply carries.
//!
//! Reading files is left to the caller. [`begin_request`] says what to open
//! or read; [`finish_static`] and [`finish_markdown`] take what came of it.

use crate::logs::{error_message, served_message, served_text, AccessRecord};
use crate::render::{rendered_html, render_markdown, RenderedPage};
use crate::resolve::{NotFoundReason, ResolvedTarget};
use crate::text::{concat_text, push_text};
use vstd::prelude::*;

verus! {

/// What is known of a request besides its path.
#[derive(Debug, Clone)]
pub struct RequestInfo {
    /// The client's address, when the transport gives it.
    pub client_address: Option<String>,
    pub method: String,
    pub uri_path: String,
    pub user_agent: Option<String>,
}

/// The body of a reply.
#[derive(Debug, Clone)]
pub enum ReplyBody {
    /// The file at this path, sent as it is.
    File(String),
    /// A rendered page, sent as `text/html`.
    Html(String),
    /// A plain message.
    Text(String),
}

/// [`ReplyBody`] with its contents as text.
pub ghost enum BodyView {
    File(Seq<char>),
    Html(Seq<char>),
    Text(Seq<char>),
}

impl View for ReplyBody {
    type V = BodyView;

    open spec fn view(&self) -> BodyView {
        match self {
            ReplyBody::File(p) => BodyView::File(p@),
            ReplyBody::Html(h) => BodyView::Html(h@),
            ReplyBody::Text(t) => BodyView::Text(t@),
        }
    }
}

/// The answer to one request: its status, its body, the operational events
/// to log, and the one access record to log.
#[derive(Debug, Clone)]
pub struct Reply {
    pub status: u16,
    pub body: ReplyBody,
    pub events: Vec<String>,
    pub access: AccessRecord,
}

/// What the caller does next for a request.
#[derive(Debug, Clone)]
pub enum NextStep {
    /// Open this file to send it; then call [`finish_static`].
    OpenStatic(String),
    /// Read this Markdown file as text; then call [`finish_markdown`].
    ReadMarkdown(String),
    /// Nothing to read: send this reply.
    Respond(Reply),
}

/// The client as logged: its address, or `unknown`.
pub open spec fn client_text(address: Option<String>) -> Seq<char> {
    match address {
        Some(a) => a@,
        None => "unknown"@,
    }
}

/// An optional text as an optional sequence of characters.
pub open spec fn opt_text(s: Option<String>) -> Option<Seq<char>> {
    match s {
        Some(t) => Some(t@),
        None => None,
    }
}

/// `record` logs `request` with `status`.
pub open spec fn records(record: AccessRecord, request: RequestInfo, status: u16) -> bool {
    &&& record.client_address@ == client_text(request.client_address)
    &&& record.method@ == request.method@
    &&& record.uri_path@ == request.uri_path@
    &&& record.status_code == status
    &&& opt_text(record.user_agent) == opt_text(request.user_agent)
}

/// `reply` answers `request` with `status` and `body`, logs `events` in this
/// order, and carries one access record, whose status is the reply's.
pub open spec fn reply_is(
    reply: Reply,
    request: RequestInfo,
    status: u16,
    body: BodyView,
    events: Seq<Seq<char>>,
) -> bool {
    &&& reply.status == status
    &&& reply.body@ == body
    &&& reply.events@.len() == events.len()
    &&& forall|i: int| 0 <= i < events.len() ==> #[trigger] reply.events@[i]@ == events[i]
    &&& records(reply.access, request, status)
}

/// The index names as `{:?}` writes a list of texts: `["index.html", "index.md"]`.
pub uninterp spec fn debug_list_of(names: Seq<Seq<char>>) -> Seq<char>;

/// The configured index names, listed as in a not-found message.
pub open spec fn index_list(names: Seq<String>) -> Seq<char> {
    debug_list_of(names.map_values(|n: String| n@))
}

/// Relies on the `Debug` formatting of `Vec<String>` (`format!("{:?}")`): the
/// names quoted and escaped, separated by `, `, in brackets. The text depends
/// on the names alone.
#[verifier::external_body]
fn debug_names(names: &Vec<String>) -> (r: String)
    ensures
        r@ == debug_list_of(names@.map_values(|n: String| n@)),
{
    format!("{:?}", names)
}

/// The reply text for a request that found nothing to serve, given the
/// listed index names.
pub open spec fn not_found_message(reason: NotFoundReason, uri: Seq<char>, list: Seq<char>) -> Seq<char> {
    match reason {
        NotFoundReason::Refused => "Path not allowed: "@ + uri,
        NotFoundReason::NoRootIndex => "No index file found. Looking for: "@ + list,
        NotFoundReason::NoIndexFile(d) => "No index file found in directory: "@ + d@
            + ". Looking for: "@ + list,
        NotFoundReason::FileNotFound(p) => "File not found: "@ + p@,
    }
}

/// Writes the reply text for a request that found nothing to serve, given
/// the listed index names.
pub fn not_found_text(reason: &NotFoundReason, uri: &str, index_list: &str) -> (r: String)
    ensures
        r@ == not_found_message(*reason, uri@, index_list@),
{
    match reason {
        NotFoundReason::Refused => concat_text("Path not allowed: ", uri),
        NotFoundReason::NoRootIndex => concat_text("No index file found. Looking for: ", index_list),
        NotFoundReason::NoIndexFile(d) => {
            let mut m = concat_text("No index file found in directory: ", d.as_str());
            push_text(&mut m, ". Looking for: ");
            push_text(&mut m, index_list);
            m
        },
        NotFoundReason::FileNotFound(p) => concat_text("File not found: ", p.as_str()),
    }
}

/// The message for a file that exists but could not be opened.
pub open spec fn open_failed_text(path: Seq<char>) -> Seq<char> {
    "Could not open file: "@ + path
}

/// The message for a Markdown file that could not be read.
pub open spec fn read_failed_text(path: Seq<char>) -> Seq<char> {
    "Could not read markdown file: "@ + path
}

/// The access record for `request` answered with `status`.
pub fn access_record(request: &RequestInfo, status: u16) -> (r: AccessRecord)
    ensures
        records(r, *request, status),
{
    let client_address = match &request.client_address {
        Some(a) => a.clone(),
        None => String::from_str("unknown"),
    };
    let user_agent = match &request.user_agent {
        Some(a) => Some(a.clone()),
        None => None,
    };
    AccessRecord {
        client_address,
        method: request.method.clone(),
        uri_path: request.uri_path.clone(),
        status_code: status,
        user_agent,
    }
}

fn text_reply(request: &RequestInfo, status: u16, message: String, events: Vec<String>) -> (r: Reply)
    ensures
        r.status == status,
        r.body@ == BodyView::Text(message@),
        r.events@ == events@,
        records(r.access, *request, status),
{
    Reply { status, body: ReplyBody::Text(message), events, access: access_record(request, status) }
}

/// The step that follows a resolved target.
pub open spec fn step_for(
    step: NextStep,
    request: RequestInfo,
    index_files: Seq<String>,
    target: ResolvedTarget,
) -> bool {
    match target {
        ResolvedTarget::StaticFile(p) => step matches NextStep::OpenStatic(q) && q@ == p@,
        ResolvedTarget::MarkdownDocument(p) => step matches NextStep::ReadMarkdown(q) && q@ == p@,
        ResolvedTarget::NotFound(reason) => step matches NextStep::Respond(r) && reply_is(
            r,
            request,
            404,
            BodyView::Text(not_found_message(reason, request.uri_path@, index_list(index_files))),
            seq![],
        ),
    }
}

/// Decides what follows a resolved target: a file to open, a Markdown file to
/// read, or at once a not-found reply (status 404).
pub fn begin_request(request: &RequestInfo, index_files: &Vec<String>, target: &ResolvedTarget) -> (r: NextStep)
    ensures
        step_for(r, *request, index_files@, *target),
{
    match target {
        ResolvedTarget::StaticFile(p) => NextStep::OpenStatic(p.clone()),
        ResolvedTarget::MarkdownDocument(p) => NextStep::ReadMarkdown(p.clone()),
        ResolvedTarget::NotFound(reason) => {
            let list = debug_names(index_files);
            let m = not_found_text(reason, request.uri_path.as_str(), list.as_str());
            NextStep::Respond(text_reply(request, 404, m, Vec::new()))
        },
    }
}

/// The reply once a static file was opened, or failed to open: 200 with the
/// file and a `Served static file` event, or 500 with an error event.
pub fn finish_static(request: &RequestInfo, path: &str, opened: bool) -> (r: Reply)
    ensures
        opened ==> reply_is(
            r,
            *request,
            200,
            BodyView::File(path@),
            seq![served_text(path@, "static"@)],
        ),
        !opened ==> reply_is(
            r,
            *request,
            500,
            BodyView::Text(open_failed_text(path@)),
            seq!["ERROR: "@ + open_failed_text(path@)],
        ),
{
    if opened {
        let event = served_message(path, "static");
        let r = Reply {
            status: 200,
            body: ReplyBody::File(String::from_str(path)),
            events: vec![event],
            access: access_record(request, 200),
        };
        r
    } else {
        let m = concat_text("Could not open file: ", path);
        let event = error_message(m.as_str());
        text_reply(request, 500, m, vec![event])
    }
}

/// The reply for a Markdown file whose page has been rendered: 200 with the
/// page and a `Served markdown file` event.
pub fn reply_for_page(request: &RequestInfo, path: &str, page: RenderedPage) -> (r: Reply)
    ensures
        reply_is(
            r,
            *request,
            200,
            BodyView::Html(page.full_html@),
            seq![served_text(path@, "markdown"@)],
        ),
{
    let event = served_message(path, "markdown");
    let r = Reply {
        status: 200,
        body: ReplyBody::Html(page.full_html),
        events: vec![event],
        access: access_record(request, 200),
    };
    r
}

/// The reply once a Markdown file was read, or failed to be read: 200 with the
/// rendered page, or 404 with an error event.
pub fn finish_markdown(
    request: &RequestInfo,
    path: &str,
    source: Option<&str>,
    extensions: &Vec<String>,
) -> (r: Reply)
    ensures
        source matches Some(s) ==> reply_is(
            r,
            *request,
            200,
            BodyView::Html(rendered_html(s@, extensions@)),
            seq![served_text(path@, "markdown"@)],
        ),
        source is None ==> reply_is(
            r,
            *request,
            404,
            BodyView::Text(read_failed_text(path@)),
            seq!["ERROR: "@ + read_failed_text(path@)],
        ),
{
    match source {
        Some(s) => {
            let page = render_markdown(s, extensions);
            reply_for_page(request, path, page)
        },
        None => {
            let m = concat_text("Could not read markdown file: ", path);
            let event = error_message(m.as_str());
            text_reply(request, 404, m, vec![event])
        },
    }
}

/// Every reply carries one access record, and the status it logs is the
/// status sent to the client.
pub proof fn lemma_access_status_matches(
    reply: Reply,
    request: RequestInfo,
    status: u16,
    body: BodyView,
    events: Seq<Seq<char>>,
)
    requires
        reply_is(reply, request, status, body, events),
    ensures
        reply.access.status_code == reply.status,
        reply.access.uri_path@ == request.uri_path@,
{
}

} // verus!
