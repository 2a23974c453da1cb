use barleywine::config::Config;
use barleywine::handler::{
    begin_request, finish_markdown, finish_static, not_found_text, NextStep, ReplyBody,
    RequestInfo,
};
use barleywine::logs::{access_line, event_line, startup_message, AccessRecord};
use barleywine::resolve::{
    candidate_path, index_candidates, normalize_segments, NotFoundReason, PathKind,
    ResolvedTarget, TargetProbe,
};

fn disk(kind: PathKind, index_present: Vec<bool>) -> TargetProbe {
    let n = index_present.len();
    TargetProbe { kind, within_webroot: true, index_present, index_within_webroot: vec![true; n] }
}

fn segs(v: &[&str]) -> Vec<String> {
    v.iter().map(|s| s.to_string()).collect()
}

fn get(uri: &str) -> RequestInfo {
    RequestInfo {
        client_address: Some("127.0.0.1".to_string()),
        method: "GET".to_string(),
        uri_path: uri.to_string(),
        user_agent: None,
    }
}

#[test]
fn first_existing_index_is_chosen() {
    let content = Config::default().content;
    let probe = disk(PathKind::Directory, vec![true, true]);
    assert!(matches!(content.resolve(&segs(&[]), &probe),
        ResolvedTarget::StaticFile(p) if p == "webroot/index.html"));
    let probe = disk(PathKind::Directory, vec![false, true]);
    assert!(matches!(content.resolve(&segs(&[]), &probe),
        ResolvedTarget::MarkdownDocument(p) if p == "webroot/index.md"));
    let probe = disk(PathKind::Directory, vec![false, true]);
    assert!(matches!(content.resolve(&segs(&["docs", ""]), &probe),
        ResolvedTarget::MarkdownDocument(p) if p == "webroot/docs/index.md"));
}

#[test]
fn markdown_disabled_serves_static() {
    let mut content = Config::default().content;
    content.markdown_enabled = false;
    let probe = disk(PathKind::File, vec![false, false]);
    assert!(matches!(content.resolve(&segs(&["a.md"]), &probe),
        ResolvedTarget::StaticFile(p) if p == "webroot/a.md"));
}

#[test]
fn markdown_extension_is_exact() {
    let content = Config::default().content;
    let probe = disk(PathKind::File, vec![false, false]);
    assert!(matches!(content.resolve(&segs(&["notes", "a.md"]), &probe),
        ResolvedTarget::MarkdownDocument(p) if p == "webroot/notes/a.md"));
    assert!(matches!(content.resolve(&segs(&["A.MD"]), &probe), ResolvedTarget::StaticFile(_)));
    assert!(matches!(content.resolve(&segs(&[".md"]), &probe),
        ResolvedTarget::NotFound(NotFoundReason::Refused)));
    let mut bare = content.clone();
    bare.index_files = vec![".md".to_string()];
    assert!(matches!(bare.resolve(&segs(&[]), &disk(PathKind::Directory, vec![true])),
        ResolvedTarget::StaticFile(p) if p == "webroot/.md"));
}

#[test]
fn traversal_is_refused() {
    let content = Config::default().content;
    let probe = disk(PathKind::File, vec![false, false]);
    assert!(matches!(content.resolve(&segs(&["..", "etc", "passwd"]), &probe),
        ResolvedTarget::NotFound(NotFoundReason::Refused)));
    assert!(matches!(content.resolve(&segs(&["a/../../b"]), &probe),
        ResolvedTarget::NotFound(NotFoundReason::Refused)));
    assert_eq!(normalize_segments(&segs(&["a", ".", "", "b"])), Some(segs(&["a", "b"])));
    assert_eq!(normalize_segments(&segs(&["a", "..\\x"])), None);
    assert_eq!(candidate_path("site/", &segs(&["a", "b.txt"])), Some("site/a/b.txt".to_string()));
    assert_eq!(candidate_path("site", &segs(&[".."])), None);
}

#[test]
fn index_paths_in_order() {
    let c = index_candidates("webroot/docs", &segs(&["index.html", "index.md"]));
    assert_eq!(c, segs(&["webroot/docs/index.html", "webroot/docs/index.md"]));
}

#[test]
fn scenario_static_index() {
    let content = Config::default().content;
    let probe = disk(PathKind::Directory, vec![true, false]);
    let target = content.resolve(&segs(&[]), &probe);
    let req = get("/");
    let step = begin_request(&req, &content.index_files, &target);
    let path = match step {
        NextStep::OpenStatic(p) => p,
        _ => panic!("expected a file to open"),
    };
    assert_eq!(path, "webroot/index.html");
    let reply = finish_static(&req, &path, true);
    assert_eq!(reply.status, 200);
    assert!(matches!(&reply.body, ReplyBody::File(p) if p == "webroot/index.html"));
    assert_eq!(reply.access.status_code, 200);
    assert_eq!(reply.events, vec!["Served static file: webroot/index.html".to_string()]);
}

#[test]
fn scenario_markdown_index() {
    let content = Config::default().content;
    let probe = disk(PathKind::Directory, vec![false, true]);
    let target = content.resolve(&segs(&[]), &probe);
    let req = get("/");
    let path = match begin_request(&req, &content.index_files, &target) {
        NextStep::ReadMarkdown(p) => p,
        _ => panic!("expected a Markdown file to read"),
    };
    let reply = finish_markdown(&req, &path, Some("# Hello\nWorld"), &content.markdown_extensions);
    assert_eq!(reply.status, 200);
    assert_eq!(reply.access.status_code, 200);
    match &reply.body {
        ReplyBody::Html(h) => {
            assert!(h.contains("<title>Hello</title>"));
            assert!(h.contains("<p>World</p>"));
        }
        _ => panic!("expected a page"),
    }
    assert_eq!(reply.events, vec!["Served markdown file: webroot/index.md".to_string()]);
}

#[test]
fn scenario_directory_without_index() {
    let content = Config::default().content;
    let probe = disk(PathKind::Directory, vec![false, false]);
    let target = content.resolve(&segs(&["docs", ""]), &probe);
    let req = get("/docs/");
    match begin_request(&req, &content.index_files, &target) {
        NextStep::Respond(reply) => {
            assert_eq!(reply.status, 404);
            assert_eq!(reply.access.status_code, 404);
            match &reply.body {
                ReplyBody::Text(t) => assert_eq!(
                    t,
                    "No index file found in directory: webroot/docs. Looking for: [\"index.html\", \"index.md\"]"
                ),
                _ => panic!("expected a message"),
            }
        }
        _ => panic!("expected a reply"),
    }
}

#[test]
fn scenario_untitled_markdown() {
    let content = Config::default().content;
    let probe = disk(PathKind::File, vec![false, false]);
    let target = content.resolve(&segs(&["a.md"]), &probe);
    let req = get("/a.md");
    let path = match begin_request(&req, &content.index_files, &target) {
        NextStep::ReadMarkdown(p) => p,
        _ => panic!("expected a Markdown file to read"),
    };
    let reply = finish_markdown(&req, &path, Some("plain words"), &content.markdown_extensions);
    assert_eq!(reply.status, 200);
    assert!(matches!(&reply.body, ReplyBody::Html(h) if h.contains("<title>Untitled</title>")));
}

#[test]
fn scenario_missing_file() {
    let content = Config::default().content;
    let probe = disk(PathKind::Missing, vec![false, false]);
    let target = content.resolve(&segs(&["missing.txt"]), &probe);
    let req = get("/missing.txt");
    match begin_request(&req, &content.index_files, &target) {
        NextStep::Respond(reply) => {
            assert_eq!(reply.status, 404);
            assert_eq!(reply.access.status_code, 404);
            assert_eq!(reply.access.uri_path, "/missing.txt");
            assert!(matches!(&reply.body, ReplyBody::Text(t) if t == "File not found: webroot/missing.txt"));
            assert!(reply.events.is_empty());
        }
        _ => panic!("expected a reply"),
    }
}

#[test]
fn failures_reply_with_errors() {
    let req = RequestInfo {
        client_address: None,
        method: "GET".to_string(),
        uri_path: "/x".to_string(),
        user_agent: Some("curl/7.68.0".to_string()),
    };
    let reply = finish_static(&req, "webroot/x", false);
    assert_eq!(reply.status, 500);
    assert_eq!(reply.access.status_code, 500);
    assert_eq!(reply.access.client_address, "unknown");
    assert_eq!(reply.events, vec!["ERROR: Could not open file: webroot/x".to_string()]);
    let reply = finish_markdown(&req, "webroot/x.md", None, &vec![]);
    assert_eq!(reply.status, 404);
    assert_eq!(reply.access.status_code, 404);
    assert!(matches!(&reply.body, ReplyBody::Text(t) if t == "Could not read markdown file: webroot/x.md"));
    let target = ResolvedTarget::NotFound(NotFoundReason::Refused);
    match begin_request(&req, &vec![], &target) {
        NextStep::Respond(r) => {
            assert_eq!(r.status, 404);
            assert_eq!(r.access.status_code, 404);
        }
        _ => panic!("expected a reply"),
    }
}

#[test]
fn log_lines() {
    assert_eq!(event_line("2024-01-02 03:04:05 UTC", "Server shutting down"),
        "[2024-01-02 03:04:05 UTC] Server shutting down\n");
    let record = AccessRecord {
        client_address: "10.0.0.1".to_string(),
        method: "GET".to_string(),
        uri_path: "/api/data".to_string(),
        status_code: 500,
        user_agent: None,
    };
    assert_eq!(access_line("T", &record), "[T] 10.0.0.1 \"GET\" /api/data 500 \"-\"\n");
    let record = AccessRecord { user_agent: Some("Mozilla/5.0 (Chrome)".to_string()), status_code: 404, ..record };
    assert_eq!(access_line("T", &record), "[T] 10.0.0.1 \"GET\" /api/data 404 \"Mozilla/5.0 (Chrome)\"\n");
    assert_eq!(startup_message(8000, "webroot/"),
        "Server started on port 8000 serving files from webroot/");
}

#[test]
fn stamped_lines_carry_the_time() {
    let line = barleywine::logs::stamped_event_line("hello");
    assert!(line.starts_with('['));
    assert!(line.ends_with(" UTC] hello\n"));
    assert_eq!(line.len(), "[2024-01-02 03:04:05 UTC] hello\n".len());
    let record = AccessRecord {
        client_address: "127.0.0.1".to_string(),
        method: "GET".to_string(),
        uri_path: "/".to_string(),
        status_code: 200,
        user_agent: Some("Mozilla/5.0 (Test Browser)".to_string()),
    };
    let line = barleywine::logs::stamped_access_line(&record);
    assert!(line.ends_with(" UTC] 127.0.0.1 \"GET\" / 200 \"Mozilla/5.0 (Test Browser)\"\n"));
}

#[test]
fn hidden_files_are_refused() {
    let content = Config::default().content;
    let p = disk(PathKind::File, vec![false, false]);
    assert!(matches!(content.resolve(&segs(&[".env"]), &p),
        ResolvedTarget::NotFound(NotFoundReason::Refused)));
    assert!(matches!(content.resolve(&segs(&[".git", "config"]), &p),
        ResolvedTarget::NotFound(NotFoundReason::Refused)));
    assert!(matches!(content.resolve(&segs(&["a", ".", "b.txt"]), &p),
        ResolvedTarget::StaticFile(f) if f == "webroot/a/b.txt"));
}

#[test]
fn links_out_of_the_webroot_are_refused() {
    let content = Config::default().content;
    let mut p = disk(PathKind::File, vec![false, false]);
    p.within_webroot = false;
    assert!(matches!(content.resolve(&segs(&["link.txt"]), &p),
        ResolvedTarget::NotFound(NotFoundReason::Refused)));
    let mut p = disk(PathKind::Directory, vec![true, true]);
    p.index_within_webroot = vec![false, true];
    assert!(matches!(content.resolve(&segs(&[]), &p),
        ResolvedTarget::NotFound(NotFoundReason::Refused)));
    let mut p = disk(PathKind::Directory, vec![false, true]);
    p.index_within_webroot = vec![false, true];
    assert!(matches!(content.resolve(&segs(&[]), &p),
        ResolvedTarget::MarkdownDocument(f) if f == "webroot/index.md"));
}

#[test]
fn root_without_index() {
    let content = Config::default().content;
    let p = disk(PathKind::Directory, vec![false, false]);
    let target = content.resolve(&segs(&[]), &p);
    assert!(matches!(&target, ResolvedTarget::NotFound(NotFoundReason::NoRootIndex)));
    let req = get("/");
    match begin_request(&req, &content.index_files, &target) {
        NextStep::Respond(reply) => {
            assert_eq!(reply.status, 404);
            assert_eq!(reply.access.status_code, 404);
            assert_eq!(reply.access.uri_path, "/");
            assert!(matches!(&reply.body, ReplyBody::Text(t)
                if t == "No index file found. Looking for: [\"index.html\", \"index.md\"]"));
        }
        _ => panic!("expected a reply"),
    }
}

#[test]
fn index_names_are_listed_escaped() {
    let names = segs(&["we\"ird.html", "back\\slash.md"]);
    let target = ResolvedTarget::NotFound(NotFoundReason::NoRootIndex);
    match begin_request(&get("/"), &names, &target) {
        NextStep::Respond(reply) => assert!(matches!(&reply.body, ReplyBody::Text(t)
            if t == "No index file found. Looking for: [\"we\\\"ird.html\", \"back\\\\slash.md\"]")),
        _ => panic!("expected a reply"),
    }
    assert_eq!(
        not_found_text(&NotFoundReason::NoIndexFile("webroot/d".to_string()), "/d/", "[]"),
        "No index file found in directory: webroot/d. Looking for: []"
    );
    assert_eq!(not_found_text(&NotFoundReason::Refused, "/.env", "[]"), "Path not allowed: /.env");
}
