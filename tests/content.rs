use zero::content::{
    content_type, injected_reply, not_found, streamed_reply, wants_injection, Body,
    LIVE_RELOAD_SCRIPT,
};

#[test]
fn content_types_by_extension() {
    assert_eq!(content_type("pages/index.html"), "text/html");
    assert_eq!(content_type("static/a.css"), "text/css");
    assert_eq!(content_type("static/a.js"), "application/javascript");
    assert_eq!(content_type("static/a.png"), "image/png");
    assert_eq!(content_type("static/a.jpg"), "image/jpeg");
    assert_eq!(content_type("static/a.jpeg"), "image/jpeg");
    assert_eq!(content_type("static/a.gif"), "image/gif");
    assert_eq!(content_type("static/a.svg"), "image/svg+xml");
    assert_eq!(content_type("static/a.json"), "application/json");
    assert_eq!(content_type("static/a.wasm"), "application/wasm");
    assert_eq!(content_type("static/a.txt"), "application/octet-stream");
    assert_eq!(content_type("static/README"), "application/octet-stream");
    assert_eq!(content_type("static/a.HTML"), "application/octet-stream");
}

#[test]
fn only_html_in_live_mode_is_injected() {
    assert!(wants_injection("pages/index.html", true));
    assert!(!wants_injection("pages/index.html", false));
    assert!(!wants_injection("static/a.css", true));
    assert!(!wants_injection("static/a", true));
}

#[test]
fn html_page_gets_script_appended() {
    let page = "<html><body>hi</body></html>";
    let r = injected_reply(page);
    assert_eq!(r.status(), 200);
    assert_eq!(
        r.headers(),
        vec![("Content-Type".to_string(), "text/html".to_string())]
    );
    match r.body() {
        Body::Text(t) => {
            assert!(t.starts_with(page));
            assert!(t.ends_with(LIVE_RELOAD_SCRIPT));
            assert_eq!(t.len(), page.len() + LIVE_RELOAD_SCRIPT.len());
        }
        _ => panic!("expected a text body"),
    }
}

#[test]
fn empty_page_gets_only_script() {
    match injected_reply("").body() {
        Body::Text(t) => assert_eq!(t, LIVE_RELOAD_SCRIPT),
        _ => panic!("expected a text body"),
    }
}

#[test]
fn script_opens_reload_socket() {
    assert!(LIVE_RELOAD_SCRIPT.contains("/__live_reload"));
    assert!(LIVE_RELOAD_SCRIPT.contains("window.location.reload()"));
}

#[test]
fn missing_file_is_404() {
    let r = not_found();
    assert_eq!(r.status(), 404);
    assert!(r.headers().is_empty());
    match r.body() {
        Body::Text(t) => assert_eq!(t, "404 Not Found"),
        _ => panic!("expected a text body"),
    }
}

#[test]
fn other_files_are_streamed() {
    let r = streamed_reply("static/logo.png");
    assert_eq!(r.status(), 200);
    assert_eq!(
        r.headers(),
        vec![("Content-Type".to_string(), "image/png".to_string())]
    );
    assert!(matches!(r.body(), Body::File));
}
