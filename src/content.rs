//! What the server answers: the content type of a file, the page script that
//! turns on live reload, and the replies themselves as plain values.

use vstd::prelude::*;
use crate::routing::{extension, extension_of};
use crate::text::same_text;

verus! {

/// Appended to every HTML page in live-reload mode: it opens the reload
/// WebSocket, reloads the page on any message, and reloads after a pause when
/// the connection closes.
pub const LIVE_RELOAD_SCRIPT: &'static str = r#"
<script>
(function() {
    const ws = new WebSocket('ws://' + window.location.host + '/__live_reload');
    ws.onmessage = () => { console.log('reloading');
        window.location.reload();
    };
    ws.onclose = () => {
        console.log('disconnected');
        setTimeout(() => window.location.reload(), 1000);
    };
})();
</script>
"#;

/// The content type of HTML documents, the only ones that get the script.
pub const HTML_TYPE: &'static str = "text/html";

/// The body of every not-found reply.
pub const NOT_FOUND_TEXT: &'static str = "404 Not Found";

/// The content type announced for a file with extension `ext`.
pub open spec fn content_type_for(ext: Option<Seq<char>>) -> Seq<char> {
    match ext {
        None => "application/octet-stream"@,
        Some(e) => if e == "html"@ {
            HTML_TYPE@
        } else if e == "css"@ {
            "text/css"@
        } else if e == "js"@ {
            "application/javascript"@
        } else if e == "png"@ {
            "image/png"@
        } else if e == "jpg"@ || e == "jpeg"@ {
            "image/jpeg"@
        } else if e == "gif"@ {
            "image/gif"@
        } else if e == "svg"@ {
            "image/svg+xml"@
        } else if e == "json"@ {
            "application/json"@
        } else if e == "wasm"@ {
            "application/wasm"@
        } else {
            "application/octet-stream"@
        },
    }
}

/// The content type of the file at `path`, from its extension.
pub fn content_type(path: &str) -> (r: &'static str)
    ensures
        r@ == content_type_for(extension(path@)),
{
    match extension_of(path) {
        None => "application/octet-stream",
        Some(e) => {
            if same_text(e, "html") {
                HTML_TYPE
            } else if same_text(e, "css") {
                "text/css"
            } else if same_text(e, "js") {
                "application/javascript"
            } else if same_text(e, "png") {
                "image/png"
            } else if same_text(e, "jpg") || same_text(e, "jpeg") {
                "image/jpeg"
            } else if same_text(e, "gif") {
                "image/gif"
            } else if same_text(e, "svg") {
                "image/svg+xml"
            } else if same_text(e, "json") {
                "application/json"
            } else if same_text(e, "wasm") {
                "application/wasm"
            } else {
                "application/octet-stream"
            }
        },
    }
}

/// Whether the file at `path` is served with the script appended, when
/// `inject` says that live reload is on.
pub open spec fn injects(path: Seq<char>, inject: bool) -> bool {
    inject && content_type_for(extension(path)) == HTML_TYPE@
}

/// Whether the file at `path` is read whole and served with the script
/// appended, rather than streamed.
pub fn wants_injection(path: &str, inject: bool) -> (r: bool)
    ensures
        r == injects(path@, inject),
{
    inject && same_text(content_type(path), HTML_TYPE)
}

/// A body as the contracts see it.
pub enum BodyView {
    Empty,
    Text(Seq<char>),
    /// The file's bytes, streamed as they are.
    File,
}

/// A reply as the contracts see it.
pub enum ReplyView {
    SwitchingProtocols { accept: Seq<char> },
    Injected { text: Seq<char> },
    Streamed { content_type: Seq<char> },
    NotFound,
}

/// A reply, before it is written out on the connection.
pub enum Reply {
    /// 101: the connection becomes a reload session.
    SwitchingProtocols { accept: String },
    /// 200: an HTML page, read whole, with the script appended.
    Injected { text: String },
    /// 200: a file streamed as it is, with its content type.
    Streamed { content_type: &'static str },
    /// 404.
    NotFound,
}

impl View for Reply {
    type V = ReplyView;

    open spec fn view(&self) -> ReplyView {
        match self {
            Reply::SwitchingProtocols { accept } => ReplyView::SwitchingProtocols { accept: accept@ },
            Reply::Injected { text } => ReplyView::Injected { text: text@ },
            Reply::Streamed { content_type } => ReplyView::Streamed { content_type: content_type@ },
            Reply::NotFound => ReplyView::NotFound,
        }
    }
}

/// The status code of a reply.
pub open spec fn status_of(r: ReplyView) -> u16 {
    match r {
        ReplyView::SwitchingProtocols { .. } => 101,
        ReplyView::Injected { .. } => 200,
        ReplyView::Streamed { .. } => 200,
        ReplyView::NotFound => 404,
    }
}

/// The headers of a reply, names and values, in order.
pub open spec fn headers_of(r: ReplyView) -> Seq<(Seq<char>, Seq<char>)> {
    match r {
        ReplyView::SwitchingProtocols { accept } => seq![
            ("Upgrade"@, "websocket"@),
            ("Connection"@, "Upgrade"@),
            ("Sec-WebSocket-Accept"@, accept),
        ],
        ReplyView::Injected { .. } => seq![("Content-Type"@, HTML_TYPE@)],
        ReplyView::Streamed { content_type } => seq![("Content-Type"@, content_type)],
        ReplyView::NotFound => seq![],
    }
}

/// The body of a reply.
pub open spec fn body_of(r: ReplyView) -> BodyView {
    match r {
        ReplyView::SwitchingProtocols { .. } => BodyView::Empty,
        ReplyView::Injected { text } => BodyView::Text(text),
        ReplyView::Streamed { .. } => BodyView::File,
        ReplyView::NotFound => BodyView::Text(NOT_FOUND_TEXT@),
    }
}

/// The view of a list of headers.
pub open spec fn headers_view(h: Seq<(String, String)>) -> Seq<(Seq<char>, Seq<char>)> {
    h.map_values(|p: (String, String)| (p.0@, p.1@))
}

/// A body, ready to be written out; `File` stands for the file's stream.
pub enum Body {
    Empty,
    Text(String),
    File,
}

impl View for Body {
    type V = BodyView;

    open spec fn view(&self) -> BodyView {
        match self {
            Body::Empty => BodyView::Empty,
            Body::Text(t) => BodyView::Text(t@),
            Body::File => BodyView::File,
        }
    }
}

fn header(name: &str, value: &str) -> (r: (String, String))
    ensures
        r.0@ == name@,
        r.1@ == value@,
{
    (name.to_owned(), value.to_owned())
}

impl Reply {
    /// The status code.
    pub fn status(&self) -> (r: u16)
        ensures
            r == status_of(self@),
    {
        match self {
            Reply::SwitchingProtocols { .. } => 101,
            Reply::Injected { .. } => 200,
            Reply::Streamed { .. } => 200,
            Reply::NotFound => 404,
        }
    }

    /// The headers, in the order in which they are sent.
    pub fn headers(&self) -> (r: Vec<(String, String)>)
        ensures
            headers_view(r@) == headers_of(self@),
    {
        let mut r: Vec<(String, String)> = Vec::new();
        match self {
            Reply::SwitchingProtocols { accept } => {
                r.push(header("Upgrade", "websocket"));
                r.push(header("Connection", "Upgrade"));
                r.push(header("Sec-WebSocket-Accept", accept.as_str()));
            },
            Reply::Injected { .. } => {
                r.push(header("Content-Type", HTML_TYPE));
            },
            Reply::Streamed { content_type } => {
                r.push(header("Content-Type", content_type));
            },
            Reply::NotFound => {},
        }
        assert(headers_view(r@) =~= headers_of(self@));
        r
    }

    /// The body.
    pub fn body(&self) -> (r: Body)
        ensures
            r@ == body_of(self@),
    {
        match self {
            Reply::SwitchingProtocols { .. } => Body::Empty,
            Reply::Injected { text } => Body::Text(text.clone()),
            Reply::Streamed { .. } => Body::File,
            Reply::NotFound => Body::Text(NOT_FOUND_TEXT.to_owned()),
        }
    }
}

/// The reply to a request for a file that cannot be found or opened.
pub fn not_found() -> (r: Reply)
    ensures
        r@ == ReplyView::NotFound,
{
    Reply::NotFound
}

/// The reply that serves an HTML page read whole: its text with the script
/// appended at the end.
pub fn injected_reply(contents: &str) -> (r: Reply)
    ensures
        r@ == (ReplyView::Injected { text: contents@ + LIVE_RELOAD_SCRIPT@ }),
{
    let mut text = contents.to_owned();
    text.append(LIVE_RELOAD_SCRIPT);
    Reply::Injected { text }
}

/// The reply that streams the file at `path` as it is.
pub fn streamed_reply(path: &str) -> (r: Reply)
    ensures
        r@ == (ReplyView::Streamed { content_type: content_type_for(extension(path@)) }),
{
    Reply::Streamed { content_type: content_type(path) }
}

/// In live-reload mode an HTML file is served read whole: its reply carries
/// the file's text unchanged, followed by the script exactly as it stands.
/// Out of live-reload mode nothing is injected.
pub proof fn lemma_html_page_gets_script(path: Seq<char>, contents: Seq<char>)
    requires
        extension(path) == Some("html"@),
    ensures
        injects(path, true),
        !injects(path, false),
        body_of(ReplyView::Injected { text: contents + LIVE_RELOAD_SCRIPT@ }) == BodyView::Text(
            contents + LIVE_RELOAD_SCRIPT@,
        ),
        (contents + LIVE_RELOAD_SCRIPT@).subrange(0, contents.len() as int) == contents,
        (contents + LIVE_RELOAD_SCRIPT@).subrange(
            contents.len() as int,
            (contents.len() + LIVE_RELOAD_SCRIPT@.len()) as int,
        ) == LIVE_RELOAD_SCRIPT@,
{
    assert((contents + LIVE_RELOAD_SCRIPT@).subrange(0, contents.len() as int) =~= contents);
    assert((contents + LIVE_RELOAD_SCRIPT@).subrange(
        contents.len() as int,
        (contents.len() + LIVE_RELOAD_SCRIPT@.len()) as int,
    ) =~= LIVE_RELOAD_SCRIPT@);
}

} // verus!
