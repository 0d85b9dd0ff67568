use meta_matrix::event::{Action, TextMessageEventContent, UserRef};
use meta_matrix::google_search::{
    compose_search_reply, search_request_parts, FetchOutcome, GoogleSearchError,
    GoogleSearchPlugin,
};
use meta_matrix::plugin::Plugin;

fn fixture_page() -> String {
    [
        "<html><body><div id=\"search\"><div id=\"rso\">",
        "<div class=\"g\"><div class=\"rc\">",
        "<div class=\"r\"><a href=\"https://www.rust-lang.org/\">",
        "<h3>Rust Programming Language</h3></a></div>",
        "<div class=\"s\">A language empowering everyone.</div>",
        "</div></div>",
        "</div></div></body></html>",
    ]
    .concat()
}

fn page_without_container() -> String {
    "<html><body><div id=\"other\"><p>nothing here</p></div></body></html>".to_owned()
}

fn page_with_empty_container() -> String {
    "<html><body><div id=\"search\"><div id=\"rso\"></div></div></body></html>".to_owned()
}

fn page_with_bad_href() -> String {
    [
        "<html><body><div id=\"search\"><div id=\"rso\">",
        "<div class=\"g\"><div class=\"rc\">",
        "<div class=\"r\"><a href=\"/relative/only\">",
        "<h3>Title</h3></a></div>",
        "</div></div>",
        "</div></div></body></html>",
    ]
    .concat()
}

#[test]
fn test_search() {
    let plugin = GoogleSearchPlugin::new().unwrap();
    assert!(plugin.parse_search_page(&fixture_page()).is_ok());
}

#[test]
fn parse_extracts_title_and_url() {
    let plugin = GoogleSearchPlugin::new().unwrap();
    let result = plugin.parse_search_page(&fixture_page()).unwrap().unwrap();
    assert_eq!(result.title, "Rust Programming Language");
    assert_eq!(result.url, "https://www.rust-lang.org/");
}

#[test]
fn parse_reports_missing_container() {
    let plugin = GoogleSearchPlugin::new().unwrap();
    let err = plugin.parse_search_page(&page_without_container()).unwrap_err();
    assert!(matches!(err, GoogleSearchError::NoSearchBody));
    assert_eq!(err.describe(), "could not extract search body");
}

#[test]
fn parse_reports_empty_container() {
    let plugin = GoogleSearchPlugin::new().unwrap();
    let err = plugin.parse_search_page(&page_with_empty_container()).unwrap_err();
    assert!(matches!(err, GoogleSearchError::NoSearchResults));
    assert_eq!(err.describe(), "no search results");
}

#[test]
fn parse_reports_unparsable_url() {
    let plugin = GoogleSearchPlugin::new().unwrap();
    let err = plugin.parse_search_page(&page_with_bad_href()).unwrap_err();
    assert!(matches!(err, GoogleSearchError::UrlParseError(_)));
    assert!(err.describe().starts_with("unable to parse result url: "));
}

#[test]
fn reply_texts_per_outcome() {
    let ok = Ok(Some(meta_matrix::google_search::SearchResult {
        title: "Rust Programming Language".to_owned(),
        url: "https://www.rust-lang.org/".to_owned(),
    }));
    assert_eq!(
        compose_search_reply(&ok),
        "Rust Programming Language - https://www.rust-lang.org/"
    );
    assert_eq!(compose_search_reply(&Ok(None)), "No results");
    assert_eq!(
        compose_search_reply(&Err(GoogleSearchError::ReqwestError)),
        "Error: http client error"
    );
}

#[test]
fn search_hook_emits_fetch() {
    let plugin = GoogleSearchPlugin::new().unwrap();
    let u = UserRef { id: "@alice:example.org".to_owned() };
    let msg = TextMessageEventContent { body: ".g rust programming".to_owned() };
    let acts = plugin.on_room_text_message(&u, "!room:example.org", &msg);
    assert_eq!(acts.len(), 1);
    match &acts[0] {
        Action::FetchSearch { room, query } => {
            assert_eq!(room, "!room:example.org");
            assert_eq!(query, "rust programming");
        }
        _ => panic!("expected a fetch"),
    }
}

#[test]
fn search_hook_ignores_other_text() {
    let plugin = GoogleSearchPlugin::new().unwrap();
    let u = UserRef { id: "@alice:example.org".to_owned() };
    let msg = TextMessageEventContent { body: "g rust".to_owned() };
    assert!(plugin.on_room_text_message(&u, "!room:example.org", &msg).is_empty());
}

#[test]
fn fetched_page_becomes_reply() {
    let plugin = GoogleSearchPlugin::new().unwrap();
    let act = plugin.handle_search_response(
        "!room:example.org",
        FetchOutcome::Fetched(fixture_page()),
    );
    match act {
        Action::Send { room, message } => {
            assert_eq!(room, "!room:example.org");
            assert_eq!(message.body, "Rust Programming Language - https://www.rust-lang.org/");
            assert_eq!(message.formatted.as_deref(), Some(message.body.as_str()));
        }
        _ => panic!("expected a send"),
    }
}

#[test]
fn transport_failure_becomes_error_reply() {
    let plugin = GoogleSearchPlugin::new().unwrap();
    let act = plugin.handle_search_response("!room:example.org", FetchOutcome::TransportFailed);
    match act {
        Action::Send { message, .. } => {
            assert_eq!(message.body, "Error: http client error");
        }
        _ => panic!("expected a send"),
    }
}

#[test]
fn request_carries_query_and_language_hint() {
    let (endpoint, params) = search_request_parts("rust programming");
    assert_eq!(endpoint, "https://www.google.dk/search");
    assert_eq!(
        params,
        vec![
            ("q".to_owned(), "rust programming".to_owned()),
            ("hl".to_owned(), "en".to_owned()),
        ]
    );
}
