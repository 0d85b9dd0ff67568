//! The web-search responder: a text body beginning with `.g ` triggers
//! an HTTP search for the rest of the body; the first result's title
//! and URL are extracted from the returned HTML and sent back, and each
//! failure renders as a distinct `Error: <description>` reply.
//!
//! The HTML extraction is pure and testable against a stored page; the
//! HTTP fetch itself is performed by the surrounding loop, which hands
//! the outcome back to [`GoogleSearchPlugin::handle_search_response`].
//!
//! Parsing and CSS selection are deterministic in their text inputs, so
//! a parsed document is modeled by the text it was parsed from, an
//! element by the chain of first-match selections that reached it, and
//! each selection step's result by an uninterpreted function of those
//! texts. The extraction chain is verified against those names, which
//! pins the whole outcome of a page down to the page text.

use vstd::prelude::*;

use crate::event::{
    is_fetch, Action, AudioMessageEventContent, EmoteMessageEventContent,
    FileMessageEventContent, ImageMessageEventContent, LocationMessageEventContent,
    NoticeMessageEventContent, OutboundMessage, ServerNoticeMessageEventContent,
    TextMessageEventContent, UserRef, VideoMessageEventContent,
};
use crate::plugin::Plugin;
use crate::Error;

verus! {

#[verifier::external_type_specification]
#[verifier::external_body]
pub struct ExHtml(scraper::Html);

#[verifier::external_type_specification]
#[verifier::external_body]
pub struct ExSelector(scraper::Selector);

#[verifier::external_type_specification]
#[verifier::external_body]
pub struct ExElementRef<'a>(scraper::ElementRef<'a>);

/// Whether scraper::Selector::parse accepts the text; it is
/// deterministic in the text alone.
pub uninterp spec fn sel_ok(css: Seq<char>) -> bool;

/// The text a compiled scraper::Selector was parsed from.
pub uninterp spec fn sel_text(s: scraper::Selector) -> Seq<char>;

/// The text a scraper::Html document was parsed from; parsing is
/// deterministic in that text.
pub uninterp spec fn doc_text(d: scraper::Html) -> Seq<char>;

/// The chain of texts that reached an element: the page text of its
/// document, followed by the selector texts of the first-match
/// selections applied in turn. Selection is deterministic, so the chain
/// determines the element.
pub uninterp spec fn elem_locator(e: scraper::ElementRef<'_>) -> Seq<Seq<char>>;

/// Whether the document parsed from `page` has an element matching the
/// selector parsed from `sel`.
pub uninterp spec fn first_in_doc(page: Seq<char>, sel: Seq<char>) -> bool;

/// Whether the element at `loc` has a descendant matching the selector
/// parsed from `sel`.
pub uninterp spec fn first_in_elem(loc: Seq<Seq<char>>, sel: Seq<char>) -> bool;

/// The concatenated text nodes of the element at `loc`.
pub uninterp spec fn text_of(loc: Seq<Seq<char>>) -> Seq<char>;

/// The value of the named attribute of the element at `loc`, if the
/// element carries it.
pub uninterp spec fn attr_of(loc: Seq<Seq<char>>, name: Seq<char>) -> Option<Seq<char>>;

/// What url::Url::parse followed by its display makes of a text: the
/// normalized rendering of an absolute URL, or the parse error's
/// description. Both depend on the input text alone.
pub uninterp spec fn url_normal_of(s: Seq<char>) -> Result<Seq<char>, Seq<char>>;

/// Relies on scraper::Selector::parse: a compiled selector exactly when
/// the text is a valid selector (named by [`sel_ok`]), carrying that
/// text (named by [`sel_text`]).
#[verifier::external_body]
fn parse_selector(css: &str) -> (r: Option<scraper::Selector>)
    ensures
        r is Some <==> sel_ok(css@),
        r matches Some(s) ==> sel_text(s) == css@,
{
    scraper::Selector::parse(css).ok()
}

/// Relies on scraper::Html::parse_document, which recovers from markup
/// errors and is deterministic in its input: the result is modeled by
/// that input text ([`doc_text`]).
#[verifier::external_body]
fn parse_document(body: &str) -> (r: scraper::Html)
    ensures
        doc_text(r) == body@,
{
    scraper::Html::parse_document(body)
}

/// Relies on scraper::Html::select: the first element of the document
/// matching the selector, in tree order, if any. Existence is named by
/// [`first_in_doc`]; the element's model is its selection chain.
#[verifier::external_body]
fn select_first<'a>(doc: &'a scraper::Html, sel: &scraper::Selector) -> (r: Option<
    scraper::ElementRef<'a>,
>)
    ensures
        r is Some <==> first_in_doc(doc_text(*doc), sel_text(*sel)),
        r matches Some(e) ==> elem_locator(e) == seq![doc_text(*doc), sel_text(*sel)],
{
    doc.select(sel).next()
}

/// Relies on scraper::ElementRef::select: the first descendant of the
/// element matching the selector, in tree order, if any. Existence is
/// named by [`first_in_elem`]; the descendant's model extends the
/// element's chain.
#[verifier::external_body]
fn select_first_in<'a>(el: &scraper::ElementRef<'a>, sel: &scraper::Selector) -> (r: Option<
    scraper::ElementRef<'a>,
>)
    ensures
        r is Some <==> first_in_elem(elem_locator(*el), sel_text(*sel)),
        r matches Some(e) ==> elem_locator(e) == elem_locator(*el).push(sel_text(*sel)),
{
    el.select(sel).next()
}

/// Relies on scraper::ElementRef::text: the concatenation of the
/// element's text nodes, in order, named by [`text_of`].
#[verifier::external_body]
fn element_text(el: &scraper::ElementRef<'_>) -> (r: String)
    ensures
        r@ == text_of(elem_locator(*el)),
{
    el.text().collect::<Vec<_>>().join("")
}

/// Relies on scraper::ElementRef::attr: the value of the named
/// attribute, when the element carries it, named by [`attr_of`].
#[verifier::external_body]
fn element_attr(el: &scraper::ElementRef<'_>, name: &str) -> (r: Option<String>)
    ensures
        match r {
            Some(v) => attr_of(elem_locator(*el), name@) == Some(v@),
            None => attr_of(elem_locator(*el), name@) is None,
        },
{
    el.attr(name).map(|v| v.to_owned())
}

/// Relies on url::Url::parse and the display of url::Url and
/// url::ParseError, named by [`url_normal_of`].
#[verifier::external_body]
fn normalize_url(s: &str) -> (r: Result<String, String>)
    ensures
        match r {
            Ok(u) => url_normal_of(s@) == Ok::<Seq<char>, Seq<char>>(u@),
            Err(d) => url_normal_of(s@) == Err::<Seq<char>, Seq<char>>(d@),
        },
{
    match url::Url::parse(s) {
        Ok(u) => Ok(u.to_string()),
        Err(e) => Err(e.to_string()),
    }
}

/// The selector text of a result entry's header link.
pub open spec fn header_link_css() -> Seq<char> {
    ".r > a"@
}

/// The selector text of the heading inside a header link.
pub open spec fn sub_header_css() -> Seq<char> {
    "h3"@
}

/// The selector text of the results container.
pub open spec fn search_body_css() -> Seq<char> {
    "div#search div#rso"@
}

/// The selector text of a result entry.
pub open spec fn search_result_css() -> Seq<char> {
    "div.g .rc"@
}

/// The model of the first results container of a page.
pub open spec fn container_loc(page: Seq<char>) -> Seq<Seq<char>> {
    seq![page, search_body_css()]
}

/// The model of the first result entry of that container.
pub open spec fn entry_loc(page: Seq<char>) -> Seq<Seq<char>> {
    container_loc(page).push(search_result_css())
}

/// The model of that entry's header link.
pub open spec fn link_loc(page: Seq<char>) -> Seq<Seq<char>> {
    entry_loc(page).push(header_link_css())
}

/// The model of the heading inside that header link.
pub open spec fn heading_loc(page: Seq<char>) -> Seq<Seq<char>> {
    link_loc(page).push(sub_header_css())
}

/// The page has a results container.
pub open spec fn page_has_container(page: Seq<char>) -> bool {
    first_in_doc(page, search_body_css())
}

/// The first results container holds a result entry.
pub open spec fn container_has_entry(page: Seq<char>) -> bool {
    first_in_elem(container_loc(page), search_result_css())
}

/// The first result entry holds a header link.
pub open spec fn entry_has_link(page: Seq<char>) -> bool {
    first_in_elem(entry_loc(page), header_link_css())
}

/// The header link holds a heading.
pub open spec fn link_has_heading(page: Seq<char>) -> bool {
    first_in_elem(link_loc(page), sub_header_css())
}

/// The header link's `href` attribute, if any.
pub open spec fn link_href(page: Seq<char>) -> Option<Seq<char>> {
    attr_of(link_loc(page), "href"@)
}

/// The first result's title: the heading's concatenated text.
pub open spec fn entry_title(page: Seq<char>) -> Seq<char> {
    text_of(heading_loc(page))
}

/// The part of a result entry that was expected and not found.
#[derive(Debug)]
pub enum MissingPart {
    /// The link element of the result header.
    HeaderLink,
    /// The heading element inside the header link.
    SubHeader,
    /// The `href` attribute of the header link.
    HrefAttr,
}

/// Every way a search can fail; each renders as its own description.
#[derive(Debug)]
pub enum GoogleSearchError {
    /// The page holds no results container.
    NoSearchBody,
    /// The results container holds no result entry.
    NoSearchResults,
    /// A result entry lacks an expected sub-element.
    MissingElement(MissingPart),
    /// The HTTP fetch failed or timed out.
    ReqwestError,
    /// A result's destination could not be parsed as a URL; carries the
    /// parse error's description.
    UrlParseError(String),
}

/// The description that [`GoogleSearchError::describe`] returns.
pub open spec fn spec_search_error_text(e: GoogleSearchError) -> Seq<char> {
    match e {
        GoogleSearchError::NoSearchBody => "could not extract search body"@,
        GoogleSearchError::NoSearchResults => "no search results"@,
        GoogleSearchError::MissingElement(_) => "missing expected element"@,
        GoogleSearchError::ReqwestError => "http client error"@,
        GoogleSearchError::UrlParseError(d) => "unable to parse result url: "@ + d@,
    }
}

impl GoogleSearchError {
    /// A short, user-readable description of the failure.
    pub fn describe(&self) -> (r: String)
        ensures
            r@ == spec_search_error_text(*self),
    {
        match self {
            GoogleSearchError::NoSearchBody => String::from_str("could not extract search body"),
            GoogleSearchError::NoSearchResults => String::from_str("no search results"),
            GoogleSearchError::MissingElement(_) => String::from_str("missing expected element"),
            GoogleSearchError::ReqwestError => String::from_str("http client error"),
            GoogleSearchError::UrlParseError(d) => {
                let r = String::from_str("unable to parse result url: ").concat(d.as_str());
                proof {
                    assert(r@ =~= "unable to parse result url: "@ + d@);
                }
                r
            },
        }
    }
}

/// One extracted search result.
#[derive(Debug, Clone)]
pub struct SearchResult {
    /// The result's title: the heading text of its header link.
    pub title: String,
    /// The result's destination, normalized.
    pub url: String,
}

/// What extracting from the entry at `loc` must yield, checked in
/// order: no header link, then no heading, then no `href`, then an
/// unparsable URL each give their own error; otherwise the heading's
/// text and the normalized URL.
pub open spec fn entry_outcome(
    loc: Seq<Seq<char>>,
    link_css: Seq<char>,
    heading_css: Seq<char>,
    r: Result<SearchResult, GoogleSearchError>,
) -> bool {
    if !first_in_elem(loc, link_css) {
        r == Err::<SearchResult, GoogleSearchError>(
            GoogleSearchError::MissingElement(MissingPart::HeaderLink),
        )
    } else if !first_in_elem(loc.push(link_css), heading_css) {
        r == Err::<SearchResult, GoogleSearchError>(
            GoogleSearchError::MissingElement(MissingPart::SubHeader),
        )
    } else {
        match attr_of(loc.push(link_css), "href"@) {
            None => r == Err::<SearchResult, GoogleSearchError>(
                GoogleSearchError::MissingElement(MissingPart::HrefAttr),
            ),
            Some(h) => match url_normal_of(h) {
                Ok(u) => r matches Ok(sr) && sr.title@ == text_of(
                    loc.push(link_css).push(heading_css),
                ) && sr.url@ == u,
                Err(d) => r matches Err(GoogleSearchError::UrlParseError(dd)) && dd@ == d,
            },
        }
    }
}

/// What parsing the page text must yield, checked in order: no results
/// container, then an empty container each give their own error;
/// otherwise the outcome of extracting from the container's first
/// entry.
pub open spec fn search_page_outcome(
    page: Seq<char>,
    r: Result<Option<SearchResult>, GoogleSearchError>,
) -> bool {
    if !page_has_container(page) {
        r == Err::<Option<SearchResult>, GoogleSearchError>(GoogleSearchError::NoSearchBody)
    } else if !container_has_entry(page) {
        r == Err::<Option<SearchResult>, GoogleSearchError>(GoogleSearchError::NoSearchResults)
    } else if !entry_has_link(page) {
        r == Err::<Option<SearchResult>, GoogleSearchError>(
            GoogleSearchError::MissingElement(MissingPart::HeaderLink),
        )
    } else if !link_has_heading(page) {
        r == Err::<Option<SearchResult>, GoogleSearchError>(
            GoogleSearchError::MissingElement(MissingPart::SubHeader),
        )
    } else {
        match link_href(page) {
            None => r == Err::<Option<SearchResult>, GoogleSearchError>(
                GoogleSearchError::MissingElement(MissingPart::HrefAttr),
            ),
            Some(h) => match url_normal_of(h) {
                Ok(u) => r matches Ok(Some(sr)) && sr.title@ == entry_title(page) && sr.url@
                    == u,
                Err(d) => r matches Err(GoogleSearchError::UrlParseError(dd)) && dd@ == d,
            },
        }
    }
}

/// The reply text a fetched page must draw: the composed reply of that
/// page's parse.
pub open spec fn page_reply_text(page: Seq<char>) -> Seq<char> {
    if !page_has_container(page) {
        "Error: "@ + "could not extract search body"@
    } else if !container_has_entry(page) {
        "Error: "@ + "no search results"@
    } else if !entry_has_link(page) || !link_has_heading(page) {
        "Error: "@ + "missing expected element"@
    } else {
        match link_href(page) {
            None => "Error: "@ + "missing expected element"@,
            Some(h) => match url_normal_of(h) {
                Ok(u) => entry_title(page) + " - "@ + u,
                Err(d) => "Error: "@ + ("unable to parse result url: "@ + d),
            },
        }
    }
}

impl SearchResult {
    /// The title and destination of one result entry: the heading text
    /// inside the entry's header link, and the link's `href` parsed as
    /// a URL. Each absent part yields its own error, in the order the
    /// outcome relation states.
    fn from_element(
        element: &scraper::ElementRef<'_>,
        header_link_selector: &scraper::Selector,
        sub_header_selector: &scraper::Selector,
    ) -> (r: Result<SearchResult, GoogleSearchError>)
        ensures
            entry_outcome(
                elem_locator(*element),
                sel_text(*header_link_selector),
                sel_text(*sub_header_selector),
                r,
            ),
    {
        let header_link = match select_first_in(element, header_link_selector) {
            Some(l) => l,
            None => {
                return Err(GoogleSearchError::MissingElement(MissingPart::HeaderLink));
            },
        };
        let heading = match select_first_in(&header_link, sub_header_selector) {
            Some(h) => h,
            None => {
                return Err(GoogleSearchError::MissingElement(MissingPart::SubHeader));
            },
        };
        let header_title = element_text(&heading);
        let header_link_href = match element_attr(&header_link, "href") {
            Some(h) => h,
            None => {
                return Err(GoogleSearchError::MissingElement(MissingPart::HrefAttr));
            },
        };
        match normalize_url(header_link_href.as_str()) {
            Ok(u) => Ok(SearchResult { title: header_title, url: u }),
            Err(d) => Err(GoogleSearchError::UrlParseError(d)),
        }
    }
}

/// How an HTTP fetch performed on the plugin's behalf went.
pub enum FetchOutcome {
    /// The response body.
    Fetched(String),
    /// The request failed or timed out.
    TransportFailed,
}

/// A text body triggers a search when it begins with `.g `.
pub open spec fn search_trigger(body: Seq<char>) -> bool {
    body.len() >= 3 && body[0] == '.' && body[1] == 'g' && body[2] == ' '
}

/// The query of a triggering body: everything after the prefix.
pub open spec fn search_query(body: Seq<char>) -> Seq<char> {
    body.subrange(3, body.len() as int)
}

/// What the search hook returns: one fetch of the query on a
/// triggering body, nothing otherwise.
pub open spec fn search_text_response(room: Seq<char>, body: Seq<char>, acts: Seq<Action>) -> bool {
    if search_trigger(body) {
        acts.len() == 1 && is_fetch(acts[0], room, search_query(body))
    } else {
        acts.len() == 0
    }
}

/// The reply body composed from a finished search.
pub open spec fn spec_search_reply(r: Result<Option<SearchResult>, GoogleSearchError>) -> Seq<
    char,
> {
    match r {
        Ok(o) => match o {
            Some(sr) => sr.title@ + " - "@ + sr.url@,
            None => "No results"@,
        },
        Err(e) => "Error: "@ + spec_search_error_text(e),
    }
}

/// `act` sends one reply to the room, its HTML rendering equal to its
/// plain body.
pub open spec fn search_reply_action(room: Seq<char>, act: Action) -> bool {
    &&& act matches Action::Send { room: rm, message: m }
    &&& rm@ == room
    &&& m.formatted matches Some(f) && f@ == m.body@
}

/// The composed reply of any result the page outcome admits is the
/// page's reply text.
proof fn lemma_outcome_reply(page: Seq<char>, r: Result<Option<SearchResult>, GoogleSearchError>)
    requires
        search_page_outcome(page, r),
    ensures
        spec_search_reply(r) == page_reply_text(page),
{
}

/// Page parsing is a function of the page text: any two results the
/// outcome relation admits for one page succeed together and render the
/// same reply.
pub proof fn lemma_parse_page_deterministic(
    page: Seq<char>,
    r1: Result<Option<SearchResult>, GoogleSearchError>,
    r2: Result<Option<SearchResult>, GoogleSearchError>,
)
    requires
        search_page_outcome(page, r1),
        search_page_outcome(page, r2),
    ensures
        r1 is Ok <==> r2 is Ok,
        spec_search_reply(r1) == spec_search_reply(r2),
{
    lemma_outcome_reply(page, r1);
    lemma_outcome_reply(page, r2);
}

/// The reply text for a finished search: `<title> - <url>` on success,
/// `No results` on an empty outcome, and `Error: <description>` on each
/// failure.
pub fn compose_search_reply(result: &Result<Option<SearchResult>, GoogleSearchError>) -> (r:
    String)
    ensures
        r@ == spec_search_reply(*result),
{
    match result {
        Ok(o) => match o {
            Some(sr) => {
                let s = sr.title.clone().concat(" - ").concat(sr.url.as_str());
                proof {
                    assert(s@ =~= sr.title@ + " - "@ + sr.url@);
                }
                s
            },
            None => String::from_str("No results"),
        },
        Err(e) => {
            let s = String::from_str("Error: ").concat(e.describe().as_str());
            proof {
                assert(s@ =~= "Error: "@ + spec_search_error_text(*e));
            }
            s
        },
    }
}

/// The endpoint and query parameters of one search request: the query
/// itself and the language hint.
pub fn search_request_parts(query: &str) -> (r: (String, Vec<(String, String)>))
    ensures
        r.0@ == "https://www.google.dk/search"@,
        r.1@.len() == 2,
        r.1@[0].0@ == "q"@ && r.1@[0].1@ == query@,
        r.1@[1].0@ == "hl"@ && r.1@[1].1@ == "en"@,
{
    let mut params: Vec<(String, String)> = Vec::new();
    params.push((String::from_str("q"), query.to_owned()));
    params.push((String::from_str("hl"), String::from_str("en")));
    (String::from_str("https://www.google.dk/search"), params)
}

/// The web-search responder. It owns its compiled selectors; the HTTP
/// client stays with the surrounding loop.
pub struct GoogleSearchPlugin {
    header_link_selector: scraper::Selector,
    sub_header_selector: scraper::Selector,
    search_body_selector: scraper::Selector,
    search_result_selector: scraper::Selector,
}

impl GoogleSearchPlugin {
    /// The compiled selectors carry exactly the plugin's fixed selector
    /// texts.
    #[verifier::type_invariant]
    spec fn wf(self) -> bool {
        &&& sel_text(self.header_link_selector) == header_link_css()
        &&& sel_text(self.sub_header_selector) == sub_header_css()
        &&& sel_text(self.search_body_selector) == search_body_css()
        &&& sel_text(self.search_result_selector) == search_result_css()
    }

    /// The first result of a search page: locate the results container,
    /// then the first result entry in it, and extract that entry's
    /// title and URL. Pure in the page text; the outcome relation fixes
    /// the result, error by error, and a fetch failure cannot arise
    /// here.
    pub fn parse_search_page(&self, body: &str) -> (r: Result<
        Option<SearchResult>,
        GoogleSearchError,
    >)
        ensures
            search_page_outcome(body@, r),
    {
        proof {
            use_type_invariant(&*self);
        }
        let document = parse_document(body);
        let search_body = match select_first(&document, &self.search_body_selector) {
            Some(b) => b,
            None => {
                return Err(GoogleSearchError::NoSearchBody);
            },
        };
        proof {
            assert(elem_locator(search_body) =~= container_loc(body@));
        }
        let result = match select_first_in(&search_body, &self.search_result_selector) {
            Some(x) => x,
            None => {
                return Err(GoogleSearchError::NoSearchResults);
            },
        };
        proof {
            assert(elem_locator(result) =~= entry_loc(body@));
        }
        match SearchResult::from_element(
            &result,
            &self.header_link_selector,
            &self.sub_header_selector,
        ) {
            Ok(sr) => Ok(Some(sr)),
            Err(e) => Err(e),
        }
    }

    /// The reply for one finished fetch: parse the page on success,
    /// treat a transport failure as the fetch error, and send the
    /// composed text (also as its own HTML rendering) to the room.
    pub fn handle_search_response(&self, room: &str, outcome: FetchOutcome) -> (r: Action)
        ensures
            search_reply_action(room@, r),
            outcome is TransportFailed ==> (r matches Action::Send { message: m, .. }
                && m.body@ == spec_search_reply(
                Err(GoogleSearchError::ReqwestError),
            )),
            outcome matches FetchOutcome::Fetched(b) ==> (r matches Action::Send {
                message: m,
                ..
            } && m.body@ == page_reply_text(b@)),
    {
        let result = match outcome {
            FetchOutcome::Fetched(body) => {
                let pr = self.parse_search_page(body.as_str());
                proof {
                    lemma_outcome_reply(body@, pr);
                }
                pr
            },
            FetchOutcome::TransportFailed => Err(GoogleSearchError::ReqwestError),
        };
        let text = compose_search_reply(&result);
        let message = OutboundMessage { body: text.clone(), formatted: Some(text) };
        Action::Send { room: room.to_owned(), message }
    }
}

impl Plugin for GoogleSearchPlugin {
    open spec fn text_response(
        &self,
        sender: UserRef,
        room: Seq<char>,
        body: Seq<char>,
        acts: Seq<Action>,
    ) -> bool {
        search_text_response(room, body, acts)
    }

    fn new() -> (r: Result<Self, Error>)
        ensures
            r is Ok <==> (sel_ok(header_link_css()) && sel_ok(sub_header_css()) && sel_ok(
                search_body_css(),
            ) && sel_ok(search_result_css())),
            r matches Err(e) ==> e is PluginInitError,
    {
        let header_link_selector = match parse_selector(".r > a") {
            Some(s) => s,
            None => {
                return Err(Error::PluginInitError(String::from_str("bad header link selector")));
            },
        };
        let sub_header_selector = match parse_selector("h3") {
            Some(s) => s,
            None => {
                return Err(Error::PluginInitError(String::from_str("bad sub header selector")));
            },
        };
        let search_body_selector = match parse_selector("div#search div#rso") {
            Some(s) => s,
            None => {
                return Err(Error::PluginInitError(String::from_str("bad search body selector")));
            },
        };
        let search_result_selector = match parse_selector("div.g .rc") {
            Some(s) => s,
            None => {
                return Err(
                    Error::PluginInitError(String::from_str("bad search result selector")),
                );
            },
        };
        Ok(
            GoogleSearchPlugin {
                header_link_selector,
                sub_header_selector,
                search_body_selector,
                search_result_selector,
            },
        )
    }

    fn name(&self) -> (r: String)
        ensures
            r@ == "GoogleSearchPlugin"@,
    {
        String::from_str("GoogleSearchPlugin")
    }

    fn on_room_text_message(
        &self,
        user: &UserRef,
        room: &str,
        message: &TextMessageEventContent,
    ) -> (r: Vec<Action>) {
        let s = message.body.as_str();
        let n = s.unicode_len();
        let mut r: Vec<Action> = Vec::new();
        if n >= 3 && s.get_char(0) == '.' && s.get_char(1) == 'g' && s.get_char(2) == ' ' {
            let query = s.substring_char(3, n).to_owned();
            r.push(Action::FetchSearch { room: room.to_owned(), query });
        }
        r
    }

    fn on_room_audio_message(
        &self,
        _user: &UserRef,
        _room: &str,
        _message: &AudioMessageEventContent,
    ) -> (r: Vec<Action>)
        ensures
            r@.len() == 0,
    {
        Vec::new()
    }

    fn on_room_emote_message(
        &self,
        _user: &UserRef,
        _room: &str,
        _message: &EmoteMessageEventContent,
    ) -> (r: Vec<Action>)
        ensures
            r@.len() == 0,
    {
        Vec::new()
    }

    fn on_room_file_message(
        &self,
        _user: &UserRef,
        _room: &str,
        _message: &FileMessageEventContent,
    ) -> (r: Vec<Action>)
        ensures
            r@.len() == 0,
    {
        Vec::new()
    }

    fn on_room_image_message(
        &self,
        _user: &UserRef,
        _room: &str,
        _message: &ImageMessageEventContent,
    ) -> (r: Vec<Action>)
        ensures
            r@.len() == 0,
    {
        Vec::new()
    }

    fn on_room_location_message(
        &self,
        _user: &UserRef,
        _room: &str,
        _message: &LocationMessageEventContent,
    ) -> (r: Vec<Action>)
        ensures
            r@.len() == 0,
    {
        Vec::new()
    }

    fn on_room_notice_message(
        &self,
        _user: &UserRef,
        _room: &str,
        _message: &NoticeMessageEventContent,
    ) -> (r: Vec<Action>)
        ensures
            r@.len() == 0,
    {
        Vec::new()
    }

    fn on_room_server_notice_message(
        &self,
        _user: &UserRef,
        _room: &str,
        _message: &ServerNoticeMessageEventContent,
    ) -> (r: Vec<Action>)
        ensures
            r@.len() == 0,
    {
        Vec::new()
    }

    fn on_room_video_message(
        &self,
        _user: &UserRef,
        _room: &str,
        _message: &VideoMessageEventContent,
    ) -> (r: Vec<Action>)
        ensures
            r@.len() == 0,
    {
        Vec::new()
    }
}

} // verus!
