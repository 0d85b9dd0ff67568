//! The data model of one inbound conversation event, the replies the
//! plugins produce, and the actions the dispatch loop hands back to the
//! transport.

use vstd::prelude::*;

use crate::textutil::{find_ci, spec_find_ci, str_chars};

verus! {

/// An opaque user identifier of the form `@localpart:server`.
pub struct UserRef {
    /// The full identifier string.
    pub id: String,
}

/// The characters of `id` between a leading `@` and the first `:`; the
/// whole remainder when no `:` follows.
pub open spec fn spec_localpart(id: Seq<char>) -> Seq<char> {
    let start: int = if id.len() > 0 && id[0] == '@' {
        1
    } else {
        0
    };
    match spec_find_ci(id, seq![':'], start) {
        Some(j) => id.subrange(start, j),
        None => id.subrange(start, id.len() as int),
    }
}

impl UserRef {
    /// The short, display-friendly part of the identifier.
    pub fn localpart(&self) -> (r: String)
        ensures
            r@ == spec_localpart(self.id@),
    {
        let s = self.id.as_str();
        let n = s.unicode_len();
        let start: usize = if n > 0 && s.get_char(0) == '@' {
            1
        } else {
            0
        };
        let chars = str_chars(s);
        proof {
            reveal_strlit(":");
            assert(":"@ =~= seq![':']);
        }
        let end = match find_ci(&chars, start, ":") {
            Some(j) => j,
            None => n,
        };
        s.substring_char(start, end).to_owned()
    }

    /// The full identifier.
    pub fn as_str(&self) -> (r: &str)
        ensures
            r@ == self.id@,
    {
        self.id.as_str()
    }
}

/// The payload of a plain text message.
pub struct TextMessageEventContent {
    /// The UTF-8 text body.
    pub body: String,
}

/// The payload of an audio message.
pub struct AudioMessageEventContent {
    /// A textual description of the clip.
    pub body: String,
    /// The content locator of the media, when one was given.
    pub url: Option<String>,
}

/// The payload of an emote message.
pub struct EmoteMessageEventContent {
    /// The emote text.
    pub body: String,
}

/// The payload of a file message.
pub struct FileMessageEventContent {
    /// The file name.
    pub body: String,
    /// The content locator of the file, when one was given.
    pub url: Option<String>,
}

/// The payload of an image message.
pub struct ImageMessageEventContent {
    /// A textual description of the image.
    pub body: String,
    /// The content locator of the media, when one was given.
    pub url: Option<String>,
}

/// The payload of a location message.
pub struct LocationMessageEventContent {
    /// A textual description of the location.
    pub body: String,
    /// The geographic coordinates.
    pub geo_uri: String,
}

/// The payload of a notice message.
pub struct NoticeMessageEventContent {
    /// The notice text.
    pub body: String,
}

/// The payload of a server notice.
pub struct ServerNoticeMessageEventContent {
    /// The notice text.
    pub body: String,
}

/// The payload of a video message.
pub struct VideoMessageEventContent {
    /// A textual description of the clip.
    pub body: String,
    /// The content locator of the media, when one was given.
    pub url: Option<String>,
}

/// The content of one inbound message, tagged by kind. Each variant
/// carries exactly the payload of its kind.
pub enum MessageEventContent {
    Audio(AudioMessageEventContent),
    Emote(EmoteMessageEventContent),
    File(FileMessageEventContent),
    Image(ImageMessageEventContent),
    Location(LocationMessageEventContent),
    Notice(NoticeMessageEventContent),
    ServerNotice(ServerNoticeMessageEventContent),
    Text(TextMessageEventContent),
    Video(VideoMessageEventContent),
    Other,
}

/// One received conversation message: who sent it, in which room, and
/// its typed content.
pub struct InboundEvent {
    /// The sender's identifier.
    pub sender: UserRef,
    /// The room identifier.
    pub room: String,
    /// The typed payload.
    pub content: MessageEventContent,
}

/// A reply to be sent to a conversation: a plain-text body plus an
/// optional HTML rendering.
pub struct OutboundMessage {
    /// The plain-text body.
    pub body: String,
    /// The HTML rendering, when the plugin supplies one.
    pub formatted: Option<String>,
}

/// What a plugin asks the surrounding loop to do. Sends go straight to
/// the transport; a search fetch comes back to the plugin as a
/// [`crate::google_search::FetchOutcome`].
pub enum Action {
    /// Send a reply to the given room.
    Send { room: String, message: OutboundMessage },
    /// Perform a web search for the given query, on behalf of the room.
    FetchSearch { room: String, query: String },
}

/// `act` is a send of exactly this plain body and HTML rendering to
/// this room.
pub open spec fn is_send(act: Action, room: Seq<char>, body: Seq<char>, formatted: Seq<char>) -> bool {
    &&& act matches Action::Send { room: r, message: m }
    &&& r@ == room
    &&& m.body@ == body
    &&& m.formatted matches Some(f) && f@ == formatted
}

/// `act` is a search fetch of exactly this query on behalf of this room.
pub open spec fn is_fetch(act: Action, room: Seq<char>, query: Seq<char>) -> bool {
    &&& act matches Action::FetchSearch { room: r, query: q }
    &&& r@ == room
    &&& q@ == query
}

} // verus!
