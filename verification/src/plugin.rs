//! The plugin capability contract and the registry that owns the
//! instantiated plugins in dispatch order.

use vstd::prelude::*;

use crate::choices::ChoicesPlugin;
use crate::event::{
    Action, AudioMessageEventContent, EmoteMessageEventContent, FileMessageEventContent,
    ImageMessageEventContent, LocationMessageEventContent, NoticeMessageEventContent,
    ServerNoticeMessageEventContent, TextMessageEventContent, UserRef,
    VideoMessageEventContent,
};
use crate::google_search::GoogleSearchPlugin;
use crate::Error;

verus! {

/// The capability set every plugin implements: a stable name, a
/// fallible constructor, and one hook per content kind. Every hook but
/// the text hook defaults to doing nothing, so a plugin implements only
/// the hooks it cares about. Hooks never fail: internal errors are
/// turned into reply actions or dropped inside the hook.
pub trait Plugin: Sized {
    /// The relation the text hook's result satisfies: what this plugin
    /// may answer to a text body.
    spec fn text_response(
        &self,
        sender: UserRef,
        room: Seq<char>,
        body: Seq<char>,
        acts: Seq<Action>,
    ) -> bool;

    /// Fallible constructor. A failure is non-fatal: the registry logs
    /// and skips the plugin.
    fn new() -> Result<Self, Error>;

    /// Stable, human-readable identifier used in logs; independent of
    /// instance state.
    fn name(&self) -> (r: String);

    /// Called when a text message is received in a room.
    fn on_room_text_message(
        &self,
        user: &UserRef,
        room: &str,
        message: &TextMessageEventContent,
    ) -> (r: Vec<Action>)
        ensures
            self.text_response(*user, room@, message.body@, r@),
    ;

    /// Called when an audio message is received in a room.
    fn on_room_audio_message(
        &self,
        _user: &UserRef,
        _room: &str,
        _message: &AudioMessageEventContent,
    ) -> (r: Vec<Action>) {
        Vec::new()
    }

    /// Called when an emote message is received in a room.
    fn on_room_emote_message(
        &self,
        _user: &UserRef,
        _room: &str,
        _message: &EmoteMessageEventContent,
    ) -> (r: Vec<Action>) {
        Vec::new()
    }

    /// Called when a file message is received in a room.
    fn on_room_file_message(
        &self,
        _user: &UserRef,
        _room: &str,
        _message: &FileMessageEventContent,
    ) -> (r: Vec<Action>) {
        Vec::new()
    }

    /// Called when an image message is received in a room.
    fn on_room_image_message(
        &self,
        _user: &UserRef,
        _room: &str,
        _message: &ImageMessageEventContent,
    ) -> (r: Vec<Action>) {
        Vec::new()
    }

    /// Called when a location message is received in a room.
    fn on_room_location_message(
        &self,
        _user: &UserRef,
        _room: &str,
        _message: &LocationMessageEventContent,
    ) -> (r: Vec<Action>) {
        Vec::new()
    }

    /// Called when a notice message is received in a room.
    fn on_room_notice_message(
        &self,
        _user: &UserRef,
        _room: &str,
        _message: &NoticeMessageEventContent,
    ) -> (r: Vec<Action>) {
        Vec::new()
    }

    /// Called when a server notice is received in a room.
    fn on_room_server_notice_message(
        &self,
        _user: &UserRef,
        _room: &str,
        _message: &ServerNoticeMessageEventContent,
    ) -> (r: Vec<Action>) {
        Vec::new()
    }

    /// Called when a video message is received in a room.
    fn on_room_video_message(
        &self,
        _user: &UserRef,
        _room: &str,
        _message: &VideoMessageEventContent,
    ) -> (r: Vec<Action>) {
        Vec::new()
    }
}

/// The closed union of the plugins this bot registers. The registry
/// stores these; dispatch resolves each to its concrete hooks.
pub enum RegisteredPlugin {
    Choices(ChoicesPlugin),
    GoogleSearch(GoogleSearchPlugin),
}

impl RegisteredPlugin {
    /// What the underlying plugin may answer to a text body.
    pub open spec fn text_response(
        &self,
        sender: UserRef,
        room: Seq<char>,
        body: Seq<char>,
        acts: Seq<Action>,
    ) -> bool {
        match self {
            RegisteredPlugin::Choices(p) => p.text_response(sender, room, body, acts),
            RegisteredPlugin::GoogleSearch(p) => p.text_response(sender, room, body, acts),
        }
    }

    /// The fixed name of the underlying plugin.
    pub open spec fn spec_name(&self) -> Seq<char> {
        match self {
            RegisteredPlugin::Choices(_) => "ChoicesPlugin"@,
            RegisteredPlugin::GoogleSearch(_) => "GoogleSearchPlugin"@,
        }
    }

    /// The underlying plugin's name.
    pub fn name(&self) -> (r: String)
        ensures
            r@ == self.spec_name(),
    {
        match self {
            RegisteredPlugin::Choices(p) => p.name(),
            RegisteredPlugin::GoogleSearch(p) => p.name(),
        }
    }

    /// The underlying plugin's text hook.
    pub fn on_room_text_message(
        &self,
        user: &UserRef,
        room: &str,
        message: &TextMessageEventContent,
    ) -> (r: Vec<Action>)
        ensures
            self.text_response(*user, room@, message.body@, r@),
    {
        match self {
            RegisteredPlugin::Choices(p) => p.on_room_text_message(user, room, message),
            RegisteredPlugin::GoogleSearch(p) => p.on_room_text_message(user, room, message),
        }
    }

    /// The underlying plugin's audio hook.
    pub fn on_room_audio_message(
        &self,
        user: &UserRef,
        room: &str,
        message: &AudioMessageEventContent,
    ) -> (r: Vec<Action>)
        ensures
            r@.len() == 0,
    {
        match self {
            RegisteredPlugin::Choices(p) => p.on_room_audio_message(user, room, message),
            RegisteredPlugin::GoogleSearch(p) => p.on_room_audio_message(user, room, message),
        }
    }

    /// The underlying plugin's emote hook.
    pub fn on_room_emote_message(
        &self,
        user: &UserRef,
        room: &str,
        message: &EmoteMessageEventContent,
    ) -> (r: Vec<Action>)
        ensures
            r@.len() == 0,
    {
        match self {
            RegisteredPlugin::Choices(p) => p.on_room_emote_message(user, room, message),
            RegisteredPlugin::GoogleSearch(p) => p.on_room_emote_message(user, room, message),
        }
    }

    /// The underlying plugin's file hook.
    pub fn on_room_file_message(
        &self,
        user: &UserRef,
        room: &str,
        message: &FileMessageEventContent,
    ) -> (r: Vec<Action>)
        ensures
            r@.len() == 0,
    {
        match self {
            RegisteredPlugin::Choices(p) => p.on_room_file_message(user, room, message),
            RegisteredPlugin::GoogleSearch(p) => p.on_room_file_message(user, room, message),
        }
    }

    /// The underlying plugin's image hook.
    pub fn on_room_image_message(
        &self,
        user: &UserRef,
        room: &str,
        message: &ImageMessageEventContent,
    ) -> (r: Vec<Action>)
        ensures
            r@.len() == 0,
    {
        match self {
            RegisteredPlugin::Choices(p) => p.on_room_image_message(user, room, message),
            RegisteredPlugin::GoogleSearch(p) => p.on_room_image_message(user, room, message),
        }
    }

    /// The underlying plugin's location hook.
    pub fn on_room_location_message(
        &self,
        user: &UserRef,
        room: &str,
        message: &LocationMessageEventContent,
    ) -> (r: Vec<Action>)
        ensures
            r@.len() == 0,
    {
        match self {
            RegisteredPlugin::Choices(p) => p.on_room_location_message(user, room, message),
            RegisteredPlugin::GoogleSearch(p) => p.on_room_location_message(user, room, message),
        }
    }

    /// The underlying plugin's notice hook.
    pub fn on_room_notice_message(
        &self,
        user: &UserRef,
        room: &str,
        message: &NoticeMessageEventContent,
    ) -> (r: Vec<Action>)
        ensures
            r@.len() == 0,
    {
        match self {
            RegisteredPlugin::Choices(p) => p.on_room_notice_message(user, room, message),
            RegisteredPlugin::GoogleSearch(p) => p.on_room_notice_message(user, room, message),
        }
    }

    /// The underlying plugin's server-notice hook.
    pub fn on_room_server_notice_message(
        &self,
        user: &UserRef,
        room: &str,
        message: &ServerNoticeMessageEventContent,
    ) -> (r: Vec<Action>)
        ensures
            r@.len() == 0,
    {
        match self {
            RegisteredPlugin::Choices(p) => p.on_room_server_notice_message(user, room, message),
            RegisteredPlugin::GoogleSearch(p) => p.on_room_server_notice_message(
                user,
                room,
                message,
            ),
        }
    }

    /// The underlying plugin's video hook.
    pub fn on_room_video_message(
        &self,
        user: &UserRef,
        room: &str,
        message: &VideoMessageEventContent,
    ) -> (r: Vec<Action>)
        ensures
            r@.len() == 0,
    {
        match self {
            RegisteredPlugin::Choices(p) => p.on_room_video_message(user, room, message),
            RegisteredPlugin::GoogleSearch(p) => p.on_room_video_message(user, room, message),
        }
    }
}

/// The ordered, append-only collection of instantiated plugins.
/// Registration order is dispatch order.
pub struct PluginRegistry {
    plugins: Vec<RegisteredPlugin>,
}

impl View for PluginRegistry {
    type V = Seq<RegisteredPlugin>;

    closed spec fn view(&self) -> Seq<RegisteredPlugin> {
        self.plugins@
    }
}

impl PluginRegistry {
    /// Constructs and returns a new, empty plugin registry.
    pub fn new() -> (r: PluginRegistry)
        ensures
            r@ == Seq::<RegisteredPlugin>::empty(),
    {
        PluginRegistry { plugins: Vec::new() }
    }

    /// Appends a constructed plugin to the registry. A failed
    /// construction is skipped and never aborts startup: the registry
    /// is left as it was.
    pub fn register(&mut self, plugin: Result<RegisteredPlugin, Error>)
        ensures
            match plugin {
                Ok(p) => final(self)@ == old(self)@.push(p),
                Err(_) => final(self)@ == old(self)@,
            },
    {
        match plugin {
            Ok(p) => {
                self.plugins.push(p);
            },
            Err(_err) => {
                // a failed constructor is skipped; startup goes on
            },
        }
    }

    /// Read-only, stable-order access to the registered plugins.
    pub fn plugins(&self) -> (r: &Vec<RegisteredPlugin>)
        ensures
            r@ == self@,
    {
        &self.plugins
    }
}

} // verus!
