use meta_matrix::choices::ChoicesPlugin;
use meta_matrix::client::PluginEventDispatcher;
use meta_matrix::event::{
    Action, AudioMessageEventContent, EmoteMessageEventContent, InboundEvent,
    MessageEventContent, TextMessageEventContent, UserRef,
};
use meta_matrix::google_search::GoogleSearchPlugin;
use meta_matrix::plugin::{Plugin, PluginRegistry, RegisteredPlugin};
use meta_matrix::Error;

fn standard_dispatcher() -> PluginEventDispatcher {
    let mut registry = PluginRegistry::new();
    registry.register(GoogleSearchPlugin::new().map(RegisteredPlugin::GoogleSearch));
    registry.register(ChoicesPlugin::new().map(RegisteredPlugin::Choices));
    PluginEventDispatcher::new(registry)
}

fn text_event(sender: &str, room: &str, body: &str) -> InboundEvent {
    InboundEvent {
        sender: UserRef { id: sender.to_owned() },
        room: room.to_owned(),
        content: MessageEventContent::Text(TextMessageEventContent { body: body.to_owned() }),
    }
}

#[test]
fn test_register_plugin() {
    let mut registry = PluginRegistry::new();
    registry.register(ChoicesPlugin::new().map(RegisteredPlugin::Choices));
    assert_eq!(registry.plugins().len(), 1);
}

#[test]
fn failed_construction_is_skipped() {
    let mut registry = PluginRegistry::new();
    registry.register(Err(Error::PluginInitError("deliberately refused".to_owned())));
    registry.register(ChoicesPlugin::new().map(RegisteredPlugin::Choices));
    assert_eq!(registry.plugins().len(), 1);
}

#[test]
fn choice_request_yields_one_reply() {
    let dispatcher = standard_dispatcher();
    let event = text_event("@alice:example.org", "!room:example.org", "meta: pizza eller sushi?");
    let acts = dispatcher.on_room_message(&event);
    assert_eq!(acts.len(), 1);
    match &acts[0] {
        Action::Send { room, message } => {
            assert_eq!(room, "!room:example.org");
            assert!(message.body == "alice: pizza" || message.body == "alice: sushi");
        }
        _ => panic!("expected a send"),
    }
}

#[test]
fn search_request_yields_one_fetch() {
    let dispatcher = standard_dispatcher();
    let event = text_event("@alice:example.org", "!room:example.org", ".g rust programming");
    let acts = dispatcher.on_room_message(&event);
    assert_eq!(acts.len(), 1);
    match &acts[0] {
        Action::FetchSearch { room, query } => {
            assert_eq!(room, "!room:example.org");
            assert_eq!(query, "rust programming");
        }
        _ => panic!("expected a fetch"),
    }
}

#[test]
fn plain_text_yields_nothing() {
    let dispatcher = standard_dispatcher();
    let event = text_event("@alice:example.org", "!room:example.org", "good morning");
    assert!(dispatcher.on_room_message(&event).is_empty());
}

#[test]
fn unhandled_kinds_yield_nothing() {
    let dispatcher = standard_dispatcher();
    let audio = InboundEvent {
        sender: UserRef { id: "@alice:example.org".to_owned() },
        room: "!room:example.org".to_owned(),
        content: MessageEventContent::Audio(AudioMessageEventContent {
            body: "clip".to_owned(),
            url: None,
        }),
    };
    assert!(dispatcher.on_room_message(&audio).is_empty());
    let emote = InboundEvent {
        sender: UserRef { id: "@alice:example.org".to_owned() },
        room: "!room:example.org".to_owned(),
        content: MessageEventContent::Emote(EmoteMessageEventContent {
            body: "waves".to_owned(),
        }),
    };
    assert!(dispatcher.on_room_message(&emote).is_empty());
}

#[test]
fn error_descriptions_are_stable() {
    assert_eq!(
        Error::ConfigError("x".to_owned()).describe(),
        "unable to parse config"
    );
    assert_eq!(
        Error::PluginInitError("y".to_owned()).describe(),
        "failed to initialize plugin"
    );
}

#[test]
fn plugin_names_are_stable() {
    let choices = RegisteredPlugin::Choices(ChoicesPlugin::new().unwrap());
    let search = RegisteredPlugin::GoogleSearch(GoogleSearchPlugin::new().unwrap());
    assert_eq!(choices.name(), "ChoicesPlugin");
    assert_eq!(search.name(), "GoogleSearchPlugin");
}
