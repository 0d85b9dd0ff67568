//! The event dispatcher: one inbound event at a time is classified by
//! content kind and handed to every registered plugin's matching hook,
//! in registration order; the plugins' actions come back concatenated
//! in that order.

use vstd::prelude::*;

use crate::choices::{
    choice_body_pair, choice_html, choice_plain, lemma_well_formed_pair_reply, meta_prefix,
    well_formed_pair, ChoicesPlugin,
};
use crate::event::{is_fetch, is_send, spec_localpart, Action, InboundEvent, MessageEventContent};
use crate::google_search::{search_query, search_trigger, GoogleSearchPlugin};
use crate::plugin::{PluginRegistry, RegisteredPlugin};
use crate::textutil::{eq_ci, matches_at_ci};

verus! {

/// What one plugin may contribute for one event: its text-hook relation
/// on a text message, nothing on every other kind (the registered
/// plugins respond to text messages only; their other hooks promise to
/// do nothing).
pub open spec fn plugin_response(p: RegisteredPlugin, e: InboundEvent, acts: Seq<Action>) -> bool {
    match e.content {
        MessageEventContent::Text(t) => p.text_response(e.sender, e.room@, t.body@, acts),
        _ => acts.len() == 0,
    }
}

/// `parts` holds one contribution per plugin, in registration order,
/// each satisfying its plugin's response relation for `e`.
pub open spec fn parts_ok(
    plugins: Seq<RegisteredPlugin>,
    e: InboundEvent,
    parts: Seq<Seq<Action>>,
) -> bool {
    &&& parts.len() == plugins.len()
    &&& forall|i: int| 0 <= i < parts.len() ==> plugin_response(plugins[i], e, parts[i])
}

/// `acts` decomposes into one contribution per plugin, in registration
/// order.
pub open spec fn dispatch_ok(
    plugins: Seq<RegisteredPlugin>,
    e: InboundEvent,
    acts: Seq<Action>,
) -> bool {
    exists|parts: Seq<Seq<Action>>| #[trigger] parts_ok(plugins, e, parts) && acts
        == parts.flatten()
}

/// Routes each inbound event to all interested plugins.
pub struct PluginEventDispatcher {
    registry: PluginRegistry,
}

impl PluginEventDispatcher {
    /// The registered plugins, in dispatch order.
    pub closed spec fn spec_plugins(&self) -> Seq<RegisteredPlugin> {
        self.registry@
    }

    /// Constructs and returns a new dispatcher over the given registry.
    pub fn new(registry: PluginRegistry) -> (r: PluginEventDispatcher)
        ensures
            r.spec_plugins() == registry@,
    {
        PluginEventDispatcher { registry }
    }

    /// Read-only access to the registered plugins, in dispatch order.
    pub fn plugins(&self) -> (r: &Vec<RegisteredPlugin>)
        ensures
            r@ == self.spec_plugins(),
    {
        self.registry.plugins()
    }

    /// Handles one inbound event: every registered plugin's hook for
    /// the event's kind runs once, in registration order, and the
    /// returned actions keep that order. One plugin's outcome never
    /// keeps the next from running.
    pub fn on_room_message(&self, event: &InboundEvent) -> (r: Vec<Action>)
        ensures
            dispatch_ok(self.spec_plugins(), *event, r@),
    {
        let plugins = self.registry.plugins();
        let n = plugins.len();
        let mut acts: Vec<Action> = Vec::new();
        let ghost mut parts: Seq<Seq<Action>> = Seq::empty();
        let mut i: usize = 0;
        while i < n
            invariant
                n == self.spec_plugins().len(),
                plugins@ == self.spec_plugins(),
                i <= n,
                parts.len() == i,
                forall|j: int|
                    0 <= j < i ==> plugin_response(self.spec_plugins()[j], *event, parts[j]),
                acts@ == parts.flatten(),
            decreases n - i,
        {
            let mut a = invoke_hook(&plugins[i], event);
            proof {
                parts.lemma_flatten_push(a@);
                parts = parts.push(a@);
            }
            acts.append(&mut a);
            i = i + 1;
        }
        proof {
            assert(parts_ok(self.spec_plugins(), *event, parts));
        }
        acts
    }
}

/// One plugin's hook for the event's kind, chosen by the content tag.
fn invoke_hook(p: &RegisteredPlugin, event: &InboundEvent) -> (r: Vec<Action>)
    ensures
        plugin_response(*p, *event, r@),
{
    let user = &event.sender;
    let room = event.room.as_str();
    match &event.content {
        MessageEventContent::Text(c) => p.on_room_text_message(user, room, c),
        MessageEventContent::Audio(c) => p.on_room_audio_message(user, room, c),
        MessageEventContent::Emote(c) => p.on_room_emote_message(user, room, c),
        MessageEventContent::File(c) => p.on_room_file_message(user, room, c),
        MessageEventContent::Image(c) => p.on_room_image_message(user, room, c),
        MessageEventContent::Location(c) => p.on_room_location_message(user, room, c),
        MessageEventContent::Notice(c) => p.on_room_notice_message(user, room, c),
        MessageEventContent::ServerNotice(c) => p.on_room_server_notice_message(user, room, c),
        MessageEventContent::Video(c) => p.on_room_video_message(user, room, c),
        MessageEventContent::Other => Vec::new(),
    }
}

/// An event whose kind no registered plugin handles produces no
/// outbound action at all.
pub proof fn lemma_unhandled_kind_silent(
    plugins: Seq<RegisteredPlugin>,
    e: InboundEvent,
    acts: Seq<Action>,
)
    requires
        !(e.content is Text),
        dispatch_ok(plugins, e, acts),
    ensures
        acts.len() == 0,
{
    let parts = choose|parts: Seq<Seq<Action>>|
        #[trigger] parts_ok(plugins, e, parts) && acts == parts.flatten();
    lemma_flatten_of_empties(parts);
}

/// Flattening parts that are each empty gives the empty sequence.
proof fn lemma_flatten_of_empties(parts: Seq<Seq<Action>>)
    requires
        forall|i: int| 0 <= i < parts.len() ==> parts[i].len() == 0,
    ensures
        parts.flatten().len() == 0,
    decreases parts.len(),
{
    if parts.len() > 0 {
        lemma_flatten_of_empties(parts.drop_first());
    }
}

/// With two registered plugins, the actions of one dispatch are exactly
/// the first plugin's contribution followed by the second's: both hooks
/// are consulted once each, in registration order, and what the first
/// contributes never keeps the second from contributing.
pub proof fn lemma_dispatch_two_ordered(
    p0: RegisteredPlugin,
    p1: RegisteredPlugin,
    e: InboundEvent,
    acts: Seq<Action>,
)
    requires
        dispatch_ok(seq![p0, p1], e, acts),
    ensures
        exists|a0: Seq<Action>, a1: Seq<Action>|
            {
                &&& #[trigger] plugin_response(p0, e, a0)
                &&& #[trigger] plugin_response(p1, e, a1)
                &&& acts == a0 + a1
            },
{
    let plugins = seq![p0, p1];
    let parts = choose|parts: Seq<Seq<Action>>|
        #[trigger] parts_ok(plugins, e, parts) && acts == parts.flatten();
    let a0 = parts[0];
    let a1 = parts[1];
    seq![a0].lemma_flatten_push(a1);
    seq![a0].lemma_flatten_one_element();
    assert(parts =~= seq![a0].push(a1));
    assert(acts == a0 + a1);
    assert(plugin_response(p0, e, a0) && plugin_response(p1, e, a1));
}

/// In the standard registry (the search plugin first, the choices
/// plugin second), a well-formed two-option choice request draws
/// exactly one reply, addressed to the sender, whose chosen value is
/// one of the two options: the search plugin stays silent, since the
/// body opens the choice way and not with its command prefix.
pub proof fn lemma_standard_bot_choice_reply(
    gp: GoogleSearchPlugin,
    cp: ChoicesPlugin,
    e: InboundEvent,
    a: Seq<char>,
    c: Seq<char>,
    acts: Seq<Action>,
)
    requires
        e.content matches MessageEventContent::Text(t) && t.body@ == choice_body_pair(a, c),
        well_formed_pair(a, c),
        dispatch_ok(
            seq![RegisteredPlugin::GoogleSearch(gp), RegisteredPlugin::Choices(cp)],
            e,
            acts,
        ),
    ensures
        acts.len() == 1,
        exists|choice: Seq<char>|
            {
                &&& (choice == a || choice == c)
                &&& #[trigger] is_send(
                    acts[0],
                    e.room@,
                    choice_plain(spec_localpart(e.sender.id@), choice),
                    choice_html(e.sender.id@, spec_localpart(e.sender.id@), choice),
                )
            },
{
    reveal_strlit("meta: ");
    lemma_dispatch_two_ordered(
        RegisteredPlugin::GoogleSearch(gp),
        RegisteredPlugin::Choices(cp),
        e,
        acts,
    );
    let (a0, a1) = choose|a0: Seq<Action>, a1: Seq<Action>|
        {
            &&& #[trigger] plugin_response(RegisteredPlugin::GoogleSearch(gp), e, a0)
            &&& #[trigger] plugin_response(RegisteredPlugin::Choices(cp), e, a1)
            &&& acts == a0 + a1
        };
    let body = choice_body_pair(a, c);
    assert(body[0] == 'm');
    assert(!search_trigger(body));
    assert(a0.len() == 0);
    lemma_well_formed_pair_reply(e.sender, e.room@, a, c, a1);
    assert(acts =~= a1);
}

/// In the standard registry, a text body carrying the search command
/// draws exactly one fetch of its query: the choices plugin stays
/// silent, since the body opens with the command prefix and not the
/// choice way.
pub proof fn lemma_standard_bot_search_fetch(
    gp: GoogleSearchPlugin,
    cp: ChoicesPlugin,
    e: InboundEvent,
    acts: Seq<Action>,
)
    requires
        e.content matches MessageEventContent::Text(t) && search_trigger(t.body@),
        dispatch_ok(
            seq![RegisteredPlugin::GoogleSearch(gp), RegisteredPlugin::Choices(cp)],
            e,
            acts,
        ),
    ensures
        acts.len() == 1,
        is_fetch(acts[0], e.room@, search_query(e.content->Text_0.body@)),
{
    reveal_strlit("meta: ");
    lemma_dispatch_two_ordered(
        RegisteredPlugin::GoogleSearch(gp),
        RegisteredPlugin::Choices(cp),
        e,
        acts,
    );
    let (a0, a1) = choose|a0: Seq<Action>, a1: Seq<Action>|
        {
            &&& #[trigger] plugin_response(RegisteredPlugin::GoogleSearch(gp), e, a0)
            &&& #[trigger] plugin_response(RegisteredPlugin::Choices(cp), e, a1)
            &&& acts == a0 + a1
        };
    let body = e.content->Text_0.body@;
    assert(!matches_at_ci(body, 0, meta_prefix())) by {
        if matches_at_ci(body, 0, meta_prefix()) {
            assert(eq_ci(body[0], meta_prefix()[0]));
            assert(meta_prefix()[0] == 'm');
            assert(body[0] == '.');
        }
    }
    assert(a1.len() == 0);
    assert(acts =~= a0);
}

} // verus!
