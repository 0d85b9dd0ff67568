use meta_matrix::choices::{compose_choice_reply, parse_choice_request, pick_choice, ChoicesPlugin};
use meta_matrix::event::{Action, TextMessageEventContent, UserRef};
use meta_matrix::plugin::Plugin;

fn user(id: &str) -> UserRef {
    UserRef { id: id.to_owned() }
}

#[test]
fn parse_two_options() {
    let opts = parse_choice_request("meta: pizza eller sushi?").unwrap();
    assert_eq!(opts, vec!["pizza".to_owned(), "sushi".to_owned()]);
}

#[test]
fn parse_three_options() {
    let opts = parse_choice_request("meta: a, b eller c?").unwrap();
    assert_eq!(opts, vec!["a".to_owned(), "b".to_owned(), "c".to_owned()]);
}

#[test]
fn parse_is_case_insensitive() {
    let opts = parse_choice_request("Meta: tea ELLER coffee").unwrap();
    assert_eq!(opts, vec!["tea".to_owned(), "coffee".to_owned()]);
}

#[test]
fn parse_strips_one_question_mark() {
    let opts = parse_choice_request("meta: a eller b??").unwrap();
    assert_eq!(opts, vec!["a".to_owned(), "b?".to_owned()]);
}

#[test]
fn parse_rejects_other_text() {
    assert!(parse_choice_request(".g rust").is_none());
    assert!(parse_choice_request("meta: no delimiter here").is_none());
    assert!(parse_choice_request("hello meta: a eller b").is_none());
    assert!(parse_choice_request("meta: a eller b\nmore").is_none());
}

#[test]
fn empty_option_list_falls_back() {
    let options: Vec<String> = Vec::new();
    assert_eq!(pick_choice(&options), "something went wrong");
}

#[test]
fn picks_are_members_and_roughly_spread() {
    let options = parse_choice_request("meta: a, b eller c?").unwrap();
    let mut seen = [false; 3];
    for _ in 0..200 {
        let pick = pick_choice(&options);
        let i = options.iter().position(|o| *o == pick).expect("pick must be an option");
        seen[i] = true;
    }
    assert!(seen[0] && seen[1] && seen[2]);
}

#[test]
fn reply_addresses_sender() {
    let u = user("@alice:example.org");
    let reply = compose_choice_reply(&u, "pizza");
    assert_eq!(reply.body, "alice: pizza");
    assert_eq!(
        reply.formatted.unwrap(),
        "<a href=\"https://matrix.to/#/@alice:example.org\">alice</a>: pizza"
    );
}

#[test]
fn localpart_forms() {
    assert_eq!(user("@alice:example.org").localpart(), "alice");
    assert_eq!(user("bob").localpart(), "bob");
    assert_eq!(user("@solo").localpart(), "solo");
}

#[test]
fn choices_hook_replies_with_an_option() {
    let plugin = ChoicesPlugin::new().unwrap();
    let u = user("@alice:example.org");
    let msg = TextMessageEventContent { body: "meta: pizza eller sushi?".to_owned() };
    let acts = plugin.on_room_text_message(&u, "!room:example.org", &msg);
    assert_eq!(acts.len(), 1);
    match &acts[0] {
        Action::Send { room, message } => {
            assert_eq!(room, "!room:example.org");
            assert!(message.body == "alice: pizza" || message.body == "alice: sushi");
        }
        _ => panic!("expected a send"),
    }
}

#[test]
fn choices_hook_ignores_other_text() {
    let plugin = ChoicesPlugin::new().unwrap();
    let u = user("@meta:example.org");
    let msg = TextMessageEventContent { body: "just chatting".to_owned() };
    let acts = plugin.on_room_text_message(&u, "!room:example.org", &msg);
    assert!(acts.is_empty());
}
