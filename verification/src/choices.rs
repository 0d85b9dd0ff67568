//! The random-choice responder: a text body of the shape
//! `meta: <options> eller <last>?` (ASCII-case-insensitive, optional
//! trailing question mark) is answered with one uniformly chosen
//! option, addressed to the sender.

use vstd::prelude::*;

use crate::event::{
    is_send, spec_localpart, Action, AudioMessageEventContent, EmoteMessageEventContent,
    FileMessageEventContent, ImageMessageEventContent, LocationMessageEventContent,
    NoticeMessageEventContent, OutboundMessage, ServerNoticeMessageEventContent,
    TextMessageEventContent, UserRef, VideoMessageEventContent,
};
use crate::plugin::Plugin;
use crate::textutil::{
    contains_char, contains_char_exec, eq_ci, find_ci, lemma_find_ci_absent, lemma_find_ci_exact,
    matches_at_ci, matches_at_ci_exec, spec_find_ci, spec_split, split_owned, str_chars,
};
use crate::Error;

verus! {

/// The trigger prefix of a choice request.
pub open spec fn meta_prefix() -> Seq<char> {
    "meta: "@
}

/// The delimiter before the last option.
pub open spec fn eller_delim() -> Seq<char> {
    " eller "@
}

/// The delimiter between the leading options.
pub open spec fn option_delim() -> Seq<char> {
    ", "@
}

/// The reply body used when a request carries no options at all.
pub open spec fn fallback_text() -> Seq<char> {
    "something went wrong"@
}

/// A body is a choice request when it opens with the trigger prefix
/// (up to ASCII case), the last-option delimiter occurs after the
/// prefix, and no line break interrupts it.
pub open spec fn choices_match(body: Seq<char>) -> bool {
    &&& matches_at_ci(body, 0, meta_prefix())
    &&& spec_find_ci(body, eller_delim(), meta_prefix().len() as int) is Some
    &&& !contains_char(body, '\n')
}

/// The option list of a choice request: the text between the prefix
/// and the first last-option delimiter, split on `", "`, followed by
/// the text after that delimiter with one trailing `?` dropped.
/// `None` when the body is no choice request.
pub open spec fn spec_choice_options(body: Seq<char>) -> Option<Seq<Seq<char>>> {
    if choices_match(body) {
        let p = spec_find_ci(body, eller_delim(), meta_prefix().len() as int)->Some_0;
        let dend = p + eller_delim().len();
        let end2: int = if body.len() > dend && body[body.len() - 1] == '?' {
            body.len() - 1
        } else {
            body.len() as int
        };
        let g1 = body.subrange(meta_prefix().len() as int, p);
        let g2 = body.subrange(dend as int, end2);
        Some(spec_split(g1, option_delim()).push(g2))
    } else {
        None
    }
}

/// `choice` is what a pick from `opts` may return: a member of `opts`,
/// or the fixed fallback when `opts` is empty.
pub open spec fn chosen_option(opts: Seq<Seq<char>>, choice: Seq<char>) -> bool {
    if opts.len() == 0 {
        choice == fallback_text()
    } else {
        exists|i: int| 0 <= i < opts.len() && choice == opts[i]
    }
}

/// The plain-text reply body.
pub open spec fn choice_plain(localpart: Seq<char>, choice: Seq<char>) -> Seq<char> {
    localpart + ": "@ + choice
}

/// The HTML rendering of the reply.
pub open spec fn choice_html(full: Seq<char>, localpart: Seq<char>, choice: Seq<char>) -> Seq<char> {
    "<a href=\"https://matrix.to/#/"@ + full + "\">"@ + localpart + "</a>: "@ + choice
}

/// What the choice hook returns: nothing on a non-matching body; on a
/// request, exactly one send of a picked option's reply to the room.
pub open spec fn choices_text_response(
    sender: UserRef,
    room: Seq<char>,
    body: Seq<char>,
    acts: Seq<Action>,
) -> bool {
    match spec_choice_options(body) {
        Some(opts) => {
            &&& acts.len() == 1
            &&& exists|choice: Seq<char>|
                {
                    &&& #[trigger] chosen_option(opts, choice)
                    &&& is_send(
                        acts[0],
                        room,
                        choice_plain(spec_localpart(sender.id@), choice),
                        choice_html(sender.id@, spec_localpart(sender.id@), choice),
                    )
                }
        },
        None => acts.len() == 0,
    }
}

/// No line break anywhere in `s`.
pub open spec fn line_clean(s: Seq<char>) -> bool {
    forall|i: int| 0 <= i < s.len() ==> s[i] != '\n'
}

/// The body `meta: <a>, <b> eller <c>?`.
pub open spec fn choice_body(a: Seq<char>, b: Seq<char>, c: Seq<char>) -> Seq<char> {
    meta_prefix() + a + option_delim() + b + eller_delim() + c + seq!['?']
}

/// `a`, `b` and `c` make a well-formed three-option request: no line
/// breaks, the last-option delimiter occurs nowhere before its intended
/// place, and the option delimiter occurs in the leading list only
/// between `a` and `b`.
pub open spec fn well_formed_triple(a: Seq<char>, b: Seq<char>, c: Seq<char>) -> bool {
    &&& line_clean(a)
    &&& line_clean(b)
    &&& line_clean(c)
    &&& forall|p: int|
        meta_prefix().len() <= p < meta_prefix().len() + a.len() + option_delim().len() + b.len()
            ==> !matches_at_ci(choice_body(a, b, c), p, eller_delim())
    &&& forall|p: int|
        0 <= p < a.len() + option_delim().len() + b.len() && p != a.len() ==> !matches_at_ci(
            a + option_delim() + b,
            p,
            option_delim(),
        )
}

/// Parsing a well-formed three-option request yields exactly its three
/// options, in order.
pub proof fn lemma_parse_well_formed(a: Seq<char>, b: Seq<char>, c: Seq<char>)
    requires
        well_formed_triple(a, b, c),
    ensures
        spec_choice_options(choice_body(a, b, c)) == Some(seq![a, b, c]),
{
    reveal_strlit("meta: ");
    reveal_strlit(" eller ");
    reveal_strlit(", ");
    let body = choice_body(a, b, c);
    let al = a.len() as int;
    let bl = b.len() as int;
    let cl = c.len() as int;
    let t = 6 + al + 2 + bl;
    assert(meta_prefix().len() == 6);
    assert(eller_delim().len() == 7);
    assert(option_delim().len() == 2);
    assert(body.len() == t + 7 + cl + 1);

    // the prefix stands at the front of the body
    assert(matches_at_ci(body, 0, meta_prefix())) by {
        assert forall|j: int| 0 <= j < 6 implies eq_ci(body[j], meta_prefix()[j]) by {
            assert(body[j] == meta_prefix()[j]);
        }
    }

    // no line break anywhere
    assert(!contains_char(body, '\n')) by {
        assert forall|i: int| 0 <= i < body.len() implies body[i] != '\n' by {
            if i < 6 {
                assert(body[i] == meta_prefix()[i]);
            } else if i < 6 + al {
                assert(body[i] == a[i - 6]);
            } else if i < 6 + al + 2 {
                assert(body[i] == option_delim()[i - 6 - al]);
            } else if i < t {
                assert(body[i] == b[i - 6 - al - 2]);
            } else if i < t + 7 {
                assert(body[i] == eller_delim()[i - t]);
            } else if i < t + 7 + cl {
                assert(body[i] == c[i - t - 7]);
            } else {
                assert(body[i] == '?');
            }
        }
    }

    // the last-option delimiter first occurs exactly after the leading list
    assert(matches_at_ci(body, t, eller_delim())) by {
        assert forall|j: int| 0 <= j < 7 implies eq_ci(body[t + j], eller_delim()[j]) by {
            assert(body[t + j] == eller_delim()[j]);
        }
    }
    lemma_find_ci_exact(body, eller_delim(), 6, t);

    // the captured groups are the leading list and the last option
    let g1 = body.subrange(6, t);
    assert(g1 =~= a + option_delim() + b);
    assert(body[body.len() - 1] == '?');
    let g2 = body.subrange(t + 7, body.len() - 1);
    assert(g2 =~= c);

    // the leading list splits exactly at its one delimiter
    let mid = a + option_delim() + b;
    assert(matches_at_ci(mid, al, option_delim())) by {
        assert forall|j: int| 0 <= j < 2 implies eq_ci(mid[al + j], option_delim()[j]) by {
            assert(mid[al + j] == option_delim()[j]);
        }
    }
    lemma_find_ci_exact(mid, option_delim(), 0, al);
    assert(mid.subrange(0, al) =~= a);
    assert(mid.subrange(al + 2, mid.len() as int) =~= b);
    assert(spec_find_ci(b, option_delim(), 0) is None) by {
        assert forall|q: int| 0 <= q implies !matches_at_ci(b, q, option_delim()) by {
            if matches_at_ci(b, q, option_delim()) {
                assert(matches_at_ci(mid, al + 2 + q, option_delim())) by {
                    assert forall|j: int| 0 <= j < 2 implies eq_ci(
                        mid[al + 2 + q + j],
                        option_delim()[j],
                    ) by {
                        assert(mid[al + 2 + q + j] == b[q + j]);
                    }
                }
            }
        }
        lemma_find_ci_absent(b, option_delim(), 0);
    }
    assert(spec_split(b, option_delim()) =~= seq![b]);
    assert(spec_split(mid, option_delim()) =~= seq![a, b]);

    assert(spec_choice_options(body) == Some(seq![a, b].push(g2)));
    assert(seq![a, b].push(c) =~= seq![a, b, c]);
}

/// The body `meta: <a> eller <c>?`.
pub open spec fn choice_body_pair(a: Seq<char>, c: Seq<char>) -> Seq<char> {
    meta_prefix() + a + eller_delim() + c + seq!['?']
}

/// `a` and `c` make a well-formed two-option request: no line breaks,
/// the last-option delimiter occurs nowhere before its intended place,
/// and the option delimiter does not occur in `a`.
pub open spec fn well_formed_pair(a: Seq<char>, c: Seq<char>) -> bool {
    &&& line_clean(a)
    &&& line_clean(c)
    &&& forall|p: int|
        meta_prefix().len() <= p < meta_prefix().len() + a.len() ==> !matches_at_ci(
            choice_body_pair(a, c),
            p,
            eller_delim(),
        )
    &&& forall|p: int| 0 <= p < a.len() ==> !matches_at_ci(a, p, option_delim())
}

/// Parsing a well-formed two-option request yields exactly its two
/// options, in order.
pub proof fn lemma_parse_well_formed_pair(a: Seq<char>, c: Seq<char>)
    requires
        well_formed_pair(a, c),
    ensures
        spec_choice_options(choice_body_pair(a, c)) == Some(seq![a, c]),
{
    reveal_strlit("meta: ");
    reveal_strlit(" eller ");
    reveal_strlit(", ");
    let body = choice_body_pair(a, c);
    let al = a.len() as int;
    let cl = c.len() as int;
    let t = 6 + al;
    assert(meta_prefix().len() == 6);
    assert(eller_delim().len() == 7);
    assert(option_delim().len() == 2);
    assert(body.len() == t + 7 + cl + 1);

    assert(matches_at_ci(body, 0, meta_prefix())) by {
        assert forall|j: int| 0 <= j < 6 implies eq_ci(body[j], meta_prefix()[j]) by {
            assert(body[j] == meta_prefix()[j]);
        }
    }

    assert(!contains_char(body, '\n')) by {
        assert forall|i: int| 0 <= i < body.len() implies body[i] != '\n' by {
            if i < 6 {
                assert(body[i] == meta_prefix()[i]);
            } else if i < t {
                assert(body[i] == a[i - 6]);
            } else if i < t + 7 {
                assert(body[i] == eller_delim()[i - t]);
            } else if i < t + 7 + cl {
                assert(body[i] == c[i - t - 7]);
            } else {
                assert(body[i] == '?');
            }
        }
    }

    assert(matches_at_ci(body, t, eller_delim())) by {
        assert forall|j: int| 0 <= j < 7 implies eq_ci(body[t + j], eller_delim()[j]) by {
            assert(body[t + j] == eller_delim()[j]);
        }
    }
    lemma_find_ci_exact(body, eller_delim(), 6, t);

    let g1 = body.subrange(6, t);
    assert(g1 =~= a);
    assert(body[body.len() - 1] == '?');
    let g2 = body.subrange(t + 7, body.len() - 1);
    assert(g2 =~= c);

    assert(spec_find_ci(a, option_delim(), 0) is None) by {
        lemma_find_ci_absent(a, option_delim(), 0);
    }
    assert(spec_split(a, option_delim()) =~= seq![a]);

    assert(spec_choice_options(body) == Some(seq![a].push(g2)));
    assert(seq![a].push(c) =~= seq![a, c]);
}

/// For every well-formed two-option request, the reply is a single
/// send whose chosen value is one of the two options.
pub proof fn lemma_well_formed_pair_reply(
    sender: UserRef,
    room: Seq<char>,
    a: Seq<char>,
    c: Seq<char>,
    acts: Seq<Action>,
)
    requires
        well_formed_pair(a, c),
        choices_text_response(sender, room, choice_body_pair(a, c), acts),
    ensures
        acts.len() == 1,
        exists|choice: Seq<char>|
            {
                &&& (choice == a || choice == c)
                &&& #[trigger] is_send(
                    acts[0],
                    room,
                    choice_plain(spec_localpart(sender.id@), choice),
                    choice_html(sender.id@, spec_localpart(sender.id@), choice),
                )
            },
{
    lemma_parse_well_formed_pair(a, c);
    let opts = seq![a, c];
    let choice = choose|choice: Seq<char>|
        {
            &&& #[trigger] chosen_option(opts, choice)
            &&& is_send(
                acts[0],
                room,
                choice_plain(spec_localpart(sender.id@), choice),
                choice_html(sender.id@, spec_localpart(sender.id@), choice),
            )
        };
    let i = choose|i: int| 0 <= i < opts.len() && choice == opts[i];
    assert(choice == a || choice == c);
}

/// For every well-formed three-option request, the reply is a single
/// send whose chosen value is one of the three options.
pub proof fn lemma_well_formed_choice_reply(
    sender: UserRef,
    room: Seq<char>,
    a: Seq<char>,
    b: Seq<char>,
    c: Seq<char>,
    acts: Seq<Action>,
)
    requires
        well_formed_triple(a, b, c),
        choices_text_response(sender, room, choice_body(a, b, c), acts),
    ensures
        acts.len() == 1,
        exists|choice: Seq<char>|
            {
                &&& (choice == a || choice == b || choice == c)
                &&& #[trigger] is_send(
                    acts[0],
                    room,
                    choice_plain(spec_localpart(sender.id@), choice),
                    choice_html(sender.id@, spec_localpart(sender.id@), choice),
                )
            },
{
    lemma_parse_well_formed(a, b, c);
    let opts = seq![a, b, c];
    let choice = choose|choice: Seq<char>|
        {
            &&& #[trigger] chosen_option(opts, choice)
            &&& is_send(
                acts[0],
                room,
                choice_plain(spec_localpart(sender.id@), choice),
                choice_html(sender.id@, spec_localpart(sender.id@), choice),
            )
        };
    let i = choose|i: int| 0 <= i < opts.len() && choice == opts[i];
    assert(choice == a || choice == b || choice == c);
}

/// Relies on `rand::random_range` over `0..n`: the result is a
/// uniformly distributed index below `n`. The function panics on an
/// empty range, which the precondition rules out.
#[verifier::external_body]
fn pick_index(n: usize) -> (r: usize)
    requires
        n >= 1,
    ensures
        r < n,
{
    rand::random_range(0..n)
}

/// The option list of a choice request, or `None` when the body is no
/// such request.
pub fn parse_choice_request(body: &str) -> (r: Option<Vec<String>>)
    ensures
        match spec_choice_options(body@) {
            Some(opts) => r matches Some(v) && v.deep_view() == opts,
            None => r is None,
        },
{
    proof {
        reveal_strlit("meta: ");
        reveal_strlit(" eller ");
        reveal_strlit(", ");
    }
    let chars = str_chars(body);
    if !matches_at_ci_exec(&chars, 0, "meta: ") {
        return None;
    }
    if contains_char_exec(&chars, '\n') {
        return None;
    }
    let p = match find_ci(&chars, 6, " eller ") {
        Some(p) => p,
        None => {
            return None;
        },
    };
    let n = chars.len();
    let dend = p + 7;
    let end2: usize = if n > dend && chars[n - 1] == '?' {
        n - 1
    } else {
        n
    };
    let g1 = body.substring_char(6, p);
    let g2 = body.substring_char(dend, end2).to_owned();
    let mut opts = split_owned(g1, ", ");
    let ghost opts_before = opts.deep_view();
    opts.push(g2);
    proof {
        assert(opts.deep_view() =~= opts_before.push(g2@));
    }
    Some(opts)
}

/// One pick from the parsed options: a uniformly chosen member, or the
/// fixed fallback when the list is empty.
pub fn pick_choice(options: &Vec<String>) -> (r: String)
    ensures
        chosen_option(options.deep_view(), r@),
{
    if options.len() == 0 {
        String::from_str("something went wrong")
    } else {
        let i = pick_index(options.len());
        let r = options[i].clone();
        proof {
            assert(r@ == options.deep_view()[i as int]);
        }
        r
    }
}

/// The reply for one picked option: the sender's short handle, a
/// colon, and the choice, with an HTML rendering that links the
/// sender's full identifier.
pub fn compose_choice_reply(user: &UserRef, choice: &str) -> (r: OutboundMessage)
    ensures
        r.body@ == choice_plain(spec_localpart(user.id@), choice@),
        r.formatted matches Some(f) && f@ == choice_html(
            user.id@,
            spec_localpart(user.id@),
            choice@,
        ),
{
    let lp = user.localpart();
    let plain = lp.clone().concat(": ").concat(choice);
    let html = String::from_str("<a href=\"https://matrix.to/#/").concat(user.as_str()).concat(
        "\">",
    ).concat(lp.as_str()).concat("</a>: ").concat(choice);
    proof {
        assert(plain@ =~= choice_plain(spec_localpart(user.id@), choice@));
        assert(html@ =~= choice_html(user.id@, spec_localpart(user.id@), choice@));
    }
    OutboundMessage { body: plain, formatted: Some(html) }
}

/// The random-choice responder. It keeps no state: each reply is a
/// function of the message body and a fresh random pick.
pub struct ChoicesPlugin {}

impl Plugin for ChoicesPlugin {
    open spec fn text_response(
        &self,
        sender: UserRef,
        room: Seq<char>,
        body: Seq<char>,
        acts: Seq<Action>,
    ) -> bool {
        choices_text_response(sender, room, body, acts)
    }

    fn new() -> (r: Result<Self, Error>)
        ensures
            r is Ok,
    {
        Ok(ChoicesPlugin {  })
    }

    fn name(&self) -> (r: String)
        ensures
            r@ == "ChoicesPlugin"@,
    {
        String::from_str("ChoicesPlugin")
    }

    fn on_room_text_message(
        &self,
        user: &UserRef,
        room: &str,
        message: &TextMessageEventContent,
    ) -> (r: Vec<Action>) {
        let mut r: Vec<Action> = Vec::new();
        match parse_choice_request(message.body.as_str()) {
            Some(options) => {
                let choice = pick_choice(&options);
                let msg = compose_choice_reply(user, choice.as_str());
                r.push(Action::Send { room: room.to_owned(), message: msg });
                proof {
                    let opts = spec_choice_options(message.body@)->Some_0;
                    assert(chosen_option(opts, choice@));
                    assert(is_send(
                        r@[0],
                        room@,
                        choice_plain(spec_localpart(user.id@), choice@),
                        choice_html(user.id@, spec_localpart(user.id@), choice@),
                    ));
                }
            },
            None => {},
        }
        r
    }

    fn on_room_audio_message(
        &self,
        _user: &UserRef,
        _room: &str,
        _message: &AudioMessageEventContent,
    ) -> (r: Vec<Action>)
        ensures
            r@.len() == 0,
    {
        Vec::new()
    }

    fn on_room_emote_message(
        &self,
        _user: &UserRef,
        _room: &str,
        _message: &EmoteMessageEventContent,
    ) -> (r: Vec<Action>)
        ensures
            r@.len() == 0,
    {
        Vec::new()
    }

    fn on_room_file_message(
        &self,
        _user: &UserRef,
        _room: &str,
        _message: &FileMessageEventContent,
    ) -> (r: Vec<Action>)
        ensures
            r@.len() == 0,
    {
        Vec::new()
    }

    fn on_room_image_message(
        &self,
        _user: &UserRef,
        _room: &str,
        _message: &ImageMessageEventContent,
    ) -> (r: Vec<Action>)
        ensures
            r@.len() == 0,
    {
        Vec::new()
    }

    fn on_room_location_message(
        &self,
        _user: &UserRef,
        _room: &str,
        _message: &LocationMessageEventContent,
    ) -> (r: Vec<Action>)
        ensures
            r@.len() == 0,
    {
        Vec::new()
    }

    fn on_room_notice_message(
        &self,
        _user: &UserRef,
        _room: &str,
        _message: &NoticeMessageEventContent,
    ) -> (r: Vec<Action>)
        ensures
            r@.len() == 0,
    {
        Vec::new()
    }

    fn on_room_server_notice_message(
        &self,
        _user: &UserRef,
        _room: &str,
        _message: &ServerNoticeMessageEventContent,
    ) -> (r: Vec<Action>)
        ensures
            r@.len() == 0,
    {
        Vec::new()
    }

    fn on_room_video_message(
        &self,
        _user: &UserRef,
        _room: &str,
        _message: &VideoMessageEventContent,
    ) -> (r: Vec<Action>)
        ensures
            r@.len() == 0,
    {
        Vec::new()
    }
}

} // verus!
