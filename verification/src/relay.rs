//! Relay of anonymous messages: stored lines carry role placeholders
//! instead of identities, and threads are rendered for a viewer by
//! substituting role words for the placeholders.

use vstd::prelude::*;
use vstd::string::StringExecFns;

use crate::states::Effect;
use crate::states::EffectView;
use crate::states::Payload;
use crate::states::PayloadView;
use crate::store::RelayStore;
use crate::store::spec_save_message;
use crate::text::replace_all;
use crate::text::spec_replace_all;
use crate::types::Message;
use crate::types::MessageView;
use crate::types::User;
use crate::types::UserView;

verus! {

/// The two roles of a directed giver-to-recipient pair.
#[derive(Clone, Copy, Debug, PartialEq, Eq, Structural)]
pub enum Role {
    Santa,
    Child,
}

/// The placeholder written into stored history for the gift giver.
pub open spec fn santa_pattern() -> Seq<char> {
    "$santa"@
}

/// The placeholder written into stored history for the gift recipient.
pub open spec fn child_pattern() -> Seq<char> {
    "$child"@
}

/// A relayed line as stored: the sender's role placeholder, a separator,
/// then the free text.  No identity enters the stored form.
pub open spec fn spec_tagged(from: Role, text: Seq<char>) -> Seq<char> {
    (if from == Role::Santa {
        santa_pattern()
    } else {
        child_pattern()
    }) + ": \n"@ + text
}

/// Builds the stored form of one relayed line.
pub fn tagged_text(from: Role, text: &str) -> (r: String)
    ensures
        r@ == spec_tagged(from, text@),
{
    let mut s = match from {
        Role::Santa => String::from_str("$santa"),
        Role::Child => String::from_str("$child"),
    };
    s.append(": \n");
    s.append(text);
    s
}

/// The thread text as shown to a viewer: every giver placeholder replaced
/// by `santa_word`, then every recipient placeholder by `child_word`.
pub open spec fn spec_rendered(
    raw: Seq<char>,
    santa_word: Seq<char>,
    child_word: Seq<char>,
) -> Seq<char> {
    spec_replace_all(
        spec_replace_all(raw, santa_pattern(), santa_word),
        child_pattern(),
        child_word,
    )
}

/// Which counterpart a relayed line addresses: the participant's gift
/// recipient or their gift giver.
#[derive(Clone, Copy, Debug, PartialEq, Eq, Structural)]
pub enum Direction {
    ToRecipient,
    ToGiver,
}

/// One relayed line: the updated threads and the delivery instruction.
///
/// The line is stored under the directed (giver, recipient) pair, tagged
/// with the sender's role placeholder, and addressed to the counterpart's
/// endpoint.  A sender with no counterpart in the chosen direction relays
/// nothing.
pub open spec fn spec_relay(
    u: UserView,
    direction: Direction,
    text: Seq<char>,
    now: int,
    threads: Seq<MessageView>,
) -> (Seq<MessageView>, Option<EffectView>) {
    match direction {
        Direction::ToRecipient => match u.child {
            Some(cid) => (
                spec_save_message(
                    threads,
                    MessageView {
                        santa_id: u.id,
                        child_id: cid,
                        message: spec_tagged(Role::Santa, text),
                        create_date: now,
                    },
                ),
                Some(
                    EffectView {
                        target: cid,
                        payload: PayloadView::Relayed { from: Role::Santa, text },
                        keyboard: None,
                    },
                ),
            ),
            None => (threads, None),
        },
        Direction::ToGiver => match u.santa {
            Some(sid) => (
                spec_save_message(
                    threads,
                    MessageView {
                        santa_id: sid,
                        child_id: u.id,
                        message: spec_tagged(Role::Child, text),
                        create_date: now,
                    },
                ),
                Some(
                    EffectView {
                        target: sid,
                        payload: PayloadView::Relayed { from: Role::Child, text },
                        keyboard: None,
                    },
                ),
            ),
            None => (threads, None),
        },
    }
}

/// Relays one free-text line from a participant to their counterpart:
/// appends it, role-tagged, to the single thread for the directed pair and
/// returns the delivery instruction for the counterpart's endpoint.
pub fn relay(user: &User, direction: Direction, text: String, now: i64, store: &mut RelayStore) -> (r:
    Option<Effect>)
    requires
        old(store).wf(),
    ensures
        final(store)@ == spec_relay(user@, direction, text@, now as int, old(store)@).0,
        r.deep_view() == spec_relay(user@, direction, text@, now as int, old(store)@).1,
        final(store).wf(),
{
    match direction {
        Direction::ToRecipient => match user.child {
            Some(cid) => {
                let tagged = tagged_text(Role::Santa, text.as_str());
                store.save_message(Message {
                    santa_id: user.id,
                    child_id: cid,
                    message: tagged,
                    create_date: now,
                });
                Some(Effect {
                    target: cid,
                    payload: Payload::Relayed { from: Role::Santa, text },
                    keyboard: None,
                })
            },
            None => None,
        },
        Direction::ToGiver => match user.santa {
            Some(sid) => {
                let tagged = tagged_text(Role::Child, text.as_str());
                store.save_message(Message {
                    santa_id: sid,
                    child_id: user.id,
                    message: tagged,
                    create_date: now,
                });
                Some(Effect {
                    target: sid,
                    payload: Payload::Relayed { from: Role::Child, text },
                    keyboard: None,
                })
            },
            None => None,
        },
    }
}

/// Renders a stored thread for display, substituting role words for the
/// role placeholders.
pub fn render_thread(raw: &str, santa_word: &str, child_word: &str) -> (r: String)
    ensures
        r@ == spec_rendered(raw@, santa_word@, child_word@),
{
    proof {
        reveal_strlit("$santa");
        reveal_strlit("$child");
        assert("$santa"@.len() == 6);
        assert("$child"@.len() == 6);
    }
    let first = replace_all(raw, "$santa", santa_word);
    replace_all(first.as_str(), "$child", child_word)
}

} // verus!
