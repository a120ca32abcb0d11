//! The per-participant conversation state machine: inbound events, outbound
//! effects, the transition function, and the controller that reads and
//! writes the stores around one transition.

use vstd::prelude::*;

use crate::distribution::DistributeError;
use crate::relay::Direction;
use crate::relay::Role;
use crate::relay::spec_relay;
use crate::store::ParticipantStore;
use crate::store::RelayStore;
use crate::store::spec_find_message;
use crate::store::spec_get_user;
use crate::store::spec_save_user;
use crate::types::MessageView;
use crate::types::State;
use crate::types::User;
use crate::types::UserRecordView;
use crate::types::UserView;
use crate::types::spec_default_user;

verus! {

/// A named control signal: a button press or an administrative trigger,
/// already decoded by the transport.
#[derive(Clone, Debug, PartialEq)]
pub enum Signal {
    Start,
    OpenChildChat,
    OpenSantaChat,
    CloseChat,
    ChangeWish,
    ConfirmChangeWish,
    SelectCity(String),
}

/// The mathematical value of a `Signal`.
pub enum SignalView {
    Start,
    OpenChildChat,
    OpenSantaChat,
    CloseChat,
    ChangeWish,
    ConfirmChangeWish,
    SelectCity(Seq<char>),
}

impl DeepView for Signal {
    type V = SignalView;

    open spec fn deep_view(&self) -> SignalView {
        match self {
            Signal::Start => SignalView::Start,
            Signal::OpenChildChat => SignalView::OpenChildChat,
            Signal::OpenSantaChat => SignalView::OpenSantaChat,
            Signal::CloseChat => SignalView::CloseChat,
            Signal::ChangeWish => SignalView::ChangeWish,
            Signal::ConfirmChangeWish => SignalView::ConfirmChangeWish,
            Signal::SelectCity(c) => SignalView::SelectCity(c@),
        }
    }
}

/// An inbound event: free text or a named control signal.
#[derive(Clone, Debug, PartialEq)]
pub enum Event {
    Text(String),
    Signal(Signal),
}

/// The mathematical value of an `Event`.
pub enum EventView {
    Text(Seq<char>),
    Signal(SignalView),
}

impl DeepView for Event {
    type V = EventView;

    open spec fn deep_view(&self) -> EventView {
        match self {
            Event::Text(t) => EventView::Text(t@),
            Event::Signal(s) => EventView::Signal(s.deep_view()),
        }
    }
}

/// A fixed piece of copy text, named; the transport owns the wording.
#[derive(Clone, Copy, Debug, PartialEq, Eq, Structural)]
pub enum Notice {
    Greeting,
    SecretIntro,
    AskName,
    RepeatRegistration,
    PlainTextPlease,
    WishIntro,
    WishPrompt,
    CityPrompt,
    WaitForDistribution,
    KeepSecret,
    WishChanged,
    ChatMenuPrompt,
    ChildChatIntro,
    SantaChatIntro,
    NoChildMessages,
    NoSantaMessages,
    ChangeWishTooLate,
    ChangeWishPrompt,
    AssignmentAnnouncement,
}

/// A keyboard the transport should offer next to a message.
#[derive(Clone, Copy, Debug, PartialEq, Eq, Structural)]
pub enum Keyboard {
    ChatMenu,
    CloseChildChat,
    CloseSantaChat,
    ChangeWishEntry,
    CityChoice,
    ConfirmChangeWish,
}

/// What one outbound instruction carries.
#[derive(Clone, Debug, PartialEq)]
pub enum Payload {
    Notice(Notice),
    CityConfirmed { city: String },
    CurrentWish { wish: String },
    AssignedChildName { name: String },
    AssignedChildWish { wish: String },
    Relayed { from: Role, text: String },
    ThreadHistory { viewer: Role, text: String },
    DistributionDone { count: usize },
    DistributionFailed { reason: DistributeError },
}

/// The mathematical value of a `Payload`.
pub enum PayloadView {
    Notice(Notice),
    CityConfirmed { city: Seq<char> },
    CurrentWish { wish: Seq<char> },
    AssignedChildName { name: Seq<char> },
    AssignedChildWish { wish: Seq<char> },
    Relayed { from: Role, text: Seq<char> },
    ThreadHistory { viewer: Role, text: Seq<char> },
    DistributionDone { count: int },
    DistributionFailed { reason: DistributeError },
}

impl DeepView for Payload {
    type V = PayloadView;

    open spec fn deep_view(&self) -> PayloadView {
        match self {
            Payload::Notice(n) => PayloadView::Notice(*n),
            Payload::CityConfirmed { city } => PayloadView::CityConfirmed { city: city@ },
            Payload::CurrentWish { wish } => PayloadView::CurrentWish { wish: wish@ },
            Payload::AssignedChildName { name } => PayloadView::AssignedChildName { name: name@ },
            Payload::AssignedChildWish { wish } => PayloadView::AssignedChildWish { wish: wish@ },
            Payload::Relayed { from, text } => PayloadView::Relayed { from: *from, text: text@ },
            Payload::ThreadHistory { viewer, text } => PayloadView::ThreadHistory {
                viewer: *viewer,
                text: text@,
            },
            Payload::DistributionDone { count } => PayloadView::DistributionDone {
                count: *count as int,
            },
            Payload::DistributionFailed { reason } => PayloadView::DistributionFailed {
                reason: *reason,
            },
        }
    }
}

/// One outbound instruction: who to address, what to say, and which
/// keyboard to offer.  The core never delivers; it only returns these.
#[derive(Clone, Debug, PartialEq)]
pub struct Effect {
    pub target: i64,
    pub payload: Payload,
    pub keyboard: Option<Keyboard>,
}

/// The mathematical value of an `Effect`.
pub struct EffectView {
    pub target: int,
    pub payload: PayloadView,
    pub keyboard: Option<Keyboard>,
}

impl DeepView for Effect {
    type V = EffectView;

    open spec fn deep_view(&self) -> EffectView {
        EffectView {
            target: self.target as int,
            payload: self.payload.deep_view(),
            keyboard: self.keyboard,
        }
    }
}

/// A plain notice addressed to a participant.
pub open spec fn spec_notice(target: int, n: Notice) -> EffectView {
    EffectView { target, payload: PayloadView::Notice(n), keyboard: None }
}

/// A plain notice with a keyboard offered next to it.
pub open spec fn spec_notice_kb(target: int, n: Notice, kb: Keyboard) -> EffectView {
    EffectView { target, payload: PayloadView::Notice(n), keyboard: Some(kb) }
}

/// Whether a participant stands at the start position: either no state was
/// ever stored or the explicit `Start` value is.
pub open spec fn spec_at_start(u: UserView) -> bool {
    u.state is None || u.state == Some(State::Start)
}

/// The step for the start signal, which is dispatched before any per-state
/// handling, whatever the participant's state: registration begins when no
/// wish text is recorded yet; a participant who already holds wish text is
/// rejected with the repeat-registration notice and left unchanged.
pub open spec fn spec_start_step(u: UserView) -> (UserView, Seq<EffectView>, bool) {
    if u.wish_text.len() == 0 {
        (
            UserView { state: Some(State::ReceiveName), ..u },
            seq![
                spec_notice(u.chat_id, Notice::Greeting),
                spec_notice(u.chat_id, Notice::SecretIntro),
                spec_notice(u.chat_id, Notice::AskName),
            ],
            true,
        )
    } else {
        (u, seq![spec_notice(u.chat_id, Notice::RepeatRegistration)], false)
    }
}

/// The step that opens the wish-change flow: the participant hears their
/// current wish list with the confirmation keyboard and moves to
/// `ChangeWishList`.
pub open spec fn spec_change_wish_step(u: UserView) -> (UserView, Seq<EffectView>, bool) {
    (
        UserView { state: Some(State::ChangeWishList), ..u },
        seq![
            EffectView {
                target: u.chat_id,
                payload: PayloadView::CurrentWish { wish: u.wish_text },
                keyboard: Some(Keyboard::ConfirmChangeWish),
            },
        ],
        true,
    )
}

/// The transition function of the conversation state machine.
///
/// Given the participant, the inbound event, the current time and the
/// message threads, it yields the updated participant, the outbound
/// effects, the updated threads, and whether the participant record was
/// mutated (and so must be written back).  The start signal is dispatched
/// before per-state handling and answered in every state; the wish-change
/// signal opens the change flow from the no-sub-flow position, from
/// `Distributed` and from `Finish`.  Other events with no handler for the
/// current state leave everything unchanged and emit nothing; a missing
/// counterpart identity makes the single event a no-op.
pub open spec fn spec_advance(
    u: UserView,
    e: EventView,
    now: int,
    threads: Seq<MessageView>,
) -> (UserView, Seq<EffectView>, Seq<MessageView>, bool) {
    if e == EventView::Signal(SignalView::Start) {
        let s = spec_start_step(u);
        (s.0, s.1, threads, s.2)
    } else if spec_at_start(u) {
        match e {
            EventView::Signal(SignalView::ChangeWish) => {
                let s = spec_change_wish_step(u);
                (s.0, s.1, threads, s.2)
            },
            _ => (u, Seq::<EffectView>::empty(), threads, false),
        }
    } else {
        match u.state {
            Some(State::ReceiveName) => match e {
                EventView::Text(t) => (
                    UserView { nickname: t, state: Some(State::ReceiveWish), ..u },
                    seq![
                        spec_notice(u.chat_id, Notice::WishIntro),
                        spec_notice(u.chat_id, Notice::WishPrompt),
                    ],
                    threads,
                    true,
                ),
                _ => (
                    u,
                    seq![spec_notice(u.chat_id, Notice::PlainTextPlease)],
                    threads,
                    false,
                ),
            },
            Some(State::ReceiveWish) => match e {
                EventView::Text(t) => (
                    UserView { wish_text: t, state: Some(State::ReceiveCity), ..u },
                    seq![spec_notice_kb(u.chat_id, Notice::CityPrompt, Keyboard::CityChoice)],
                    threads,
                    true,
                ),
                _ => (
                    u,
                    seq![spec_notice(u.chat_id, Notice::PlainTextPlease)],
                    threads,
                    false,
                ),
            },
            Some(State::ReceiveCity) => match e {
                EventView::Signal(SignalView::SelectCity(c)) => (
                    UserView { city: c, state: None, ..u },
                    seq![
                        EffectView {
                            target: u.chat_id,
                            payload: PayloadView::CityConfirmed { city: c },
                            keyboard: None,
                        },
                        spec_notice_kb(
                            u.chat_id,
                            Notice::WaitForDistribution,
                            Keyboard::ChangeWishEntry,
                        ),
                        spec_notice(u.chat_id, Notice::KeepSecret),
                    ],
                    threads,
                    true,
                ),
                _ => (u, Seq::<EffectView>::empty(), threads, false),
            },
            Some(State::Distributed) => match e {
                EventView::Signal(SignalView::OpenChildChat) => match u.child {
                    Some(cid) => (
                        UserView { state: Some(State::ChildChat), ..u },
                        seq![
                            EffectView {
                                target: u.chat_id,
                                payload: match spec_find_message(threads, u.id, cid) {
                                    Some(t) => PayloadView::ThreadHistory {
                                        viewer: Role::Santa,
                                        text: t.message,
                                    },
                                    None => PayloadView::Notice(Notice::NoChildMessages),
                                },
                                keyboard: Some(Keyboard::CloseChildChat),
                            },
                            spec_notice(u.chat_id, Notice::ChildChatIntro),
                        ],
                        threads,
                        true,
                    ),
                    None => (u, Seq::<EffectView>::empty(), threads, false),
                },
                EventView::Signal(SignalView::OpenSantaChat) => match u.santa {
                    Some(sid) => (
                        UserView { state: Some(State::SantaChat), ..u },
                        seq![
                            EffectView {
                                target: u.chat_id,
                                payload: match spec_find_message(threads, sid, u.id) {
                                    Some(t) => PayloadView::ThreadHistory {
                                        viewer: Role::Child,
                                        text: t.message,
                                    },
                                    None => PayloadView::Notice(Notice::NoSantaMessages),
                                },
                                keyboard: Some(Keyboard::CloseSantaChat),
                            },
                            spec_notice(u.chat_id, Notice::SantaChatIntro),
                        ],
                        threads,
                        true,
                    ),
                    None => (u, Seq::<EffectView>::empty(), threads, false),
                },
                EventView::Signal(SignalView::ChangeWish) => {
                    let s = spec_change_wish_step(u);
                    (s.0, s.1, threads, s.2)
                },
                _ => (u, Seq::<EffectView>::empty(), threads, false),
            },
            Some(State::ChildChat) => match e {
                EventView::Signal(SignalView::CloseChat) => (
                    UserView { state: Some(State::Distributed), ..u },
                    seq![spec_notice_kb(u.chat_id, Notice::ChatMenuPrompt, Keyboard::ChatMenu)],
                    threads,
                    true,
                ),
                EventView::Text(t) => (
                    u,
                    match spec_relay(u, Direction::ToRecipient, t, now, threads).1 {
                        Some(e) => seq![e],
                        None => Seq::<EffectView>::empty(),
                    },
                    spec_relay(u, Direction::ToRecipient, t, now, threads).0,
                    false,
                ),
                _ => (u, Seq::<EffectView>::empty(), threads, false),
            },
            Some(State::SantaChat) => match e {
                EventView::Signal(SignalView::CloseChat) => (
                    UserView { state: Some(State::Distributed), ..u },
                    seq![spec_notice_kb(u.chat_id, Notice::ChatMenuPrompt, Keyboard::ChatMenu)],
                    threads,
                    true,
                ),
                EventView::Text(t) => (
                    u,
                    match spec_relay(u, Direction::ToGiver, t, now, threads).1 {
                        Some(e) => seq![e],
                        None => Seq::<EffectView>::empty(),
                    },
                    spec_relay(u, Direction::ToGiver, t, now, threads).0,
                    false,
                ),
                _ => (u, Seq::<EffectView>::empty(), threads, false),
            },
            Some(State::Finish) => match e {
                EventView::Signal(SignalView::ChangeWish) => {
                    let s = spec_change_wish_step(u);
                    (s.0, s.1, threads, s.2)
                },
                _ => (u, Seq::<EffectView>::empty(), threads, false),
            },
            Some(State::ChangeWishList) => match e {
                EventView::Text(t) => (
                    UserView { wish_text: t, state: Some(State::Finish), ..u },
                    seq![spec_notice(u.chat_id, Notice::WishChanged)],
                    threads,
                    true,
                ),
                EventView::Signal(SignalView::ConfirmChangeWish) => (
                    u,
                    seq![
                        spec_notice(
                            u.chat_id,
                            if u.santa is Some {
                                Notice::ChangeWishTooLate
                            } else {
                                Notice::ChangeWishPrompt
                            },
                        ),
                    ],
                    threads,
                    false,
                ),
                _ => (u, Seq::<EffectView>::empty(), threads, false),
            },
            _ => (u, Seq::<EffectView>::empty(), threads, false),
        }
    }
}

/// One conversation step: the written-back participant, the outbound
/// effects, and whether the participant record changed.
pub struct Step {
    pub user: User,
    pub effects: Vec<Effect>,
    pub changed: bool,
}

/// A plain notice addressed to a participant.
fn notice(target: i64, n: Notice) -> (e: Effect)
    ensures
        e.deep_view() == spec_notice(target as int, n),
{
    Effect { target, payload: Payload::Notice(n), keyboard: None }
}

/// A plain notice with a keyboard offered next to it.
fn notice_kb(target: i64, n: Notice, kb: Keyboard) -> (e: Effect)
    ensures
        e.deep_view() == spec_notice_kb(target as int, n, kb),
{
    Effect { target, payload: Payload::Notice(n), keyboard: Some(kb) }
}

/// Runs the start signal's step: begin registration, or reject a repeat.
fn start_step(user: User) -> (r: Step)
    ensures
        r.user@ == spec_start_step(user@).0,
        r.effects.deep_view() == spec_start_step(user@).1,
        r.changed == spec_start_step(user@).2,
{
    if user.wish_text.as_str().is_empty() {
        let chat_id = user.chat_id;
        let mut user = user;
        user.state = Some(State::ReceiveName);
        let mut effects: Vec<Effect> = Vec::new();
        effects.push(notice(chat_id, Notice::Greeting));
        effects.push(notice(chat_id, Notice::SecretIntro));
        effects.push(notice(chat_id, Notice::AskName));
        proof {
            assert(effects.deep_view() =~= seq![
                spec_notice(user@.chat_id, Notice::Greeting),
                spec_notice(user@.chat_id, Notice::SecretIntro),
                spec_notice(user@.chat_id, Notice::AskName),
            ]);
        }
        Step { user, effects, changed: true }
    } else {
        let mut effects: Vec<Effect> = Vec::new();
        effects.push(notice(user.chat_id, Notice::RepeatRegistration));
        proof {
            assert(effects.deep_view() =~= seq![
                spec_notice(user@.chat_id, Notice::RepeatRegistration),
            ]);
        }
        Step { user, effects, changed: false }
    }
}

/// Opens the wish-change flow for the participant.
fn change_wish_step(user: User) -> (r: Step)
    ensures
        r.user@ == spec_change_wish_step(user@).0,
        r.effects.deep_view() == spec_change_wish_step(user@).1,
        r.changed == spec_change_wish_step(user@).2,
{
    let chat_id = user.chat_id;
    let wish = user.wish_text.clone();
    let mut user = user;
    user.state = Some(State::ChangeWishList);
    let mut effects: Vec<Effect> = Vec::new();
    effects.push(Effect {
        target: chat_id,
        payload: Payload::CurrentWish { wish },
        keyboard: Some(Keyboard::ConfirmChangeWish),
    });
    proof {
        assert(effects.deep_view() =~= seq![
            EffectView {
                target: user@.chat_id,
                payload: PayloadView::CurrentWish { wish: user@.wish_text },
                keyboard: Some(Keyboard::ConfirmChangeWish),
            },
        ]);
    }
    Step { user, effects, changed: true }
}

/// Runs one transition of the conversation state machine.
///
/// The result is exactly `spec_advance` of the inputs: the same
/// (participant, event, time, threads) always yields the same step.
pub fn advance(user: User, event: Event, now: i64, relay: &mut RelayStore) -> (r: Step)
    requires
        old(relay).wf(),
    ensures
        r.user@ == spec_advance(user@, event.deep_view(), now as int, old(relay)@).0,
        r.effects.deep_view() == spec_advance(user@, event.deep_view(), now as int, old(relay)@).1,
        final(relay)@ == spec_advance(user@, event.deep_view(), now as int, old(relay)@).2,
        r.changed == spec_advance(user@, event.deep_view(), now as int, old(relay)@).3,
        final(relay).wf(),
{
    if matches!(event, Event::Signal(Signal::Start)) {
        return start_step(user);
    }
    let at_start = match user.state {
        None => true,
        Some(State::Start) => true,
        _ => false,
    };
    if at_start {
        match event {
            Event::Signal(Signal::ChangeWish) => change_wish_step(user),
            _ => {
                let effects: Vec<Effect> = Vec::new();
                proof {
                    assert(effects.deep_view() =~= Seq::<EffectView>::empty());
                }
                Step { user, effects, changed: false }
            },
        }
    } else {
        match (user.state, event) {
            (Some(State::ReceiveName), Event::Text(t)) => {
                let chat_id = user.chat_id;
                let mut user = user;
                user.nickname = t;
                user.state = Some(State::ReceiveWish);
                let mut effects: Vec<Effect> = Vec::new();
                effects.push(notice(chat_id, Notice::WishIntro));
                effects.push(notice(chat_id, Notice::WishPrompt));
                proof {
                    assert(effects.deep_view() =~= seq![
                        spec_notice(user@.chat_id, Notice::WishIntro),
                        spec_notice(user@.chat_id, Notice::WishPrompt),
                    ]);
                }
                Step { user, effects, changed: true }
            },
            (Some(State::ReceiveName), _) => {
                let mut effects: Vec<Effect> = Vec::new();
                effects.push(notice(user.chat_id, Notice::PlainTextPlease));
                proof {
                    assert(effects.deep_view() =~= seq![
                        spec_notice(user@.chat_id, Notice::PlainTextPlease),
                    ]);
                }
                Step { user, effects, changed: false }
            },
            (Some(State::ReceiveWish), Event::Text(t)) => {
                let chat_id = user.chat_id;
                let mut user = user;
                user.wish_text = t;
                user.state = Some(State::ReceiveCity);
                let mut effects: Vec<Effect> = Vec::new();
                effects.push(notice_kb(chat_id, Notice::CityPrompt, Keyboard::CityChoice));
                proof {
                    assert(effects.deep_view() =~= seq![
                        spec_notice_kb(user@.chat_id, Notice::CityPrompt, Keyboard::CityChoice),
                    ]);
                }
                Step { user, effects, changed: true }
            },
            (Some(State::ReceiveWish), _) => {
                let mut effects: Vec<Effect> = Vec::new();
                effects.push(notice(user.chat_id, Notice::PlainTextPlease));
                proof {
                    assert(effects.deep_view() =~= seq![
                        spec_notice(user@.chat_id, Notice::PlainTextPlease),
                    ]);
                }
                Step { user, effects, changed: false }
            },
            (Some(State::ReceiveCity), Event::Signal(Signal::SelectCity(c))) => {
                let chat_id = user.chat_id;
                let mut user = user;
                user.city = c.clone();
                user.state = None;
                let mut effects: Vec<Effect> = Vec::new();
                effects.push(Effect {
                    target: chat_id,
                    payload: Payload::CityConfirmed { city: c },
                    keyboard: None,
                });
                effects.push(
                    notice_kb(chat_id, Notice::WaitForDistribution, Keyboard::ChangeWishEntry),
                );
                effects.push(notice(chat_id, Notice::KeepSecret));
                proof {
                    assert(effects.deep_view() =~= seq![
                        EffectView {
                            target: user@.chat_id,
                            payload: PayloadView::CityConfirmed { city: user@.city },
                            keyboard: None,
                        },
                        spec_notice_kb(
                            user@.chat_id,
                            Notice::WaitForDistribution,
                            Keyboard::ChangeWishEntry,
                        ),
                        spec_notice(user@.chat_id, Notice::KeepSecret),
                    ]);
                }
                Step { user, effects, changed: true }
            },
            (Some(State::Distributed), Event::Signal(Signal::OpenChildChat)) => {
                match user.child {
                    Some(cid) => {
                        let chat_id = user.chat_id;
                        let history = match relay.find_message(user.id, cid) {
                            Some(t) => Payload::ThreadHistory {
                                viewer: Role::Santa,
                                text: t.message,
                            },
                            None => Payload::Notice(Notice::NoChildMessages),
                        };
                        let mut user = user;
                        user.state = Some(State::ChildChat);
                        let mut effects: Vec<Effect> = Vec::new();
                        effects.push(Effect {
                            target: chat_id,
                            payload: history,
                            keyboard: Some(Keyboard::CloseChildChat),
                        });
                        effects.push(notice(chat_id, Notice::ChildChatIntro));
                        Step { user, effects, changed: true }
                    },
                    None => {
                        let effects: Vec<Effect> = Vec::new();
                        proof {
                            assert(effects.deep_view() =~= Seq::<EffectView>::empty());
                        }
                        Step { user, effects, changed: false }
                    },
                }
            },
            (Some(State::Distributed), Event::Signal(Signal::OpenSantaChat)) => {
                match user.santa {
                    Some(sid) => {
                        let chat_id = user.chat_id;
                        let history = match relay.find_message(sid, user.id) {
                            Some(t) => Payload::ThreadHistory {
                                viewer: Role::Child,
                                text: t.message,
                            },
                            None => Payload::Notice(Notice::NoSantaMessages),
                        };
                        let mut user = user;
                        user.state = Some(State::SantaChat);
                        let mut effects: Vec<Effect> = Vec::new();
                        effects.push(Effect {
                            target: chat_id,
                            payload: history,
                            keyboard: Some(Keyboard::CloseSantaChat),
                        });
                        effects.push(notice(chat_id, Notice::SantaChatIntro));
                        Step { user, effects, changed: true }
                    },
                    None => Step { user, effects: Vec::new(), changed: false },
                }
            },
            (Some(State::Distributed), Event::Signal(Signal::ChangeWish)) => change_wish_step(
                user,
            ),
            (Some(State::ChildChat), Event::Signal(Signal::CloseChat)) => {
                let chat_id = user.chat_id;
                let mut user = user;
                user.state = Some(State::Distributed);
                let mut effects: Vec<Effect> = Vec::new();
                effects.push(notice_kb(chat_id, Notice::ChatMenuPrompt, Keyboard::ChatMenu));
                Step { user, effects, changed: true }
            },
            (Some(State::ChildChat), Event::Text(t)) => {
                let relayed = crate::relay::relay(&user, Direction::ToRecipient, t, now, relay);
                let mut effects: Vec<Effect> = Vec::new();
                match relayed {
                    Some(e) => {
                        effects.push(e);
                    },
                    None => {},
                }
                proof {
                    if effects@.len() == 1 {
                        assert(effects.deep_view() =~= seq![effects@[0].deep_view()]);
                    } else {
                        assert(effects.deep_view() =~= Seq::<EffectView>::empty());
                    }
                }
                Step { user, effects, changed: false }
            },
            (Some(State::SantaChat), Event::Signal(Signal::CloseChat)) => {
                let chat_id = user.chat_id;
                let mut user = user;
                user.state = Some(State::Distributed);
                let mut effects: Vec<Effect> = Vec::new();
                effects.push(notice_kb(chat_id, Notice::ChatMenuPrompt, Keyboard::ChatMenu));
                Step { user, effects, changed: true }
            },
            (Some(State::SantaChat), Event::Text(t)) => {
                let relayed = crate::relay::relay(&user, Direction::ToGiver, t, now, relay);
                let mut effects: Vec<Effect> = Vec::new();
                match relayed {
                    Some(e) => {
                        effects.push(e);
                    },
                    None => {},
                }
                proof {
                    if effects@.len() == 1 {
                        assert(effects.deep_view() =~= seq![effects@[0].deep_view()]);
                    } else {
                        assert(effects.deep_view() =~= Seq::<EffectView>::empty());
                    }
                }
                Step { user, effects, changed: false }
            },
            (Some(State::Finish), Event::Signal(Signal::ChangeWish)) => change_wish_step(user),
            (Some(State::ChangeWishList), Event::Text(t)) => {
                let chat_id = user.chat_id;
                let mut user = user;
                user.wish_text = t;
                user.state = Some(State::Finish);
                let mut effects: Vec<Effect> = Vec::new();
                effects.push(notice(chat_id, Notice::WishChanged));
                Step { user, effects, changed: true }
            },
            (Some(State::ChangeWishList), Event::Signal(Signal::ConfirmChangeWish)) => {
                let n = if user.santa.is_some() {
                    Notice::ChangeWishTooLate
                } else {
                    Notice::ChangeWishPrompt
                };
                let mut effects: Vec<Effect> = Vec::new();
                effects.push(notice(user.chat_id, n));
                Step { user, effects, changed: false }
            },
            (_, _) => Step { user, effects: Vec::new(), changed: false },
        }
    }
}

/// One inbound transport event: the endpoint it came from, the display
/// name the transport knows the sender by, and the decoded event.
pub struct Incoming {
    pub chat_id: i64,
    pub sender_name: String,
    pub event: Event,
}

/// The participant an inbound event concerns: the stored one, or a fresh
/// default record synthesized for an unseen identity.
pub open spec fn spec_incoming_user(
    rows: Seq<UserRecordView>,
    chat_id: int,
    name: Seq<char>,
    now: int,
) -> UserView {
    match spec_get_user(rows, chat_id) {
        Some(u) => u,
        None => spec_default_user(chat_id, name, now),
    }
}

/// One whole controller round: resolve the participant, run the machine,
/// write the participant back when the transition mutated it.
pub open spec fn spec_handle_event(
    rows: Seq<UserRecordView>,
    threads: Seq<MessageView>,
    chat_id: int,
    name: Seq<char>,
    e: EventView,
    now: int,
) -> (Seq<UserRecordView>, Seq<MessageView>, Seq<EffectView>) {
    let u = spec_incoming_user(rows, chat_id, name, now);
    let step = spec_advance(u, e, now, threads);
    ((if step.3 {
        spec_save_user(rows, step.0)
    } else {
        rows
    }), step.2, step.1)
}

/// Processes one inbound event against the stores and returns what must be
/// delivered.
pub fn handle_event(
    participants: &mut ParticipantStore,
    relay: &mut RelayStore,
    incoming: Incoming,
    now: i64,
) -> (effects: Vec<Effect>)
    requires
        old(participants).wf(),
        old(relay).wf(),
    ensures
        (final(participants)@, final(relay)@, effects.deep_view()) == spec_handle_event(
            old(participants)@,
            old(relay)@,
            incoming.chat_id as int,
            incoming.sender_name@,
            incoming.event.deep_view(),
            now as int,
        ),
        final(participants).wf(),
        final(relay).wf(),
{
    let Incoming { chat_id, sender_name, event } = incoming;
    let user = match participants.get_user(chat_id) {
        Some(u) => u,
        None => User::default_user_at(chat_id, sender_name, now),
    };
    let step = advance(user, event, now, relay);
    if step.changed {
        participants.save_user(step.user);
    }
    step.effects
}

/// State transitions are deterministic: the same participant, event, time
/// and thread store always yield the same participant, effects, threads
/// and write-back decision.
pub proof fn lemma_advance_deterministic(
    u1: UserView,
    u2: UserView,
    e1: EventView,
    e2: EventView,
    now1: int,
    now2: int,
    t1: Seq<MessageView>,
    t2: Seq<MessageView>,
)
    requires
        u1 == u2,
        e1 == e2,
        now1 == now2,
        t1 == t2,
    ensures
        spec_advance(u1, e1, now1, t1) == spec_advance(u2, e2, now2, t2),
{
}

/// Re-sending the start signal to a participant who already has non-empty
/// wish text produces exactly the repeat-registration notice and changes
/// neither the participant nor the threads, and nothing is written back --
/// whatever state the participant is in.
pub proof fn lemma_repeat_start_rejected(u: UserView, now: int, threads: Seq<MessageView>)
    requires
        u.wish_text.len() > 0,
    ensures
        spec_advance(u, EventView::Signal(SignalView::Start), now, threads) == (
            u,
            seq![spec_notice(u.chat_id, Notice::RepeatRegistration)],
            threads,
            false,
        ),
{
}

/// The same, seen through the controller: a start signal from any stored
/// participant with non-empty wish text leaves the participant store and
/// the threads exactly as they were and emits only the repeat-registration
/// notice.
pub proof fn lemma_repeat_start_preserves_store(
    rows: Seq<UserRecordView>,
    threads: Seq<MessageView>,
    chat_id: int,
    name: Seq<char>,
    now: int,
)
    requires
        spec_get_user(rows, chat_id) matches Some(u) && u.wish_text.len() > 0,
    ensures
        spec_handle_event(
            rows,
            threads,
            chat_id,
            name,
            EventView::Signal(SignalView::Start),
            now,
        ) == (
            rows,
            threads,
            seq![
                spec_notice(
                    spec_incoming_user(rows, chat_id, name, now).chat_id,
                    Notice::RepeatRegistration,
                ),
            ],
        ),
{
    lemma_repeat_start_rejected(spec_incoming_user(rows, chat_id, name, now), now, threads);
}

} // verus!
