use secret_santa::Effect;
use secret_santa::Event;
use secret_santa::Keyboard;
use secret_santa::Notice;
use secret_santa::Payload;
use secret_santa::RelayStore;
use secret_santa::Role;
use secret_santa::Signal;
use secret_santa::State;
use secret_santa::User;
use secret_santa::advance;

fn machine_user(id: i64, state: Option<State>) -> User {
    User {
        id,
        chat_id: id,
        child: None,
        santa: None,
        nickname: String::from("nick"),
        username: String::from("user"),
        wish_text: String::from(""),
        city: String::from(""),
        state,
        create_date: 0,
    }
}

fn notice_to(target: i64, n: Notice) -> Effect {
    Effect { target, payload: Payload::Notice(n), keyboard: None }
}

#[test]
fn start_signal_begins_registration() {
    let mut relay = RelayStore::new();
    let user = machine_user(7, None);
    let step = advance(user, Event::Signal(Signal::Start), 0, &mut relay);
    assert_eq!(step.user.state, Some(State::ReceiveName));
    assert!(step.changed);
    assert_eq!(
        step.effects,
        vec![
            notice_to(7, Notice::Greeting),
            notice_to(7, Notice::SecretIntro),
            notice_to(7, Notice::AskName),
        ]
    );
}

#[test]
fn repeat_start_with_wish_is_rejected_unchanged() {
    let mut relay = RelayStore::new();
    let mut user = machine_user(7, None);
    user.wish_text = String::from("a sled");
    let before = user.clone();
    let step = advance(user, Event::Signal(Signal::Start), 0, &mut relay);
    assert_eq!(step.user, before);
    assert!(!step.changed);
    assert_eq!(step.effects, vec![notice_to(7, Notice::RepeatRegistration)]);
}

#[test]
fn repeat_start_is_rejected_in_every_state() {
    for state in [
        Some(State::ReceiveCity),
        Some(State::Distributed),
        Some(State::ChildChat),
        Some(State::SantaChat),
        Some(State::Finish),
        Some(State::ChangeWishList),
    ] {
        let mut relay = RelayStore::new();
        let mut user = machine_user(7, state);
        user.wish_text = String::from("a sled");
        let before = user.clone();
        let step = advance(user, Event::Signal(Signal::Start), 0, &mut relay);
        assert_eq!(step.user, before);
        assert!(!step.changed);
        assert_eq!(step.effects, vec![notice_to(7, Notice::RepeatRegistration)]);
    }
}

#[test]
fn start_without_wish_restarts_registration_from_any_state() {
    let mut relay = RelayStore::new();
    let user = machine_user(7, Some(State::ReceiveWish));
    let step = advance(user, Event::Signal(Signal::Start), 0, &mut relay);
    assert_eq!(step.user.state, Some(State::ReceiveName));
    assert!(step.changed);
}

#[test]
fn change_wish_opens_flow_while_awaiting_distribution() {
    let mut relay = RelayStore::new();
    let mut user = machine_user(7, None);
    user.wish_text = String::from("old wish");
    let step = advance(user, Event::Signal(Signal::ChangeWish), 0, &mut relay);
    assert_eq!(step.user.state, Some(State::ChangeWishList));
    assert!(step.changed);
    assert_eq!(
        step.effects,
        vec![Effect {
            target: 7,
            payload: Payload::CurrentWish { wish: String::from("old wish") },
            keyboard: Some(Keyboard::ConfirmChangeWish),
        }]
    );
}

#[test]
fn change_wish_opens_flow_from_distributed() {
    let mut relay = RelayStore::new();
    let mut user = machine_user(7, Some(State::Distributed));
    user.wish_text = String::from("old wish");
    let step = advance(user, Event::Signal(Signal::ChangeWish), 0, &mut relay);
    assert_eq!(step.user.state, Some(State::ChangeWishList));
    assert_eq!(
        step.effects,
        vec![Effect {
            target: 7,
            payload: Payload::CurrentWish { wish: String::from("old wish") },
            keyboard: Some(Keyboard::ConfirmChangeWish),
        }]
    );
}

#[test]
fn whole_wish_change_round_trip() {
    let mut relay = RelayStore::new();
    let mut user = machine_user(7, None);
    user.wish_text = String::from("old wish");
    let step = advance(user, Event::Signal(Signal::ChangeWish), 0, &mut relay);
    let step = advance(step.user, Event::Text(String::from("new wish")), 0, &mut relay);
    assert_eq!(step.user.wish_text, String::from("new wish"));
    assert_eq!(step.user.state, Some(State::Finish));
    let step = advance(step.user, Event::Signal(Signal::ChangeWish), 0, &mut relay);
    assert_eq!(step.user.state, Some(State::ChangeWishList));
    assert_eq!(
        step.effects,
        vec![Effect {
            target: 7,
            payload: Payload::CurrentWish { wish: String::from("new wish") },
            keyboard: Some(Keyboard::ConfirmChangeWish),
        }]
    );
}

#[test]
fn explicit_start_state_behaves_like_absent_state() {
    let mut relay = RelayStore::new();
    let user = machine_user(7, Some(State::Start));
    let step = advance(user, Event::Signal(Signal::Start), 0, &mut relay);
    assert_eq!(step.user.state, Some(State::ReceiveName));
    assert!(step.changed);
}

#[test]
fn receive_name_stores_nickname() {
    let mut relay = RelayStore::new();
    let user = machine_user(7, Some(State::ReceiveName));
    let step = advance(user, Event::Text(String::from("Alice")), 0, &mut relay);
    assert_eq!(step.user.nickname, String::from("Alice"));
    assert_eq!(step.user.state, Some(State::ReceiveWish));
    assert!(step.changed);
    assert_eq!(
        step.effects,
        vec![notice_to(7, Notice::WishIntro), notice_to(7, Notice::WishPrompt)]
    );
}

#[test]
fn receive_name_rejects_non_text() {
    let mut relay = RelayStore::new();
    let user = machine_user(7, Some(State::ReceiveName));
    let step = advance(user, Event::Signal(Signal::CloseChat), 0, &mut relay);
    assert_eq!(step.user.state, Some(State::ReceiveName));
    assert!(!step.changed);
    assert_eq!(step.effects, vec![notice_to(7, Notice::PlainTextPlease)]);
}

#[test]
fn receive_wish_stores_wish_text() {
    let mut relay = RelayStore::new();
    let user = machine_user(7, Some(State::ReceiveWish));
    let step = advance(user, Event::Text(String::from("a red ball")), 0, &mut relay);
    assert_eq!(step.user.wish_text, String::from("a red ball"));
    assert_eq!(step.user.state, Some(State::ReceiveCity));
    assert_eq!(
        step.effects,
        vec![Effect {
            target: 7,
            payload: Payload::Notice(Notice::CityPrompt),
            keyboard: Some(Keyboard::CityChoice),
        }]
    );
}

#[test]
fn city_selection_stores_city_and_awaits_distribution() {
    let mut relay = RelayStore::new();
    let user = machine_user(7, Some(State::ReceiveCity));
    let step = advance(
        user,
        Event::Signal(Signal::SelectCity(String::from("north"))),
        0,
        &mut relay,
    );
    assert_eq!(step.user.city, String::from("north"));
    assert_eq!(step.user.state, None);
    assert!(step.changed);
    assert_eq!(step.effects.len(), 3);
    assert_eq!(
        step.effects[0],
        Effect {
            target: 7,
            payload: Payload::CityConfirmed { city: String::from("north") },
            keyboard: None,
        }
    );
    assert_eq!(
        step.effects[1],
        Effect {
            target: 7,
            payload: Payload::Notice(Notice::WaitForDistribution),
            keyboard: Some(Keyboard::ChangeWishEntry),
        }
    );
    assert_eq!(step.effects[2], notice_to(7, Notice::KeepSecret));
}

#[test]
fn distributed_opens_child_chat() {
    let mut relay = RelayStore::new();
    let mut user = machine_user(7, Some(State::Distributed));
    user.child = Some(9);
    let step = advance(user, Event::Signal(Signal::OpenChildChat), 0, &mut relay);
    assert_eq!(step.user.state, Some(State::ChildChat));
    assert!(step.changed);
    assert_eq!(
        step.effects,
        vec![
            Effect {
                target: 7,
                payload: Payload::Notice(Notice::NoChildMessages),
                keyboard: Some(Keyboard::CloseChildChat),
            },
            notice_to(7, Notice::ChildChatIntro),
        ]
    );
}

#[test]
fn distributed_opens_santa_chat_with_history() {
    let mut relay = RelayStore::new();
    // The giver (id 3) already wrote to participant 7.
    let mut giver = machine_user(3, Some(State::ChildChat));
    giver.child = Some(7);
    let sent = advance(giver, Event::Text(String::from("ho ho")), 5, &mut relay);
    assert_eq!(sent.effects.len(), 1);

    let mut user = machine_user(7, Some(State::Distributed));
    user.santa = Some(3);
    let step = advance(user, Event::Signal(Signal::OpenSantaChat), 6, &mut relay);
    assert_eq!(step.user.state, Some(State::SantaChat));
    assert_eq!(
        step.effects[0],
        Effect {
            target: 7,
            payload: Payload::ThreadHistory {
                viewer: Role::Child,
                text: String::from("$santa: \nho ho"),
            },
            keyboard: Some(Keyboard::CloseSantaChat),
        }
    );
    assert_eq!(step.effects[1], notice_to(7, Notice::SantaChatIntro));
}

#[test]
fn distributed_ignores_open_chat_without_counterpart() {
    let mut relay = RelayStore::new();
    let user = machine_user(7, Some(State::Distributed));
    let before = user.clone();
    let step = advance(user, Event::Signal(Signal::OpenChildChat), 0, &mut relay);
    assert_eq!(step.user, before);
    assert!(!step.changed);
    assert!(step.effects.is_empty());
}

#[test]
fn child_chat_close_returns_to_distributed() {
    let mut relay = RelayStore::new();
    let mut user = machine_user(7, Some(State::ChildChat));
    user.child = Some(9);
    let step = advance(user, Event::Signal(Signal::CloseChat), 0, &mut relay);
    assert_eq!(step.user.state, Some(State::Distributed));
    assert_eq!(
        step.effects,
        vec![Effect {
            target: 7,
            payload: Payload::Notice(Notice::ChatMenuPrompt),
            keyboard: Some(Keyboard::ChatMenu),
        }]
    );
}

#[test]
fn child_chat_text_relays_to_recipient() {
    let mut relay = RelayStore::new();
    let mut user = machine_user(7, Some(State::ChildChat));
    user.child = Some(9);
    let step = advance(user, Event::Text(String::from("hello")), 11, &mut relay);
    assert_eq!(step.user.state, Some(State::ChildChat));
    assert!(!step.changed);
    assert_eq!(
        step.effects,
        vec![Effect {
            target: 9,
            payload: Payload::Relayed { from: Role::Santa, text: String::from("hello") },
            keyboard: None,
        }]
    );
    let thread = relay.find_message(7, 9).unwrap();
    assert_eq!(thread.message, String::from("$santa: \nhello"));
    assert_eq!(thread.create_date, 11);
}

#[test]
fn santa_chat_text_relays_to_giver() {
    let mut relay = RelayStore::new();
    let mut user = machine_user(7, Some(State::SantaChat));
    user.santa = Some(3);
    let step = advance(user, Event::Text(String::from("thanks")), 12, &mut relay);
    assert!(!step.changed);
    assert_eq!(
        step.effects,
        vec![Effect {
            target: 3,
            payload: Payload::Relayed { from: Role::Child, text: String::from("thanks") },
            keyboard: None,
        }]
    );
    let thread = relay.find_message(3, 7).unwrap();
    assert_eq!(thread.message, String::from("$child: \nthanks"));
}

#[test]
fn finish_change_wish_opens_change_flow() {
    let mut relay = RelayStore::new();
    let mut user = machine_user(7, Some(State::Finish));
    user.wish_text = String::from("old wish");
    let step = advance(user, Event::Signal(Signal::ChangeWish), 0, &mut relay);
    assert_eq!(step.user.state, Some(State::ChangeWishList));
    assert_eq!(
        step.effects,
        vec![Effect {
            target: 7,
            payload: Payload::CurrentWish { wish: String::from("old wish") },
            keyboard: Some(Keyboard::ConfirmChangeWish),
        }]
    );
}

#[test]
fn change_wish_list_text_overwrites_wish() {
    let mut relay = RelayStore::new();
    let mut user = machine_user(7, Some(State::ChangeWishList));
    user.wish_text = String::from("old wish");
    let step = advance(user, Event::Text(String::from("new wish")), 0, &mut relay);
    assert_eq!(step.user.wish_text, String::from("new wish"));
    assert_eq!(step.user.state, Some(State::Finish));
    assert_eq!(step.effects, vec![notice_to(7, Notice::WishChanged)]);
}

#[test]
fn change_wish_confirm_depends_on_assignment() {
    let mut relay = RelayStore::new();
    let free = machine_user(7, Some(State::ChangeWishList));
    let step = advance(free, Event::Signal(Signal::ConfirmChangeWish), 0, &mut relay);
    assert_eq!(step.effects, vec![notice_to(7, Notice::ChangeWishPrompt)]);

    let mut late = machine_user(7, Some(State::ChangeWishList));
    late.santa = Some(3);
    let step = advance(late, Event::Signal(Signal::ConfirmChangeWish), 0, &mut relay);
    assert_eq!(step.effects, vec![notice_to(7, Notice::ChangeWishTooLate)]);
}

#[test]
fn unhandled_event_is_a_no_op() {
    let mut relay = RelayStore::new();
    let user = machine_user(7, Some(State::ReceiveCity));
    let before = user.clone();
    let step = advance(user, Event::Text(String::from("not a selection")), 0, &mut relay);
    assert_eq!(step.user, before);
    assert!(!step.changed);
    assert!(step.effects.is_empty());
}

#[test]
fn transitions_are_deterministic() {
    let mut relay_one = RelayStore::new();
    let mut relay_two = RelayStore::new();
    let user_one = machine_user(7, Some(State::ReceiveName));
    let user_two = machine_user(7, Some(State::ReceiveName));
    let step_one = advance(user_one, Event::Text(String::from("Alice")), 4, &mut relay_one);
    let step_two = advance(user_two, Event::Text(String::from("Alice")), 4, &mut relay_two);
    assert_eq!(step_one.user, step_two.user);
    assert_eq!(step_one.effects, step_two.effects);
    assert_eq!(step_one.changed, step_two.changed);
}
