use secret_santa::Direction;
use secret_santa::Message;
use secret_santa::Payload;
use secret_santa::RelayStore;
use secret_santa::State;
use secret_santa::User;
use secret_santa::relay;
use secret_santa::Role;
use secret_santa::render_thread;
use secret_santa::replace_all;
use secret_santa::str_eq;
use secret_santa::tagged_text;

fn relay_message(santa_id: i64, child_id: i64, text: &str, when: i64) -> Message {
    Message {
        santa_id,
        child_id,
        message: String::from(text),
        create_date: when,
    }
}

#[test]
fn two_sends_same_direction_accumulate_in_one_thread() {
    let mut store = RelayStore::new();
    store.save_message(relay_message(1, 2, "A", 10));
    store.save_message(relay_message(1, 2, "B", 20));
    let thread = store.find_message(1, 2).unwrap();
    assert_eq!(thread.message, String::from("A\nB"));
    // The thread carries the last-update timestamp.
    assert_eq!(thread.create_date, 20);
    assert_eq!(store.thread_count(1, 2), 1);
}

#[test]
fn opposite_directions_use_separate_threads() {
    let mut store = RelayStore::new();
    store.save_message(relay_message(1, 2, "to you", 1));
    store.save_message(relay_message(2, 1, "to me", 2));
    assert_eq!(store.find_message(1, 2).unwrap().message, String::from("to you"));
    assert_eq!(store.find_message(2, 1).unwrap().message, String::from("to me"));
    assert_eq!(store.thread_count(1, 2), 1);
    assert_eq!(store.thread_count(2, 1), 1);
}

#[test]
fn find_message_missing_pair_is_none() {
    let store = RelayStore::new();
    assert!(store.find_message(1, 2).is_none());
}

fn chat_user(id: i64) -> User {
    User {
        id,
        chat_id: id,
        child: None,
        santa: None,
        nickname: String::from("n"),
        username: String::from("u"),
        wish_text: String::from(""),
        city: String::from(""),
        state: Some(State::ChildChat),
        create_date: 0,
    }
}

#[test]
fn relay_addresses_the_counterpart_and_tags_the_line() {
    let mut store = RelayStore::new();
    let mut sender = chat_user(1);
    sender.child = Some(2);
    let effect = relay(&sender, Direction::ToRecipient, String::from("hi"), 3, &mut store)
        .unwrap();
    assert_eq!(effect.target, 2);
    assert!(matches!(effect.payload, Payload::Relayed { .. }));
    assert_eq!(store.find_message(1, 2).unwrap().message, String::from("$santa: \nhi"));
}

#[test]
fn relay_without_counterpart_relays_nothing() {
    let mut store = RelayStore::new();
    let sender = chat_user(1);
    assert!(relay(&sender, Direction::ToRecipient, String::from("hi"), 3, &mut store).is_none());
    assert!(relay(&sender, Direction::ToGiver, String::from("hi"), 3, &mut store).is_none());
    assert_eq!(store.thread_count(1, 2), 0);
}

#[test]
fn tagged_text_prefixes_the_role_placeholder() {
    assert_eq!(tagged_text(Role::Santa, "hi"), String::from("$santa: \nhi"));
    assert_eq!(tagged_text(Role::Child, "hi"), String::from("$child: \nhi"));
}

#[test]
fn render_thread_substitutes_role_words() {
    let raw = "$santa: \nhello\n$child: \nthanks";
    let shown = render_thread(raw, "You", "Ward");
    assert_eq!(shown, String::from("You: \nhello\nWard: \nthanks"));
}

#[test]
fn render_thread_touches_placeholders_inside_user_text_too() {
    let shown = render_thread("$santa: \nI am $santa!", "You", "Ward");
    assert_eq!(shown, String::from("You: \nI am You!"));
}

#[test]
fn replace_all_scans_left_to_right_without_overlap() {
    assert_eq!(replace_all("aaa", "aa", "b"), String::from("ba"));
    assert_eq!(replace_all("abcabc", "abc", "x"), String::from("xx"));
    assert_eq!(replace_all("", "abc", "x"), String::from(""));
    assert_eq!(replace_all("no match here", "abc", "x"), String::from("no match here"));
}

#[test]
fn str_eq_compares_characters() {
    assert!(str_eq("", ""));
    assert!(str_eq("abc", "abc"));
    assert!(!str_eq("abc", "abd"));
    assert!(!str_eq("abc", "ab"));
}
