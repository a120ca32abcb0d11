use secret_santa::State;
use secret_santa::User;
use secret_santa::UserRecord;

fn sample_record(id: i64, state: &str) -> UserRecord {
    UserRecord {
        id,
        chat_id: id,
        child: Some(id + 1),
        santa: Some(id + 2),
        nickname: String::from("nick"),
        username: String::from("user"),
        wish_text: String::from("wish"),
        state: String::from(state),
        city: String::from("north"),
        create_date: 7,
    }
}

#[test]
fn to_user_parses_the_stored_state_label() {
    let u = User::to_user(sample_record(1, "Distributed"));
    assert_eq!(u.id, 1);
    assert_eq!(u.child, Some(2));
    assert_eq!(u.santa, Some(3));
    assert_eq!(u.state, Some(State::Distributed));
    assert_eq!(u.create_date, 7);
}

#[test]
fn to_user_reads_a_strange_label_as_no_state() {
    let u = User::to_user(sample_record(1, "NotAState"));
    assert_eq!(u.state, None);
}

#[test]
fn to_users_converts_in_order() {
    let rows = vec![sample_record(1, "Finish"), sample_record(5, "")];
    let users = User::to_users(rows);
    assert_eq!(users.len(), 2);
    assert_eq!(users[0].id, 1);
    assert_eq!(users[0].state, Some(State::Finish));
    assert_eq!(users[1].id, 5);
    assert_eq!(users[1].state, None);
}

#[test]
fn default_user_starts_unregistered() {
    let u = User::default_user(9, String::from("alice")).unwrap();
    assert_eq!(u.id, 9);
    assert_eq!(u.chat_id, 9);
    assert_eq!(u.nickname, String::from("alice"));
    assert_eq!(u.username, String::from(""));
    assert_eq!(u.wish_text, String::from(""));
    assert_eq!(u.city, String::from(""));
    assert_eq!(u.child, None);
    assert_eq!(u.santa, None);
    assert_eq!(u.state, None);
}

#[test]
fn set_santa_and_set_child_record_the_counterparts() {
    let mut u = User::default_user_at(1, String::from("n"), 0);
    u.set_santa(2);
    u.set_child(3);
    assert_eq!(u.santa, Some(2));
    assert_eq!(u.child, Some(3));
    assert_eq!(u.id, 1);
}
