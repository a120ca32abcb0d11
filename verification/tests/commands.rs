use secret_santa::Command;
use secret_santa::CommandAction;
use secret_santa::DistributeError;
use secret_santa::Notice;
use secret_santa::ParticipantStore;
use secret_santa::Payload;
use secret_santa::State;
use secret_santa::User;
use secret_santa::dispatch_command;
use secret_santa::notify_assignments;
use secret_santa::parse_command;
use secret_santa::run_distribution;
use secret_santa::run_notify;

fn city_user(id: i64, nickname: &str, city: &str) -> User {
    User {
        id,
        chat_id: id,
        child: None,
        santa: None,
        nickname: String::from(nickname),
        username: String::from("unrelated"),
        wish_text: String::from("wish"),
        city: String::from(city),
        state: None,
        create_date: 0,
    }
}

#[test]
fn parse_command_recognizes_each_command() {
    assert_eq!(parse_command("/start"), Some(Command::Start));
    assert_eq!(parse_command("/help"), Some(Command::Help));
    assert_eq!(parse_command("/list"), Some(Command::List));
    assert_eq!(parse_command("/distribute"), Some(Command::Distribute));
    assert_eq!(parse_command("/notify"), Some(Command::Notify));
    assert_eq!(parse_command("/unknown"), None);
    assert_eq!(parse_command("hello"), None);
}

#[test]
fn administrative_commands_answer_only_to_the_administrator() {
    let admin: i64 = 10;
    assert_eq!(dispatch_command(Command::List, admin, admin), CommandAction::ListUsers);
    assert_eq!(dispatch_command(Command::List, 11, admin), CommandAction::Ignore);
    assert_eq!(
        dispatch_command(Command::Distribute, admin, admin),
        CommandAction::RunDistribution
    );
    assert_eq!(dispatch_command(Command::Distribute, 11, admin), CommandAction::Ignore);
    assert_eq!(dispatch_command(Command::Notify, admin, admin), CommandAction::RunNotify);
    assert_eq!(dispatch_command(Command::Notify, 11, admin), CommandAction::Ignore);
    assert_eq!(
        dispatch_command(Command::Start, 11, admin),
        CommandAction::StartRegistration
    );
    assert_eq!(dispatch_command(Command::Help, 11, admin), CommandAction::ShowHelp);
}

#[test]
fn run_distribution_pairs_and_announces() {
    let mut store = ParticipantStore::new();
    store.save_user(city_user(1, "P1", "north"));
    store.save_user(city_user(2, "P2", "north"));
    store.save_user(city_user(3, "P3", "south"));
    store.save_user(city_user(4, "P4", "south"));
    let effects = run_distribution(&mut store, "north", "south", 100);
    assert_eq!(effects[0].target, 100);
    assert!(matches!(effects[0].payload, Payload::DistributionDone { count: 4 }));
    // One announcement per stored participant, after the summary.
    assert_eq!(effects.len(), 5);
    for e in &effects[1..] {
        assert!(matches!(e.payload, Payload::Notice(Notice::AssignmentAnnouncement)));
    }
    for u in store.get_all_users() {
        assert!(u.santa.is_some());
        assert!(u.child.is_some());
        assert_eq!(u.state, Some(State::Distributed));
    }
}

#[test]
fn run_distribution_reports_unequal_groups_and_stores_nothing() {
    let mut store = ParticipantStore::new();
    store.save_user(city_user(1, "P1", "north"));
    store.save_user(city_user(3, "P3", "south"));
    store.save_user(city_user(4, "P4", "south"));
    let effects = run_distribution(&mut store, "north", "south", 100);
    assert_eq!(effects.len(), 1);
    assert_eq!(effects[0].target, 100);
    assert!(matches!(
        effects[0].payload,
        Payload::DistributionFailed { reason: DistributeError::UnequalGroupSizes }
    ));
    for u in store.get_all_users() {
        assert_eq!(u.santa, None);
        assert_eq!(u.child, None);
    }
}

#[test]
fn notify_assignments_announces_resolved_recipients() {
    let mut recipient = city_user(2, "Ward", "south");
    recipient.wish_text = String::from("a scarf");
    let mut giver = city_user(1, "Giver", "north");
    giver.child = Some(2);
    let users = vec![giver, recipient];
    let (updated, effects) = notify_assignments(users);
    assert_eq!(effects.len(), 3);
    assert_eq!(effects[0].target, 1);
    // The announcement carries the recipient's nickname, the display name
    // registration stores.
    assert_eq!(
        effects[0].payload,
        Payload::AssignedChildName { name: String::from("Ward") }
    );
    assert_eq!(
        effects[1].payload,
        Payload::AssignedChildWish { wish: String::from("a scarf") }
    );
    assert!(matches!(effects[2].payload, Payload::Notice(Notice::ChatMenuPrompt)));
    assert_eq!(updated[0].state, Some(State::Distributed));
    // The recipient has no recipient of their own and stays untouched.
    assert_eq!(updated[1].state, None);
}

#[test]
fn notify_assignments_skips_missing_counterparts() {
    let mut orphan = city_user(1, "Giver", "north");
    orphan.child = Some(99);
    let (updated, effects) = notify_assignments(vec![orphan]);
    assert!(effects.is_empty());
    assert_eq!(updated[0].state, None);
}

#[test]
fn run_notify_marks_notified_users_distributed() {
    let mut store = ParticipantStore::new();
    store.save_user(city_user(1, "P1", "north"));
    store.save_user(city_user(2, "P2", "north"));
    store.save_user(city_user(3, "P3", "south"));
    store.save_user(city_user(4, "P4", "south"));
    run_distribution(&mut store, "north", "south", 100);
    let effects = run_notify(&mut store);
    // Four participants, three effects each.
    assert_eq!(effects.len(), 12);
    for u in store.get_all_users() {
        assert_eq!(u.state, Some(State::Distributed));
    }
}
