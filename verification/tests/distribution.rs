use secret_santa::DistributeError;
use secret_santa::State;
use secret_santa::User;
use secret_santa::distribute;
use secret_santa::partition_by_city;

fn fresh_user(id: i64, nickname: &str, city: &str) -> User {
    User {
        id,
        chat_id: id,
        child: None,
        santa: None,
        nickname: String::from(nickname),
        username: String::from(""),
        wish_text: String::from(""),
        city: String::from(city),
        state: None,
        create_date: 0,
    }
}

#[test]
fn distribute_pairs_completely_and_avoids_self() {
    let group_a = vec![
        fresh_user(1, "P1", "north"),
        fresh_user(2, "P2", "north"),
        fresh_user(5, "P5", "north"),
    ];
    let group_b = vec![
        fresh_user(3, "P3", "south"),
        fresh_user(4, "P4", "south"),
        fresh_user(6, "P6", "south"),
    ];
    let out = distribute(group_a, group_b).unwrap();
    assert_eq!(out.len(), 6);
    for p in &out {
        let santa = p.santa.expect("every participant has a giver");
        let child = p.child.expect("every participant has a recipient");
        assert_ne!(santa, p.id);
        assert_ne!(child, p.id);
        assert_eq!(p.state, Some(State::Distributed));
        let recipient = out.iter().find(|q| q.id == child).unwrap();
        assert_eq!(recipient.santa, Some(p.id));
        let giver = out.iter().find(|q| q.id == santa).unwrap();
        assert_eq!(giver.child, Some(p.id));
    }
}

#[test]
fn distribute_rejects_unequal_groups() {
    let group_a = vec![fresh_user(1, "P1", "north")];
    let group_b = vec![fresh_user(3, "P3", "south"), fresh_user(4, "P4", "south")];
    let r = distribute(group_a, group_b);
    assert_eq!(r, Err(DistributeError::UnequalGroupSizes));
    // Nothing was paired: the same participants, rebuilt, are untouched.
    let again_a = vec![fresh_user(1, "P1", "north")];
    assert_eq!(again_a[0].santa, None);
    assert_eq!(again_a[0].child, None);
}

#[test]
fn distribute_rejects_already_assigned() {
    let mut assigned = fresh_user(1, "P1", "north");
    assigned.santa = Some(9);
    let group_a = vec![assigned];
    let group_b = vec![fresh_user(3, "P3", "south")];
    assert_eq!(distribute(group_a, group_b), Err(DistributeError::AlreadyAssigned));
}

#[test]
fn distribute_rejects_self_pairing() {
    // The same identity on both sides of a one-per-side pairing would have
    // to give to themself.
    let group_a = vec![fresh_user(1, "P1", "north")];
    let group_b = vec![fresh_user(1, "P1", "south")];
    assert_eq!(distribute(group_a, group_b), Err(DistributeError::SelfPairing));
}

#[test]
fn distribute_two_distinct_participants_pair_each_other() {
    let group_a = vec![fresh_user(1, "P1", "north")];
    let group_b = vec![fresh_user(2, "P2", "south")];
    let out = distribute(group_a, group_b).unwrap();
    assert_eq!(out.len(), 2);
    assert_eq!(out[0].id, 1);
    assert_eq!(out[0].santa, Some(2));
    assert_eq!(out[0].child, Some(2));
    assert_eq!(out[1].id, 2);
    assert_eq!(out[1].santa, Some(1));
    assert_eq!(out[1].child, Some(1));
}

#[test]
fn distribute_empty_groups_yield_empty_pairing() {
    let out = distribute(Vec::new(), Vec::new()).unwrap();
    assert!(out.is_empty());
}

#[test]
fn distribute_fixed_pairing_for_two_by_two() {
    // groupA = [P1, P2], groupB = [P3, P4]: the deterministic double pass
    // pairs P3 to give to P1, P4 to P2, P1 to P4's recipient slot, and the
    // output lists group A in order, then group B reversed.
    let group_a = vec![fresh_user(1, "P1", "north"), fresh_user(2, "P2", "north")];
    let group_b = vec![fresh_user(3, "P3", "south"), fresh_user(4, "P4", "south")];
    let out = distribute(group_a, group_b).unwrap();

    let mut p1 = fresh_user(1, "P1", "north");
    p1.santa = Some(3);
    p1.child = Some(4);
    p1.state = Some(State::Distributed);
    let mut p2 = fresh_user(2, "P2", "north");
    p2.santa = Some(4);
    p2.child = Some(3);
    p2.state = Some(State::Distributed);
    let mut p4 = fresh_user(4, "P4", "south");
    p4.santa = Some(1);
    p4.child = Some(2);
    p4.state = Some(State::Distributed);
    let mut p3 = fresh_user(3, "P3", "south");
    p3.santa = Some(2);
    p3.child = Some(1);
    p3.state = Some(State::Distributed);

    assert_eq!(out, vec![p1, p2, p4, p3]);
}

#[test]
fn partition_by_city_splits_in_input_order() {
    let users = vec![
        fresh_user(1, "P1", "north"),
        fresh_user(2, "P2", "south"),
        fresh_user(3, "P3", "north"),
        fresh_user(4, "P4", "elsewhere"),
    ];
    let (north, south) = partition_by_city(users, "north", "south");
    assert_eq!(north.len(), 2);
    assert_eq!(north[0].id, 1);
    assert_eq!(north[1].id, 3);
    assert_eq!(south.len(), 1);
    assert_eq!(south[0].id, 2);
}
