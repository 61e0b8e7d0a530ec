use learnify::badges::BadgeStore;

#[test]
fn awarded_badges_are_listed_in_order() {
    let mut b = BadgeStore::new();
    b.award(1, "Saver".to_string(), "Opened a savings goal".to_string());
    b.award(1, "Staker".to_string(), "Opened a staking session".to_string());
    let list = b.list_badges(1);
    assert_eq!(list.len(), 2);
    assert_eq!(list[0].name, "Saver");
    assert_eq!(list[0].description, "Opened a savings goal");
    assert_eq!(list[1].name, "Staker");
}

#[test]
fn the_same_badge_can_be_awarded_repeatedly() {
    let mut b = BadgeStore::new();
    b.award(1, "Streak".to_string(), "Daily visit".to_string());
    b.award(1, "Streak".to_string(), "Daily visit".to_string());
    let list = b.list_badges(1);
    assert_eq!(list.len(), 2);
    assert_eq!(list[0], list[1]);
}

#[test]
fn badge_list_is_empty_for_unknown_identity() {
    let b = BadgeStore::new();
    assert!(b.list_badges(9).is_empty());
}

#[test]
fn badges_are_per_identity() {
    let mut b = BadgeStore::new();
    b.award(1, "Saver".to_string(), "first goal".to_string());
    assert!(b.list_badges(2).is_empty());
    b.award(2, "Staker".to_string(), "first stake".to_string());
    assert_eq!(b.list_badges(1).len(), 1);
    assert_eq!(b.list_badges(2).len(), 1);
}
