use learnify::leaderboard::Leaderboard;

#[test]
fn scores_accumulate_into_one_entry() {
    let mut lb = Leaderboard::new();
    lb.update_score(1, 5);
    lb.update_score(1, 3);
    let snap = lb.snapshot();
    assert_eq!(snap.len(), 1);
    assert_eq!(snap[0].user_id, 1);
    assert_eq!(snap[0].score, 8);
}

#[test]
fn identities_score_independently() {
    let mut lb = Leaderboard::new();
    lb.update_score(1, 5);
    lb.update_score(1, 3);
    lb.update_score(2, 2);
    let snap = lb.snapshot();
    assert_eq!(snap.len(), 2);
    let one = snap.iter().find(|e| e.user_id == 1).unwrap();
    let two = snap.iter().find(|e| e.user_id == 2).unwrap();
    assert_eq!(one.score, 8);
    assert_eq!(two.score, 2);
}

#[test]
fn serialized_unit_updates_are_all_counted() {
    let mut lb = Leaderboard::new();
    for _ in 0..100 {
        lb.update_score(7, 1);
    }
    let snap = lb.snapshot();
    assert_eq!(snap.len(), 1);
    assert_eq!(snap[0].score, 100);
}

#[test]
fn scores_saturate_instead_of_overflowing() {
    let mut lb = Leaderboard::new();
    lb.update_score(1, u64::MAX - 1);
    lb.update_score(1, 5);
    let snap = lb.snapshot();
    assert_eq!(snap[0].score, u64::MAX);
}

#[test]
fn an_empty_board_has_an_empty_snapshot() {
    let lb = Leaderboard::new();
    assert!(lb.snapshot().is_empty());
}
