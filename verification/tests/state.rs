use learnify::errors::Error;
use learnify::staking::RewardRate;
use learnify::wallet::WalletCreation;
use learnify::State;

#[test]
fn a_fresh_state_is_empty_everywhere() {
    let state = State::new();
    assert!(!state.registry.is_registered(1));
    assert_eq!(state.wallets.get_balance(1), Err(Error::NotFound));
    assert!(state.savings.list_goals(1).is_empty());
    assert!(state.badges.list_badges(1).is_empty());
    assert_eq!(state.staking.summary(1, 0), Err(Error::NoActiveSession));
    assert!(state.leaderboard.snapshot().is_empty());
}

#[test]
fn features_share_nothing_but_the_identity() {
    let mut state = State::new();
    let caller = 11;
    state.registry.register(caller, "student".to_string()).unwrap();
    assert_eq!(state.wallets.create(caller), WalletCreation::Created);
    state.savings.set_goal(caller, "Laptop".to_string(), 900);
    state
        .staking
        .open_session(caller, 500, RewardRate::new(1, 5).unwrap(), 1_700_000_000)
        .unwrap();
    state.badges.award(caller, "Starter".to_string(), "first login".to_string());
    state.leaderboard.update_score(caller, 10);

    assert_eq!(state.registry.get_role(caller), Ok("student".to_string()));
    assert_eq!(state.wallets.get_balance(caller), Ok(0));
    assert_eq!(state.savings.list_goals(caller).len(), 1);
    assert_eq!(state.badges.list_badges(caller).len(), 1);
    assert_eq!(state.leaderboard.snapshot().len(), 1);
    // Another identity sees none of it.
    assert!(!state.registry.is_registered(12));
    assert_eq!(state.wallets.get_balance(12), Err(Error::NotFound));
}
