use learnify::errors::Error;
use learnify::staking::{RewardRate, StakeSummary, StakingStore};

fn rate(num: u64, den: u64) -> RewardRate {
    RewardRate::new(num, den).unwrap()
}

#[test]
fn zero_denominator_names_no_rate() {
    assert!(RewardRate::new(1, 0).is_none());
    let r = RewardRate::new(3, 20).unwrap();
    assert_eq!(r.numerator(), 3);
    assert_eq!(r.denominator(), 20);
}

#[test]
fn second_session_is_refused() {
    let mut st = StakingStore::new();
    assert_eq!(st.open_session(1, 1000, rate(1, 10), 500), Ok(()));
    assert_eq!(st.open_session(1, 9999, rate(2, 10), 600), Err(Error::AlreadyExists));
    // The refused call changed nothing: the summary still uses the first session.
    assert_eq!(
        st.summary(1, 510),
        Ok(StakeSummary { amount: 1000, reward: 1000 })
    );
}

#[test]
fn reward_after_ten_seconds_at_a_tenth() {
    let mut st = StakingStore::new();
    st.open_session(1, 1000, rate(1, 10), 100).unwrap();
    // 1000 * 0.1 * 10 = 1000
    assert_eq!(
        st.summary(1, 110),
        Ok(StakeSummary { amount: 1000, reward: 1000 })
    );
}

#[test]
fn summary_without_session_is_refused() {
    let st = StakingStore::new();
    assert_eq!(st.summary(1, 100), Err(Error::NoActiveSession));
}

#[test]
fn reward_rounds_to_nearest() {
    let mut st = StakingStore::new();
    // 10 * (1/4) * 1 = 2.5: a half rounds away from zero, to 3.
    st.open_session(1, 10, rate(1, 4), 0).unwrap();
    assert_eq!(st.summary(1, 1), Ok(StakeSummary { amount: 10, reward: 3 }));
    // 10 * (1/4) * 2 = 5 exactly.
    assert_eq!(st.summary(1, 2), Ok(StakeSummary { amount: 10, reward: 5 }));
    // 1 * (1/4) * 1 = 0.25 rounds down to 0.
    let mut st2 = StakingStore::new();
    st2.open_session(2, 1, rate(1, 4), 0).unwrap();
    assert_eq!(st2.summary(2, 1), Ok(StakeSummary { amount: 1, reward: 0 }));
    // 1 * (3/4) * 1 = 0.75 rounds up to 1.
    let mut st3 = StakingStore::new();
    st3.open_session(3, 1, rate(3, 4), 0).unwrap();
    assert_eq!(st3.summary(3, 1), Ok(StakeSummary { amount: 1, reward: 1 }));
}

#[test]
fn a_regressing_clock_earns_nothing() {
    let mut st = StakingStore::new();
    st.open_session(1, 1000, rate(1, 10), 1000).unwrap();
    assert_eq!(
        st.summary(1, 900),
        Ok(StakeSummary { amount: 1000, reward: 0 })
    );
    assert_eq!(
        st.summary(1, 1000),
        Ok(StakeSummary { amount: 1000, reward: 0 })
    );
}

#[test]
fn reward_is_capped_at_the_largest_balance() {
    let mut st = StakingStore::new();
    st.open_session(1, u64::MAX, rate(u64::MAX, 1), u64::MAX - 1).unwrap();
    // The true product is astronomically past u64::MAX, so the reward pins there.
    assert_eq!(
        st.summary(1, u64::MAX),
        Ok(StakeSummary { amount: u64::MAX, reward: u64::MAX })
    );
}

#[test]
fn sessions_are_per_identity() {
    let mut st = StakingStore::new();
    st.open_session(1, 100, rate(1, 2), 0).unwrap();
    assert_eq!(st.open_session(2, 200, rate(1, 2), 0), Ok(()));
    assert_eq!(st.summary(2, 10), Ok(StakeSummary { amount: 200, reward: 1000 }));
}
