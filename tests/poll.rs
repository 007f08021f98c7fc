use hyper_headset::devices::poll::{
    after_connect, after_refresh, next_poll_action, LinkState, PollAction, ACTIVE_EVERY,
};

#[test]
fn disconnected_link_connects() {
    assert_eq!(next_poll_action(LinkState::Disconnected), PollAction::Connect);
    assert_eq!(after_connect(false), LinkState::Disconnected);
    assert_eq!(after_connect(true), LinkState::Connected { tick: 0 });
}

#[test]
fn full_sweep_every_sixtieth_tick() {
    let mut link = after_connect(true);
    let mut actions = Vec::new();
    for _ in 0..=ACTIVE_EVERY {
        actions.push(next_poll_action(link));
        link = after_refresh(link, true);
    }
    assert_eq!(actions[0], PollAction::ActiveRefresh);
    assert!(actions[1..60].iter().all(|a| *a == PollAction::PassiveRefresh));
    assert_eq!(actions[60], PollAction::ActiveRefresh);
}

#[test]
fn failed_refresh_drops_the_link() {
    let link = LinkState::Connected { tick: 5 };
    assert_eq!(after_refresh(link, false), LinkState::Disconnected);
    assert_eq!(after_refresh(LinkState::Connected { tick: u64::MAX }, true), LinkState::Connected { tick: 0 });
}
