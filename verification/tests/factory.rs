use pump69_program::create_league;
use pump69_program::initialize_factory;
use pump69_program::CreatorTierRegistry;
use pump69_program::ErrorCode;
use pump69_program::Identity;
use pump69_program::LeagueFactory;
use pump69_program::LeagueState;

fn key(n: u8) -> Identity {
    Identity::new([n; 32])
}

fn ready_factory() -> LeagueFactory {
    let mut slot: Option<LeagueFactory> = None;
    initialize_factory(&mut slot, key(1), key(2), 255).unwrap();
    slot.unwrap()
}

#[test]
fn factory_is_set_up_with_policy_rates() {
    let mut slot: Option<LeagueFactory> = None;
    let event = initialize_factory(&mut slot, key(1), key(2), 254).unwrap();
    assert_eq!(event.authority, key(1));
    assert_eq!(event.fee_recipient, key(2));
    let factory = slot.unwrap();
    assert_eq!(factory.authority, key(1));
    assert_eq!(factory.fee_recipient, key(2));
    assert_eq!(factory.league_count, 0);
    assert_eq!(factory.platform_fee_bps, 300);
    assert_eq!(factory.creator_fee_bps, 600);
    assert_eq!(factory.referrer_fee_bps, 100);
    assert_eq!(factory.bump, 254);
}

#[test]
fn factory_is_set_up_only_once() {
    let mut slot: Option<LeagueFactory> = None;
    initialize_factory(&mut slot, key(1), key(2), 254).unwrap();
    slot.as_mut().unwrap().league_count = 5;
    let second = initialize_factory(&mut slot, key(3), key(4), 1);
    assert_eq!(second.err(), Some(ErrorCode::InvalidLeagueState));
    let factory = slot.unwrap();
    assert_eq!(factory.authority, key(1));
    assert_eq!(factory.fee_recipient, key(2));
    assert_eq!(factory.league_count, 5);
    assert_eq!(factory.bump, 254);
}

#[test]
fn league_is_created_open_and_empty() {
    let mut factory = ready_factory();
    let mut creators = CreatorTierRegistry::new();
    let (account, event) = create_league(
        &mut factory, key(10), &mut creators, key(3), key(20), 7, 100, 2, 3600, 600, 300, 100, 250, 249,
    )
    .unwrap();
    assert_eq!(account.address, key(20));
    assert!(account.roster.is_empty());
    let league = account.league;
    assert_eq!(league.factory, key(10));
    assert_eq!(league.creator, key(3));
    assert_eq!(league.league_id, 7);
    assert_eq!(league.entry_fee, 100);
    assert_eq!(league.max_participants, 2);
    assert_eq!(league.current_participants, 0);
    assert_eq!(league.duration, 3600);
    assert_eq!(league.start_time, 0);
    assert_eq!(league.end_time, 0);
    assert_eq!(league.state, LeagueState::Created);
    assert_eq!(league.prize_pool, 0);
    assert_eq!(league.creator_fee_bps, 600);
    assert_eq!(league.platform_fee_bps, 300);
    assert_eq!(league.referrer_fee_bps, 100);
    assert_eq!(league.winner, None);
    assert_eq!(league.vrf_request_key, None);
    assert_eq!(league.bump, 250);
    assert_eq!(event.league_id, 7);
    assert_eq!(event.creator, key(3));
    assert_eq!(event.entry_fee, 100);
    assert_eq!(event.max_participants, 2);
    assert_eq!(event.duration, 3600);
    assert_eq!(factory.league_count, 1);
    let record = creators.get(&key(3)).unwrap();
    assert_eq!(record.total_leagues, 1);
    assert_eq!(record.bump, 249);
}

#[test]
fn every_creation_is_counted_once() {
    let mut factory = ready_factory();
    let mut creators = CreatorTierRegistry::new();
    for n in 0..5u64 {
        create_league(
            &mut factory, key(10), &mut creators, key(3), key(20 + n as u8), n, 1, 2, 1, 600, 300, 100, 0, 0,
        )
        .unwrap();
        assert_eq!(factory.league_count, n + 1);
    }
    create_league(&mut factory, key(10), &mut creators, key(4), key(30), 5, 1, 2, 1, 600, 300, 100, 0, 0)
        .unwrap();
    assert_eq!(factory.league_count, 6);
    assert_eq!(creators.get(&key(3)).unwrap().total_leagues, 5);
    assert_eq!(creators.get(&key(4)).unwrap().total_leagues, 1);
}

#[test]
fn only_the_policy_split_creates_a_league() {
    let mut factory = ready_factory();
    let mut creators = CreatorTierRegistry::new();
    let triples: [(u16, u16, u16); 7] = [
        (500, 300, 100),
        (300, 600, 100),
        (600, 300, 0),
        (0, 0, 0),
        (600, 300, 101),
        (1000, 0, 0),
        (u16::MAX, u16::MAX, u16::MAX),
    ];
    for (creator_bps, platform_bps, referrer_bps) in triples {
        let refused = create_league(
            &mut factory, key(10), &mut creators, key(3), key(20), 7, 100, 2, 3600, creator_bps, platform_bps,
            referrer_bps, 0, 0,
        );
        assert_eq!(refused.err(), Some(ErrorCode::InvalidFeePercentages));
    }
    assert_eq!(factory.league_count, 0);
    assert_eq!(creators.len(), 0);
}

#[test]
fn rates_are_checked_before_terms() {
    let mut factory = ready_factory();
    let mut creators = CreatorTierRegistry::new();
    let refused =
        create_league(&mut factory, key(10), &mut creators, key(3), key(20), 7, 0, 0, 0, 500, 300, 100, 0, 0);
    assert_eq!(refused.err(), Some(ErrorCode::InvalidFeePercentages));
}

#[test]
fn invalid_terms_are_refused() {
    let mut factory = ready_factory();
    let mut creators = CreatorTierRegistry::new();
    let terms: [(u64, u32, i64); 6] =
        [(100, 1, 3600), (100, 0, 3600), (100, 2, 0), (100, 2, -1), (0, 2, 3600), (100, 2, i64::MIN)];
    for (entry_fee, max_participants, duration) in terms {
        let refused = create_league(
            &mut factory, key(10), &mut creators, key(3), key(20), 7, entry_fee, max_participants, duration, 600,
            300, 100, 0, 0,
        );
        assert_eq!(refused.err(), Some(ErrorCode::InvalidLeagueState));
    }
    assert_eq!(factory.league_count, 0);
    assert_eq!(creators.len(), 0);
    let accepted = create_league(
        &mut factory, key(10), &mut creators, key(3), key(20), 7, 1, 2, 1, 600, 300, 100, 0, 0,
    );
    assert!(accepted.is_ok());
    let widest = create_league(
        &mut factory, key(10), &mut creators, key(3), key(21), 8, u64::MAX, u32::MAX, i64::MAX, 600, 300, 100, 0, 0,
    );
    assert!(widest.is_ok());
}

#[test]
fn full_counter_refuses_creation() {
    let mut factory = ready_factory();
    factory.league_count = u64::MAX;
    let mut creators = CreatorTierRegistry::new();
    let refused = create_league(
        &mut factory, key(10), &mut creators, key(3), key(20), 7, 100, 2, 3600, 600, 300, 100, 0, 0,
    );
    assert_eq!(refused.err(), Some(ErrorCode::MathOverflow));
    assert_eq!(factory.league_count, u64::MAX);
    assert_eq!(creators.len(), 0);
}
