use pump69_program::create_league;
use pump69_program::join_league;
use pump69_program::league::roster_is_distinct;
use pump69_program::resolution::lookup_score;
use pump69_program::resolve_league;
use pump69_program::CreatorTier;
use pump69_program::CreatorTierRegistry;
use pump69_program::Identity;
use pump69_program::LeagueAccount;
use pump69_program::LeagueFactory;
use pump69_program::LeagueState;
use pump69_program::Participant;
use pump69_program::PremiumCreator;
use pump69_program::ReferralRegistry;
use pump69_program::ReferrerAccount;

fn name(n: u8) -> Identity {
    Identity::new([n; 32])
}

fn policy_factory() -> LeagueFactory {
    LeagueFactory {
        authority: name(1),
        fee_recipient: name(2),
        league_count: 0,
        platform_fee_bps: 300,
        creator_fee_bps: 600,
        referrer_fee_bps: 100,
        bump: 0,
    }
}

fn pair_league(state_after: LeagueState) -> LeagueAccount {
    let mut factory = policy_factory();
    let mut creators = CreatorTierRegistry::new();
    let mut referrals = ReferralRegistry::new();
    let (mut account, _) = create_league(
        &mut factory, name(10), &mut creators, name(3), name(20), 0, 100, 2, 3600, 600, 300, 100, 0, 0,
    )
    .unwrap();
    if state_after == LeagueState::Created {
        return account;
    }
    join_league(&mut account, &mut referrals, name(101), None, 1000, name(40), 0, 0).unwrap();
    join_league(&mut account, &mut referrals, name(102), None, 1001, name(40), 0, 0).unwrap();
    if state_after == LeagueState::Filled {
        return account;
    }
    resolve_league(
        &mut account, &factory, &mut creators, &mut referrals, name(1), name(101), vec![], Some([0u8; 32]), 2000, 0,
    )
    .unwrap();
    account
}

fn member(league: u8, user: u8) -> Participant {
    Participant {
        league: name(league),
        user: name(user),
        entry_time: 0,
        referrer: None,
        score: 0,
        rewards_claimed: false,
        bump: 0,
    }
}

#[test]
fn leagues_made_by_the_library_are_valid() {
    assert!(pair_league(LeagueState::Created).is_valid());
    assert!(pair_league(LeagueState::Filled).is_valid());
    assert!(pair_league(LeagueState::Resolved).is_valid());
    assert!(pair_league(LeagueState::Created).league.is_valid());
    assert!(pair_league(LeagueState::Resolved).league.is_valid());
}

#[test]
fn league_with_wrong_terms_is_not_valid() {
    let good = pair_league(LeagueState::Filled).league;
    let mut league = good;
    league.entry_fee = 0;
    assert!(!league.is_valid());
    league = good;
    league.max_participants = 1;
    assert!(!league.is_valid());
    league = good;
    league.duration = 0;
    assert!(!league.is_valid());
    league = good;
    league.current_participants = 3;
    assert!(!league.is_valid());
    league = good;
    league.creator_fee_bps = 500;
    assert!(!league.is_valid());
    league = good;
    league.platform_fee_bps = 301;
    assert!(!league.is_valid());
    league = good;
    league.referrer_fee_bps = 0;
    assert!(!league.is_valid());
}

#[test]
fn league_with_wrong_pool_or_time_is_not_valid() {
    let good = pair_league(LeagueState::Filled).league;
    let mut league = good;
    league.prize_pool = 199;
    assert!(!league.is_valid());
    league = good;
    league.end_time = league.end_time + 1;
    assert!(!league.is_valid());
    league = good;
    league.vrf_request_key = None;
    assert!(!league.is_valid());
    league = good;
    league.winner = Some(name(101));
    assert!(!league.is_valid());
    league = good;
    league.state = LeagueState::Active;
    assert!(league.is_valid());
    league.state = LeagueState::Cancelled;
    assert!(!league.is_valid());
    league.prize_pool = 0;
    assert!(league.is_valid());
    league.state = LeagueState::Created;
    assert!(!league.is_valid());

    let resolved = pair_league(LeagueState::Resolved).league;
    assert_eq!(resolved.prize_pool, 180);
    league = resolved;
    league.prize_pool = 200;
    assert!(!league.is_valid());
    league.prize_pool = 0;
    assert!(league.is_valid());
    league = resolved;
    league.winner = None;
    assert!(!league.is_valid());

    let open = pair_league(LeagueState::Created).league;
    league = open;
    league.start_time = 1;
    assert!(!league.is_valid());
    league = open;
    league.vrf_request_key = Some(name(40));
    assert!(!league.is_valid());
    league = open;
    league.entry_fee = u64::MAX;
    league.current_participants = 2;
    league.prize_pool = u64::MAX;
    assert!(!league.is_valid());
}

#[test]
fn account_with_wrong_roster_is_not_valid() {
    let mut account = pair_league(LeagueState::Filled);
    account.roster.pop();
    assert!(!account.is_valid());
    account.roster.push(member(20, 101));
    assert!(!account.is_valid());
    account.roster.pop();
    account.roster.push(member(21, 102));
    assert!(!account.is_valid());
    account.roster.pop();
    account.roster.push(member(20, 102));
    assert!(account.is_valid());
    account.roster[1].rewards_claimed = true;
    assert!(!account.is_valid());
}

#[test]
fn resolved_account_ties_the_claim_to_the_pool() {
    let mut account = pair_league(LeagueState::Resolved);
    assert!(account.is_valid());
    account.roster[0].rewards_claimed = true;
    assert!(!account.is_valid());
    account.league.prize_pool = 0;
    assert!(account.is_valid());
    account.roster[0].rewards_claimed = false;
    assert!(!account.is_valid());
    account.league.prize_pool = 180;
    account.roster[1].rewards_claimed = true;
    assert!(!account.is_valid());
    account.roster[1].rewards_claimed = false;
    account.league.winner = Some(name(103));
    assert!(!account.is_valid());
}

#[test]
fn roster_distinctness_is_checked() {
    assert!(roster_is_distinct(&vec![]));
    assert!(roster_is_distinct(&vec![member(1, 5)]));
    assert!(roster_is_distinct(&vec![member(1, 5), member(1, 6), member(1, 7)]));
    assert!(!roster_is_distinct(&vec![member(1, 5), member(1, 6), member(2, 5)]));
    assert!(!roster_is_distinct(&vec![member(1, 6), member(1, 6)]));
    assert!(!roster_is_distinct(&vec![member(1, 5), member(1, 6), member(1, 6)]));
}

#[test]
fn participants_are_found_by_user() {
    let account = pair_league(LeagueState::Filled);
    assert_eq!(account.find_participant(&name(101)), Some(0));
    assert_eq!(account.find_participant(&name(102)), Some(1));
    assert_eq!(account.find_participant(&name(103)), None);
    assert_eq!(pair_league(LeagueState::Created).find_participant(&name(101)), None);
}

#[test]
fn earliest_entry_gives_the_score() {
    let scores = vec![(name(1), 5u32), (name(2), 0u32), (name(1), 9u32), (name(3), u32::MAX)];
    assert_eq!(lookup_score(&scores, &name(1)), 5);
    assert_eq!(lookup_score(&scores, &name(2)), 0);
    assert_eq!(lookup_score(&scores, &name(3)), u32::MAX);
    assert_eq!(lookup_score(&scores, &name(4)), 0);
    assert_eq!(lookup_score(&vec![], &name(1)), 0);
}

#[test]
fn kept_creator_records_are_taken_back() {
    let mut creators = CreatorTierRegistry::new();
    let mut record = PremiumCreator::new(name(3), 7);
    record.total_leagues = 4;
    record.total_volume = 150_000;
    record.tier = CreatorTier::Gold;
    record.reduced_fee_bps = 200;
    record.bonus_rewards = 11;
    assert!(record.is_valid());
    assert!(creators.restore(record));
    assert!(!creators.restore(record));
    let kept = creators.get(&name(3)).unwrap();
    assert_eq!(kept.total_leagues, 4);
    assert_eq!(kept.total_volume, 150_000);
    assert_eq!(kept.tier, CreatorTier::Gold);
    assert_eq!(kept.bonus_rewards, 11);
    assert_eq!(kept.bump, 7);
    assert_eq!(creators.discount_for(&name(3)), 100);
    assert_eq!(creators.len(), 1);
    let next = creators.record_league_created(name(3), 0).unwrap();
    assert_eq!(next.total_leagues, 5);
}

#[test]
fn malformed_creator_records_are_not_taken() {
    let mut creators = CreatorTierRegistry::new();
    let mut record = PremiumCreator::new(name(3), 0);
    record.total_volume = 10_000;
    assert!(!record.is_valid());
    assert!(!creators.restore(record));
    record.tier = CreatorTier::Silver;
    assert!(!record.is_valid());
    assert!(!creators.restore(record));
    record.reduced_fee_bps = 250;
    assert!(record.is_valid());
    record.tier = CreatorTier::Diamond;
    record.reduced_fee_bps = 150;
    assert!(record.is_valid());
    assert!(creators.restore(record));
    assert_eq!(creators.len(), 1);
}

#[test]
fn kept_referral_records_are_taken_back() {
    let mut referrals = ReferralRegistry::new();
    let record = ReferrerAccount {
        user: name(1),
        referrer: name(9),
        first_referral_time: 50,
        total_referrals: 3,
        total_rewards: 70,
        bump: 2,
    };
    assert!(referrals.restore(record));
    assert!(!referrals.restore(record));
    assert!(!referrals.restore(ReferrerAccount { referrer: name(8), ..record }));
    assert!(!referrals.restore(ReferrerAccount { user: name(5), referrer: name(5), ..record }));
    assert_eq!(referrals.len(), 1);
    assert_eq!(referrals.referrer_of(&name(1)), Some(name(9)));
    assert_eq!(referrals.resolve_referrer(name(1), Some(name(8)), 99, 0), Some(name(9)));
    let kept = referrals.get(&name(1)).unwrap();
    assert_eq!(kept.first_referral_time, 50);
    assert_eq!(kept.total_referrals, 3);
    assert_eq!(kept.total_rewards, 70);
    assert_eq!(kept.bump, 2);
}
