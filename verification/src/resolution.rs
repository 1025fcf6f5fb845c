use vstd::prelude::*;
use crate::error::ErrorCode;
use crate::events::LeagueResolved;
use crate::events::PremiumCreatorUpdated;
use crate::events::ReferralReward;
use crate::factory::LeagueFactory;
use crate::fees::checked_bps_part;
use crate::fees::discounted_platform_bps;
use crate::fees::lemma_bps_part_bounds;
use crate::fees::lemma_parts_fit;
use crate::fees::referrer_share_of;
use crate::fees::split_overflows;
use crate::fees::split_pool;
use crate::fees::tier_bonus;
use crate::fees::FeeShares;
use crate::identity::Identity;
use crate::league::has_joined;
use crate::league::lemma_place_of;
use crate::league::scores_of;
use crate::league::League;
use crate::league::LeagueAccount;
use crate::league::LeagueState;
use crate::league::Participant;
use crate::referral::keeps_referrers;
use crate::referral::ReferralRegistry;
use crate::referral::ReferrerAccount;
use crate::selection::is_selected;
use crate::selection::lemma_holder_unique;
use crate::selection::select_winner;
use crate::selection::ticket_of;
use crate::tier::CreatorTierRegistry;
use crate::tier::PremiumCreator;

verus! {

/// What a resolution brings about: how the pool is divided, and the events
/// of the resolution, of the referrer's reward if there is one, and of the
/// creator's record.
#[derive(Clone, Copy, Debug)]
pub struct Resolution {
    pub shares: FeeShares,
    pub resolved: LeagueResolved,
    pub referral: Option<ReferralReward>,
    pub creator_update: PremiumCreatorUpdated,
}

/// The score of the earliest entry for `user` among `scores`, if there is one.
pub open spec fn first_score(scores: Seq<(Identity, u32)>, user: Identity) -> Option<u32>
    decreases scores.len(),
{
    if scores.len() == 0 {
        None
    } else {
        match first_score(scores.drop_last(), user) {
            Some(score) => Some(score),
            None => if scores.last().0 == user {
                Some(scores.last().1)
            } else {
                None
            },
        }
    }
}

/// The score that `scores` give `user`: that of the earliest entry for the
/// user, and 0 for a user without an entry.
pub open spec fn score_for(scores: Seq<(Identity, u32)>, user: Identity) -> u32 {
    match first_score(scores, user) {
        Some(score) => score,
        None => 0,
    }
}

/// The roster with the score that `scores` give each participant.
pub open spec fn rated_roster(roster: Seq<Participant>, scores: Seq<(Identity, u32)>) -> Seq<Participant> {
    Seq::new(roster.len(), |i: int| Participant { score: score_for(scores, roster[i].user), ..roster[i] })
}

/// The place on the roster that `random` selects, each participant drawing
/// with the weight of the score that `scores` give.
pub open spec fn drawn_place(roster: Seq<Participant>, scores: Seq<(Identity, u32)>, random: Seq<u8>) -> int {
    choose|i: int| is_selected(scores_of(rated_roster(roster, scores)), random, i)
}

/// An entry that is the earliest for a user among the first `k` is the
/// earliest among all.
pub proof fn lemma_first_score_prefix(scores: Seq<(Identity, u32)>, user: Identity, k: int)
    requires
        0 <= k <= scores.len(),
        first_score(scores.take(k), user) is Some,
    ensures
        first_score(scores, user) == first_score(scores.take(k), user),
    decreases scores.len(),
{
    if k == scores.len() {
        assert(scores.take(k) =~= scores);
    } else {
        assert(scores.drop_last().take(k) =~= scores.take(k));
        lemma_first_score_prefix(scores.drop_last(), user, k);
    }
}

/// The score that `scores` give `user`: that of the earliest entry for the
/// user, and 0 for a user without an entry.
pub fn lookup_score(scores: &Vec<(Identity, u32)>, user: &Identity) -> (score: u32)
    ensures
        score == score_for(scores@, *user),
{
    let mut i: usize = 0;
    assert(scores@.take(0).len() == 0);
    while i < scores.len()
        invariant
            i <= scores@.len(),
            first_score(scores@.take(i as int), *user) is None,
        decreases scores@.len() - i,
    {
        proof {
            assert(scores@.take(i + 1).drop_last() =~= scores@.take(i as int));
            assert(scores@.take(i + 1).last() == scores@[i as int]);
        }
        if scores[i].0.same(user) {
            proof {
                lemma_first_score_prefix(scores@, *user, i + 1);
            }
            return scores[i].1;
        }
        i = i + 1;
    }
    assert(scores@.take(scores@.len() as int) =~= scores@);
    0
}

/// A resolution cannot be paid out in full: a product of the pool and a
/// rate, or a total that the resolution adds to, does not fit in 64 bits.
pub open spec fn payout_overflows(
    league: League,
    winner: Identity,
    referrer: Option<Identity>,
    creators: CreatorTierRegistry,
    referrals: ReferralRegistry,
    creator_bump: u8,
) -> bool {
    let pool = league.prize_pool as int;
    let record = creators.entry(league.creator, creator_bump);
    ||| split_overflows(
        pool,
        league.creator_fee_bps as int,
        league.platform_fee_bps as int,
        league.referrer_fee_bps as int,
    )
    ||| record.total_volume + pool > u64::MAX
    ||| record.bonus_rewards + tier_bonus(
        pool,
        league.platform_fee_bps as int,
        creators.discount_of(league.creator) as int,
    ) > u64::MAX
    ||| (referrer is Some && !referrals.reward_fits(
        winner,
        referrer_share_of(pool, league.referrer_fee_bps as int, true) as u64,
    ))
}

/// Why a league cannot be resolved, if it cannot.
///
/// The caller must be the factory's authority. The league must not be
/// resolved already, must have its roster closed and its time begun, and the
/// randomness that was asked for must have come. The winner that is handed
/// in must be the one that the randomness selects. And the payout must fit.
pub open spec fn resolve_error(
    league: League,
    roster: Seq<Participant>,
    authority: Identity,
    caller: Identity,
    winner: Identity,
    scores: Seq<(Identity, u32)>,
    randomness: Option<[u8; 32]>,
    now: i64,
    creators: CreatorTierRegistry,
    referrals: ReferralRegistry,
    creator_bump: u8,
) -> Option<ErrorCode> {
    if caller != authority {
        Some(ErrorCode::Unauthorized)
    } else if league.state == LeagueState::Resolved {
        Some(ErrorCode::LeagueAlreadyResolved)
    } else if league.state != LeagueState::Filled && league.state != LeagueState::Active {
        Some(ErrorCode::LeagueNotActive)
    } else if now < league.start_time {
        Some(ErrorCode::LeagueNotActive)
    } else if randomness is None {
        Some(ErrorCode::VrfRequestFailed)
    } else if roster[drawn_place(roster, scores, randomness->0@)].user != winner {
        Some(ErrorCode::InvalidVrfProof)
    } else if payout_overflows(
        league,
        winner,
        roster[drawn_place(roster, scores, randomness->0@)].referrer,
        creators,
        referrals,
        creator_bump,
    ) {
        Some(ErrorCode::MathOverflow)
    } else {
        None
    }
}

/// The referral records after the referrer of `winner` was paid `amount`,
/// if the winner was referred; a winner without a record changes nothing.
pub open spec fn rewarded_referrals(
    referrals: Map<Identity, ReferrerAccount>,
    winner: Identity,
    referrer: Option<Identity>,
    amount: u64,
) -> Map<Identity, ReferrerAccount> {
    if referrer is Some && referrals.dom().contains(winner) {
        referrals.insert(winner, referrals[winner].with_reward(amount))
    } else {
        referrals
    }
}

/// Resolves a league: checks the winner that is handed in against the draw,
/// divides the pool, and records what follows from it.
///
/// Each participant draws with the weight of the score that `scores` give,
/// in the order of joining; `randomness` is the output of the request that
/// was recorded when the roster was closed, or `None` while it has not come.
/// `winner` must be the participant that the draw selects: the call checks a
/// claim, it does not take a choice.
///
/// On success the league is `Resolved` with its winner, the scores stand in
/// the roster, and the pool holds the winner's share alone, for the winner to
/// claim; the other three shares are due to the creator, the platform and
/// the referrer that was settled when the winner joined. The creator's record
/// has the pool as volume and the tier bonus, and the tier that the new
/// volume earns; the record of the winner's referral has the reward.
///
/// Fails with `Unauthorized` for a caller other than the factory's authority,
/// `LeagueAlreadyResolved` for a resolved league, `LeagueNotActive` for one
/// whose roster is not closed, whose time has not begun or that is cancelled,
/// `VrfRequestFailed` while the randomness has not come, `InvalidVrfProof`
/// for another winner than the drawn one, and `MathOverflow` where the payout
/// does not fit. A failed call changes nothing.
pub fn resolve_league(
    account: &mut LeagueAccount,
    factory: &LeagueFactory,
    creators: &mut CreatorTierRegistry,
    referrals: &mut ReferralRegistry,
    caller: Identity,
    winner: Identity,
    scores: Vec<(Identity, u32)>,
    randomness: Option<[u8; 32]>,
    now: i64,
    creator_bump: u8,
) -> (r: Result<Resolution, ErrorCode>)
    requires
        old(account).wf(),
        old(creators).wf(),
        old(referrals).wf(),
    ensures
        final(account).wf(),
        final(creators).wf(),
        final(referrals).wf(),
        final(account).league.state == old(account).league.state || old(account).league.state.may_become(
            final(account).league.state,
        ),
        final(account).address == old(account).address,
        keeps_referrers(old(referrals)@, final(referrals)@),
        match r {
            Ok(outcome) => {
                let league = old(account).league;
                let place = drawn_place(old(account).roster@, scores@, randomness->0@);
                let referrer = old(account).roster@[place].referrer;
                let record = old(creators).entry(league.creator, creator_bump);
                let discount = old(creators).discount_of(league.creator);
                &&& resolve_error(
                    league,
                    old(account).roster@,
                    factory.authority,
                    caller,
                    winner,
                    scores@,
                    randomness,
                    now,
                    *old(creators),
                    *old(referrals),
                    creator_bump,
                ) is None
                &&& 0 <= place < old(account).roster@.len()
                &&& is_selected(scores_of(rated_roster(old(account).roster@, scores@)), randomness->0@, place)
                &&& outcome.shares.is_split_of(
                    league.prize_pool as int,
                    league.creator_fee_bps as int,
                    league.platform_fee_bps as int,
                    league.referrer_fee_bps as int,
                    discount as int,
                    referrer is Some,
                )
                &&& outcome.shares.total() == league.prize_pool
                &&& final(account).league == (League {
                    state: LeagueState::Resolved,
                    winner: Some(winner),
                    prize_pool: outcome.shares.winner_share,
                    ..league
                })
                &&& final(account).roster@ == rated_roster(old(account).roster@, scores@)
                &&& final(creators)@ == old(creators)@.insert(
                    league.creator,
                    record.with_resolution(
                        league.prize_pool,
                        tier_bonus(league.prize_pool as int, league.platform_fee_bps as int, discount as int) as u64,
                    ),
                )
                &&& final(referrals)@ == rewarded_referrals(
                    old(referrals)@,
                    winner,
                    referrer,
                    outcome.shares.referrer_share,
                )
                &&& outcome.resolved == (LeagueResolved {
                    league_id: league.league_id,
                    winner,
                    prize_pool: league.prize_pool,
                    resolution_time: now,
                })
                &&& outcome.referral == (match referrer {
                    Some(paid) => Some(
                        ReferralReward {
                            referrer: paid,
                            referred_user: winner,
                            league_id: league.league_id,
                            reward_amount: outcome.shares.referrer_share,
                        },
                    ),
                    None => None,
                })
                &&& outcome.creator_update == (PremiumCreatorUpdated {
                    creator: league.creator,
                    tier: final(creators)@[league.creator].tier,
                    reduced_fee_bps: final(creators)@[league.creator].reduced_fee_bps,
                    bonus_rewards: final(creators)@[league.creator].bonus_rewards,
                })
            },
            Err(e) => {
                &&& resolve_error(
                    old(account).league,
                    old(account).roster@,
                    factory.authority,
                    caller,
                    winner,
                    scores@,
                    randomness,
                    now,
                    *old(creators),
                    *old(referrals),
                    creator_bump,
                ) == Some(e)
                &&& final(account).league == old(account).league
                &&& final(account).roster@ == old(account).roster@
                &&& final(creators)@ == old(creators)@
                &&& final(referrals)@ == old(referrals)@
            },
        },
{
    let league = account.league;
    if !caller.same(&factory.authority) {
        return Err(ErrorCode::Unauthorized);
    }
    match league.state {
        LeagueState::Resolved => { return Err(ErrorCode::LeagueAlreadyResolved); },
        LeagueState::Created | LeagueState::Cancelled => { return Err(ErrorCode::LeagueNotActive); },
        LeagueState::Filled | LeagueState::Active => {},
    }
    if now < league.start_time {
        return Err(ErrorCode::LeagueNotActive);
    }
    let random: [u8; 32] = match randomness {
        Some(bytes) => bytes,
        None => { return Err(ErrorCode::VrfRequestFailed); },
    };
    let ghost before = account.roster@;
    let ghost rated_spec = rated_roster(before, scores@);
    let mut rated: Vec<Participant> = Vec::new();
    let mut weights: Vec<u32> = Vec::new();
    let mut i: usize = 0;
    while i < account.roster.len()
        invariant
            i <= account.roster@.len(),
            account.roster@ == before,
            rated_spec == rated_roster(before, scores@),
            rated@.len() == i,
            weights@.len() == i,
            forall|k: int| 0 <= k < i ==> (#[trigger] rated@[k]) == rated_spec[k],
            forall|k: int| 0 <= k < i ==> (#[trigger] weights@[k]) == rated_spec[k].score,
        decreases account.roster@.len() - i,
    {
        let mut entry = account.roster[i];
        entry.score = lookup_score(&scores, &entry.user);
        rated.push(entry);
        weights.push(entry.score);
        i = i + 1;
    }
    assert(rated@ =~= rated_spec);
    assert(weights@ =~= scores_of(rated_spec));
    let place: usize = match select_winner(&weights, &random) {
        Some(p) => p,
        // A closed roster is never empty.
        None => { return Err(ErrorCode::LeagueNotActive); },
    };
    proof {
        let chosen = drawn_place(before, scores@, random@);
        assert(is_selected(scores_of(rated_spec), random@, place as int));
        lemma_holder_unique(
            scores_of(rated_spec),
            ticket_of(scores_of(rated_spec), random@),
            place as int,
            chosen,
        );
        assert(rated_spec[place as int].user == before[place as int].user);
    }
    let drawn = rated[place];
    if !drawn.user.same(&winner) {
        return Err(ErrorCode::InvalidVrfProof);
    }
    let pool: u64 = league.prize_pool;
    let discount: u16 = creators.discount_for(&league.creator);
    let has_referrer = drawn.referrer.is_some();
    let shares = match split_pool(
        pool,
        league.creator_fee_bps,
        league.platform_fee_bps,
        league.referrer_fee_bps,
        discount,
        has_referrer,
    ) {
        Ok(s) => s,
        Err(_) => { return Err(ErrorCode::MathOverflow); },
    };
    let creator_part: u64 = match checked_bps_part(pool, league.creator_fee_bps) {
        Some(part) => part,
        // The split has shown that the product fits.
        None => { return Err(ErrorCode::MathOverflow); },
    };
    proof {
        lemma_bps_part_bounds(
            pool as int,
            discounted_platform_bps(league.platform_fee_bps as int, discount as int),
            league.platform_fee_bps as int,
        );
    }
    let bonus: u64 = shares.creator_share - creator_part;
    if has_referrer && !referrals.reward_would_fit(&winner, shares.referrer_share) {
        return Err(ErrorCode::MathOverflow);
    }
    let record = match creators.record_resolution(league.creator, creator_bump, pool, bonus) {
        Ok(rec) => rec,
        Err(e) => { return Err(e); },
    };
    let referral = match drawn.referrer {
        Some(paid) => {
            let credited = referrals.credit_reward(winner, shares.referrer_share);
            assert(credited is Ok);
            Some(
                ReferralReward {
                    referrer: paid,
                    referred_user: winner,
                    league_id: league.league_id,
                    reward_amount: shares.referrer_share,
                },
            )
        },
        None => None,
    };
    account.roster = rated;
    account.league.state = LeagueState::Resolved;
    account.league.winner = Some(winner);
    account.league.prize_pool = shares.winner_share;
    proof {
        let after = account.roster@;
        lemma_parts_fit(
            pool as int,
            league.creator_fee_bps as int,
            league.platform_fee_bps as int,
            league.referrer_fee_bps as int,
        );
        assert(pool >= 1) by (nonlinear_arith)
            requires
                pool == league.current_participants * league.entry_fee,
                league.current_participants >= 1,
                league.entry_fee >= 1,
        ;
        assert(shares.winner_share > 0);
        assert forall|a: int, b: int| 0 <= a < b < after.len() implies (#[trigger] after[a]).user != (
        #[trigger] after[b]).user by {
            assert(before[a].user != before[b].user);
        }
        assert forall|k: int| 0 <= k < after.len() implies (#[trigger] after[k]).league == account.address by {
            assert(before[k].league == account.address);
        }
        assert forall|k: int| 0 <= k < after.len() implies !(#[trigger] after[k]).rewards_claimed by {
            if before[k].rewards_claimed {
                assert(league.winner == Some(before[k].user));
            }
        }
        lemma_place_of(after, place as int);
    }
    Ok(
        Resolution {
            shares,
            resolved: LeagueResolved { league_id: league.league_id, winner, prize_pool: pool, resolution_time: now },
            referral,
            creator_update: PremiumCreatorUpdated {
                creator: league.creator,
                tier: record.tier,
                reduced_fee_bps: record.reduced_fee_bps,
                bonus_rewards: record.bonus_rewards,
            },
        },
    )
}

} // verus!
