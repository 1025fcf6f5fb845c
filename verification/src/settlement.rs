use vstd::prelude::*;
use crate::error::ErrorCode;
use crate::events::RewardsClaimed;
use crate::factory::LeagueFactory;
use crate::identity::Identity;
use crate::league::has_joined;
use crate::league::lemma_place_of;
use crate::league::place_of;
use crate::league::users_distinct;
use crate::league::League;
use crate::league::LeagueAccount;
use crate::league::LeagueState;
use crate::league::Participant;

verus! {

/// Why `caller` cannot claim, if the caller cannot: the league is not
/// resolved, the caller is not its winner, or the winner's share was claimed
/// before.
pub open spec fn claim_error(league: League, roster: Seq<Participant>, caller: Identity) -> Option<ErrorCode> {
    if league.state != LeagueState::Resolved {
        Some(ErrorCode::InvalidLeagueState)
    } else if league.winner != Some(caller) {
        Some(ErrorCode::Unauthorized)
    } else if roster[place_of(roster, caller)].rewards_claimed {
        Some(ErrorCode::InsufficientFunds)
    } else {
        None
    }
}

/// The league after the winner's share left the pool.
pub open spec fn claimed_league(league: League) -> League {
    League { prize_pool: 0, ..league }
}

/// The roster after `user` claimed.
pub open spec fn claimed_roster(roster: Seq<Participant>, user: Identity) -> Seq<Participant> {
    roster.update(
        place_of(roster, user),
        Participant { rewards_claimed: true, ..roster[place_of(roster, user)] },
    )
}

/// A claim is good once: after a claim that succeeded, a second claim by the
/// same winner fails, so the winner's share is paid no second time.
pub proof fn lemma_second_claim_fails(league: League, roster: Seq<Participant>, caller: Identity)
    requires
        users_distinct(roster),
        has_joined(roster, caller),
        claim_error(league, roster, caller) is None,
    ensures
        claim_error(claimed_league(league), claimed_roster(roster, caller), caller) == Some(
            ErrorCode::InsufficientFunds,
        ),
{
    let place = place_of(roster, caller);
    let after = claimed_roster(roster, caller);
    assert(after[place].user == caller);
    assert forall|i: int, j: int| 0 <= i < j < after.len() implies (#[trigger] after[i]).user != (
    #[trigger] after[j]).user by {
        assert(roster[i].user != roster[j].user);
    }
    lemma_place_of(after, place);
}

/// The winner of a resolved league takes the winner's share out of the pool.
///
/// The amount is all that the pool holds since the resolution, and the pool
/// is empty afterwards. The claim is marked in the winner's record, so that a
/// second claim fails with `InsufficientFunds` and moves nothing.
///
/// A league that is not resolved fails with `InvalidLeagueState`, a caller
/// other than the winner with `Unauthorized`. A failed call changes nothing.
pub fn claim_rewards(account: &mut LeagueAccount, caller: Identity) -> (r: Result<RewardsClaimed, ErrorCode>)
    requires
        old(account).wf(),
    ensures
        final(account).wf(),
        final(account).league.state == old(account).league.state || old(account).league.state.may_become(
            final(account).league.state,
        ),
        final(account).address == old(account).address,
        match r {
            Ok(event) => {
                &&& claim_error(old(account).league, old(account).roster@, caller) is None
                &&& final(account).league == claimed_league(old(account).league)
                &&& final(account).roster@ == claimed_roster(old(account).roster@, caller)
                &&& event == (RewardsClaimed {
                    league_id: old(account).league.league_id,
                    participant: caller,
                    amount: old(account).league.prize_pool,
                })
                &&& event.amount == old(account).league.winner_share()
                &&& event.amount > 0
                &&& claim_error(final(account).league, final(account).roster@, caller) == Some(
                    ErrorCode::InsufficientFunds,
                )
            },
            Err(e) => {
                &&& claim_error(old(account).league, old(account).roster@, caller) == Some(e)
                &&& final(account).league == old(account).league
                &&& final(account).roster@ == old(account).roster@
            },
        },
{
    let league = account.league;
    match league.state {
        LeagueState::Resolved => {},
        _ => { return Err(ErrorCode::InvalidLeagueState); },
    }
    match league.winner {
        Some(winner) => {
            if !winner.same(&caller) {
                return Err(ErrorCode::Unauthorized);
            }
        },
        None => { return Err(ErrorCode::Unauthorized); },
    }
    let place: usize = match account.find_participant(&caller) {
        Some(p) => p,
        // The winner of a resolved league is on its roster.
        None => { return Err(ErrorCode::Unauthorized); },
    };
    let mut record = account.roster[place];
    if record.rewards_claimed {
        return Err(ErrorCode::InsufficientFunds);
    }
    let ghost before = account.roster@;
    let amount: u64 = league.prize_pool;
    record.rewards_claimed = true;
    account.roster.set(place, record);
    account.league.prize_pool = 0;
    proof {
        let after = account.roster@;
        lemma_second_claim_fails(league, before, caller);
        assert forall|i: int, j: int| 0 <= i < j < after.len() implies (#[trigger] after[i]).user != (
        #[trigger] after[j]).user by {
            assert(before[i].user != before[j].user);
        }
        assert forall|k: int| 0 <= k < after.len() implies (#[trigger] after[k]).league == account.address by {
            assert(before[k].league == account.address);
        }
        assert forall|k: int| 0 <= k < after.len() && (#[trigger] after[k]).rewards_claimed implies league.winner
            == Some(after[k].user) by {
            if k != place {
                assert(before[k].rewards_claimed);
            }
        }
        lemma_place_of(after, place as int);
    }
    Ok(RewardsClaimed { league_id: league.league_id, participant: caller, amount })
}

/// Why `caller` cannot cancel the league at `now`, if the caller cannot: the
/// league is resolved or cancelled already, or the caller has no right to
/// cancel it. The factory's authority may cancel at any time before the end;
/// anybody else only a league whose roster is closed and whose time is over.
pub open spec fn withdraw_error(league: League, authority: Identity, caller: Identity, now: i64) -> Option<
    ErrorCode,
> {
    if league.state == LeagueState::Resolved {
        Some(ErrorCode::LeagueAlreadyResolved)
    } else if league.state == LeagueState::Cancelled {
        Some(ErrorCode::InvalidLeagueState)
    } else if caller != authority && (league.state == LeagueState::Created || now <= league.end_time) {
        Some(ErrorCode::Unauthorized)
    } else {
        None
    }
}

/// What each participant is owed when the league is cancelled: the entry
/// fee, in the order of joining.
pub open spec fn refunds_of(league: League, roster: Seq<Participant>) -> Seq<(Identity, u64)> {
    Seq::new(roster.len(), |i: int| (roster[i].user, league.entry_fee))
}

/// Cancels a league that was not resolved and gives back what was paid in.
///
/// The result lists every participant with the entry fee, in the order of
/// joining: together they are all that the pool held, so that either all are
/// refunded or none is. The league is `Cancelled` and its pool is empty.
///
/// A resolved league fails with `LeagueAlreadyResolved`, a cancelled one with
/// `InvalidLeagueState`. The factory's authority may cancel at any time;
/// anybody else only once the league's time is over, and fails with
/// `Unauthorized` before that and for a league whose roster is still open. A
/// failed call changes nothing.
pub fn emergency_withdraw(account: &mut LeagueAccount, factory: &LeagueFactory, caller: Identity, now: i64) -> (r:
    Result<Vec<(Identity, u64)>, ErrorCode>)
    requires
        old(account).wf(),
    ensures
        final(account).wf(),
        final(account).league.state == old(account).league.state || old(account).league.state.may_become(
            final(account).league.state,
        ),
        final(account).address == old(account).address,
        final(account).roster@ == old(account).roster@,
        match r {
            Ok(refunds) => {
                &&& withdraw_error(old(account).league, factory.authority, caller, now) is None
                &&& final(account).league == (League {
                    state: LeagueState::Cancelled,
                    prize_pool: 0,
                    ..old(account).league
                })
                &&& refunds@ == refunds_of(old(account).league, old(account).roster@)
                &&& refunds@.len() * old(account).league.entry_fee == old(account).league.prize_pool
            },
            Err(e) => {
                &&& withdraw_error(old(account).league, factory.authority, caller, now) == Some(e)
                &&& final(account).league == old(account).league
            },
        },
{
    let league = account.league;
    let forced = caller.same(&factory.authority);
    match league.state {
        LeagueState::Resolved => { return Err(ErrorCode::LeagueAlreadyResolved); },
        LeagueState::Cancelled => { return Err(ErrorCode::InvalidLeagueState); },
        LeagueState::Created => {
            if !forced {
                return Err(ErrorCode::Unauthorized);
            }
        },
        LeagueState::Filled | LeagueState::Active => {
            if !forced && now <= league.end_time {
                return Err(ErrorCode::Unauthorized);
            }
        },
    }
    let mut refunds: Vec<(Identity, u64)> = Vec::new();
    let mut i: usize = 0;
    while i < account.roster.len()
        invariant
            i <= account.roster@.len(),
            refunds@.len() == i,
            forall|k: int| 0 <= k < i ==> (#[trigger] refunds@[k]) == (account.roster@[k].user, league.entry_fee),
        decreases account.roster@.len() - i,
    {
        refunds.push((account.roster[i].user, league.entry_fee));
        i = i + 1;
    }
    assert(refunds@ =~= refunds_of(league, account.roster@));
    account.league.state = LeagueState::Cancelled;
    account.league.prize_pool = 0;
    proof {
        assert forall|k: int| 0 <= k < account.roster@.len() implies !(#[trigger] account.roster@[k]).rewards_claimed by {
            if account.roster@[k].rewards_claimed {
                assert(league.winner == Some(account.roster@[k].user));
            }
        }
    }
    Ok(refunds)
}

} // verus!
