use vstd::prelude::*;
use crate::error::ErrorCode;
use crate::events::LeagueFilled;
use crate::events::ParticipantJoined;
use crate::factory::LeagueFactory;
use crate::identity::Identity;
use crate::league::has_joined;
use crate::league::League;
use crate::league::LeagueAccount;
use crate::league::LeagueState;
use crate::league::Participant;
use crate::referral::keeps_referrers;
use crate::referral::ReferralRegistry;

verus! {

/// What a join brings about: the join itself and, where it closed the
/// roster, the league's filling.
#[derive(Clone, Copy, Debug)]
pub struct JoinReceipt {
    pub joined: ParticipantJoined,
    pub filled: Option<LeagueFilled>,
}

/// The league's time does not fit if it begins at `now`.
pub open spec fn time_overflows(league: League, now: i64) -> bool {
    now + league.duration > i64::MAX || now + league.duration < i64::MIN
}

/// Why `user` cannot join at `now`, if the user cannot: the roster is full,
/// the league is no longer open, the user is in it already, or the pool or
/// the league's time has no room.
pub open spec fn join_error(league: League, roster: Seq<Participant>, user: Identity, now: i64) -> Option<
    ErrorCode,
> {
    if league.current_participants >= league.max_participants {
        Some(ErrorCode::LeagueFull)
    } else if league.state != LeagueState::Created {
        Some(ErrorCode::LeagueNotActive)
    } else if has_joined(roster, user) {
        Some(ErrorCode::LeagueNotActive)
    } else if league.prize_pool + league.entry_fee > u64::MAX {
        Some(ErrorCode::MathOverflow)
    } else if league.current_participants + 1 == league.max_participants && time_overflows(league, now) {
        Some(ErrorCode::MathOverflow)
    } else {
        None
    }
}

/// The league once its roster is closed at `now` and randomness was asked
/// for under `vrf_request`.
pub open spec fn filled_league(league: League, now: i64, vrf_request: Identity) -> League {
    League {
        state: LeagueState::Filled,
        start_time: now,
        end_time: (now + league.duration) as i64,
        vrf_request_key: Some(vrf_request),
        ..league
    }
}

/// The league after one more user paid the entry fee at `now`: the user is
/// counted, the fee is in the pool, and if that was the last place the roster
/// is closed in the same step.
pub open spec fn joined_league(league: League, now: i64, vrf_request: Identity) -> League {
    let counted = League {
        current_participants: (league.current_participants + 1) as u32,
        prize_pool: (league.prize_pool + league.entry_fee) as u64,
        ..league
    };
    if counted.current_participants == league.max_participants {
        filled_league(counted, now, vrf_request)
    } else {
        counted
    }
}

/// The record of a user who joins at `now`.
pub open spec fn new_participant(
    league_key: Identity,
    user: Identity,
    now: i64,
    referrer: Option<Identity>,
    bump: u8,
) -> Participant {
    Participant { league: league_key, user, entry_time: now, referrer, score: 0, rewards_claimed: false, bump }
}

/// The event of a league's filling.
pub open spec fn filled_event(league: League) -> LeagueFilled {
    LeagueFilled { league_id: league.league_id, start_time: league.start_time, end_time: league.end_time }
}

/// One more participant pays one more entry fee.
pub proof fn lemma_collected_step(count: int, fee: int)
    ensures
        (count + 1) * fee == count * fee + fee,
{
    assert((count + 1) * fee == count * fee + fee) by (nonlinear_arith);
}

/// `user` joins the league at `now`, with `referrer` as a hint at who
/// referred the user.
///
/// The league must be open, with a place left, and the user not in it yet.
/// The entry fee goes into the pool and the user onto the roster. The user's
/// referrer is the one recorded at the user's first referral, whatever the
/// hint says; a user without a record gets one if the hint names somebody
/// else. The join that takes the last place closes the roster in the same
/// step: the league is `Filled`, its time runs from `now`, and `vrf_request`
/// is recorded as the outstanding request for randomness.
///
/// A league with no place left fails with `LeagueFull`; a league that is not
/// open, or that the user is in already, with `LeagueNotActive`; a pool or an
/// end time that does not fit with `MathOverflow`. A failed call changes
/// nothing.
pub fn join_league(
    account: &mut LeagueAccount,
    referrals: &mut ReferralRegistry,
    user: Identity,
    referrer: Option<Identity>,
    now: i64,
    vrf_request: Identity,
    bump: u8,
    referrer_bump: u8,
) -> (r: Result<JoinReceipt, ErrorCode>)
    requires
        old(account).wf(),
        old(referrals).wf(),
    ensures
        final(account).wf(),
        final(referrals).wf(),
        final(account).league.state == old(account).league.state || old(account).league.state.may_become(
            final(account).league.state,
        ),
        final(account).address == old(account).address,
        final(account).league.current_participants <= final(account).league.max_participants,
        keeps_referrers(old(referrals)@, final(referrals)@),
        match r {
            Ok(receipt) => {
                &&& join_error(old(account).league, old(account).roster@, user, now) is None
                &&& old(account).league.current_participants < old(account).league.max_participants
                &&& final(account).league == joined_league(old(account).league, now, vrf_request)
                &&& final(account).roster@ == old(account).roster@.push(
                    new_participant(
                        old(account).address,
                        user,
                        now,
                        old(referrals).effective_referrer(user, referrer),
                        bump,
                    ),
                )
                &&& final(referrals)@ == old(referrals).after_join(user, referrer, now, referrer_bump)
                &&& receipt.joined == (ParticipantJoined {
                    league_id: old(account).league.league_id,
                    participant: user,
                    referrer: old(referrals).effective_referrer(user, referrer),
                    entry_time: now,
                })
                &&& receipt.filled == (if final(account).league.state == LeagueState::Filled {
                    Some(filled_event(final(account).league))
                } else {
                    None
                })
            },
            Err(e) => {
                &&& join_error(old(account).league, old(account).roster@, user, now) == Some(e)
                &&& final(account).league == old(account).league
                &&& final(account).roster@ == old(account).roster@
                &&& final(referrals)@ == old(referrals)@
            },
        },
{
    let league = account.league;
    if league.current_participants >= league.max_participants {
        return Err(ErrorCode::LeagueFull);
    }
    match league.state {
        LeagueState::Created => {},
        _ => { return Err(ErrorCode::LeagueNotActive); },
    }
    if account.find_participant(&user).is_some() {
        return Err(ErrorCode::LeagueNotActive);
    }
    let prize_pool: u64 = match league.prize_pool.checked_add(league.entry_fee) {
        Some(n) => n,
        None => { return Err(ErrorCode::MathOverflow); },
    };
    let count: u32 = league.current_participants + 1;
    let fills = count == league.max_participants;
    let end_time: i64 = if fills {
        match now.checked_add(league.duration) {
            Some(t) => t,
            None => { return Err(ErrorCode::MathOverflow); },
        }
    } else {
        0
    };
    let effective = referrals.resolve_referrer(user, referrer, now, referrer_bump);
    let ghost before = account.roster@;
    account.roster.push(
        Participant {
            league: account.address,
            user,
            entry_time: now,
            referrer: effective,
            score: 0,
            rewards_claimed: false,
            bump,
        },
    );
    account.league.current_participants = count;
    account.league.prize_pool = prize_pool;
    let filled = if fills {
        account.league.state = LeagueState::Filled;
        account.league.start_time = now;
        account.league.end_time = end_time;
        account.league.vrf_request_key = Some(vrf_request);
        Some(LeagueFilled { league_id: league.league_id, start_time: now, end_time })
    } else {
        None
    };
    proof {
        lemma_collected_step(league.current_participants as int, league.entry_fee as int);
        let after = account.roster@;
        assert forall|i: int, j: int| 0 <= i < j < after.len() implies (#[trigger] after[i]).user != (
        #[trigger] after[j]).user by {
            if j < before.len() {
                assert(before[i].user != before[j].user);
            } else {
                assert(before[i].user == after[i].user);
            }
        }
        assert forall|i: int| 0 <= i < after.len() implies (#[trigger] after[i]).league == account.address by {
            if i < before.len() {
                assert(before[i].league == account.address);
            }
        }
        assert forall|i: int| 0 <= i < after.len() && (#[trigger] after[i]).rewards_claimed implies false by {
            if i < before.len() {
                assert(before[i].rewards_claimed);
            }
        }
    }
    Ok(
        JoinReceipt {
            joined: ParticipantJoined {
                league_id: league.league_id,
                participant: user,
                referrer: effective,
                entry_time: now,
            },
            filled,
        },
    )
}

/// Why the roster cannot be closed by `caller` at `now`, if it cannot: the
/// caller is not the factory's authority, the league is not open, the roster
/// is empty or has places left that the policy does not let go, or the
/// league's time has no room.
pub open spec fn fill_error(
    league: League,
    authority: Identity,
    caller: Identity,
    now: i64,
    allow_partial: bool,
) -> Option<ErrorCode> {
    if caller != authority {
        Some(ErrorCode::Unauthorized)
    } else if league.state != LeagueState::Created {
        Some(ErrorCode::InvalidLeagueState)
    } else if league.current_participants == 0 {
        Some(ErrorCode::InvalidLeagueState)
    } else if league.current_participants < league.max_participants && !allow_partial {
        Some(ErrorCode::InvalidLeagueState)
    } else if time_overflows(league, now) {
        Some(ErrorCode::MathOverflow)
    } else {
        None
    }
}

/// Closes the roster of an open league at `now`, on the word of the
/// factory's authority.
///
/// This is the fallback for a league whose roster was not closed by the join
/// that took the last place, and has the same effect: the league is `Filled`,
/// its time runs from `now`, and `vrf_request` is recorded. The roster must
/// be full. Whether a roster with places left may be closed is a matter of
/// policy, which the caller states with `allow_partial`; an empty roster is
/// never closed.
///
/// A caller other than the authority fails with `Unauthorized`; a league
/// that is not open, or a roster that may not be closed, with
/// `InvalidLeagueState`; an end time that does not fit with `MathOverflow`.
/// A failed call changes nothing.
pub fn fill_league(
    account: &mut LeagueAccount,
    factory: &LeagueFactory,
    caller: Identity,
    now: i64,
    vrf_request: Identity,
    allow_partial: bool,
) -> (r: Result<LeagueFilled, ErrorCode>)
    requires
        old(account).wf(),
    ensures
        final(account).wf(),
        final(account).league.state == old(account).league.state || old(account).league.state.may_become(
            final(account).league.state,
        ),
        final(account).address == old(account).address,
        final(account).roster@ == old(account).roster@,
        match r {
            Ok(event) => {
                &&& fill_error(old(account).league, factory.authority, caller, now, allow_partial) is None
                &&& final(account).league == filled_league(old(account).league, now, vrf_request)
                &&& event == filled_event(final(account).league)
            },
            Err(e) => {
                &&& fill_error(old(account).league, factory.authority, caller, now, allow_partial) == Some(e)
                &&& final(account).league == old(account).league
            },
        },
{
    let league = account.league;
    if !caller.same(&factory.authority) {
        return Err(ErrorCode::Unauthorized);
    }
    match league.state {
        LeagueState::Created => {},
        _ => { return Err(ErrorCode::InvalidLeagueState); },
    }
    if league.current_participants == 0 {
        return Err(ErrorCode::InvalidLeagueState);
    }
    if league.current_participants < league.max_participants && !allow_partial {
        return Err(ErrorCode::InvalidLeagueState);
    }
    let end_time: i64 = match now.checked_add(league.duration) {
        Some(t) => t,
        None => { return Err(ErrorCode::MathOverflow); },
    };
    account.league.state = LeagueState::Filled;
    account.league.start_time = now;
    account.league.end_time = end_time;
    account.league.vrf_request_key = Some(vrf_request);
    Ok(LeagueFilled { league_id: league.league_id, start_time: now, end_time })
}

/// Why a league cannot become active at `now`, if it cannot: its roster is
/// not closed, or its time has not begun.
pub open spec fn activation_error(league: League, now: i64) -> Option<ErrorCode> {
    if league.state != LeagueState::Filled {
        Some(ErrorCode::InvalidLeagueState)
    } else if now < league.start_time {
        Some(ErrorCode::LeagueNotActive)
    } else {
        None
    }
}

/// Makes a filled league active once its time has begun. Nothing else
/// changes, and no funds move.
///
/// A league that is not `Filled` fails with `InvalidLeagueState`, one whose
/// time has not begun at `now` with `LeagueNotActive`. A failed call changes
/// nothing.
pub fn activate_league(account: &mut LeagueAccount, now: i64) -> (r: Result<(), ErrorCode>)
    requires
        old(account).wf(),
    ensures
        final(account).wf(),
        final(account).league.state == old(account).league.state || old(account).league.state.may_become(
            final(account).league.state,
        ),
        final(account).address == old(account).address,
        final(account).roster@ == old(account).roster@,
        match r {
            Ok(()) => {
                &&& activation_error(old(account).league, now) is None
                &&& final(account).league == (League { state: LeagueState::Active, ..old(account).league })
            },
            Err(e) => {
                &&& activation_error(old(account).league, now) == Some(e)
                &&& final(account).league == old(account).league
            },
        },
{
    match account.league.state {
        LeagueState::Filled => {},
        _ => { return Err(ErrorCode::InvalidLeagueState); },
    }
    if now < account.league.start_time {
        return Err(ErrorCode::LeagueNotActive);
    }
    account.league.state = LeagueState::Active;
    Ok(())
}

} // verus!
