use vstd::prelude::*;
use crate::error::ErrorCode;
use crate::events::FactoryInitialized;
use crate::events::LeagueCreated;
use crate::fees::is_policy_split;
use crate::fees::validate_fee_split;
use crate::fees::CREATOR_FEE_BPS;
use crate::fees::PLATFORM_FEE_BPS;
use crate::fees::REFERRER_FEE_BPS;
use crate::identity::Identity;
use crate::league::League;
use crate::league::LeagueAccount;
use crate::league::LeagueState;
use crate::league::Participant;
use crate::tier::CreatorTierRegistry;

verus! {

/// The one configuration of a deployment: who administers it, who receives
/// the platform's fees, how many leagues were created, and the default rates.
#[derive(Clone, Copy, Debug)]
pub struct LeagueFactory {
    pub authority: Identity,
    pub fee_recipient: Identity,
    pub league_count: u64,
    pub platform_fee_bps: u16,
    pub creator_fee_bps: u16,
    pub referrer_fee_bps: u16,
    pub bump: u8,
}

impl LeagueFactory {
    /// The default rates are those that the policy fixes.
    pub open spec fn wf(self) -> bool {
        is_policy_split(self.creator_fee_bps as int, self.platform_fee_bps as int, self.referrer_fee_bps as int)
    }

    /// The configuration as it is set up: no league yet, the policy's rates.
    pub open spec fn fresh(authority: Identity, fee_recipient: Identity, bump: u8) -> LeagueFactory {
        LeagueFactory {
            authority,
            fee_recipient,
            league_count: 0,
            platform_fee_bps: 300,
            creator_fee_bps: 600,
            referrer_fee_bps: 100,
            bump,
        }
    }

    /// The configuration after one more league was created.
    pub open spec fn with_league(self) -> LeagueFactory {
        LeagueFactory { league_count: (self.league_count + 1) as u64, ..self }
    }
}

/// Sets up the factory in `slot`, with `authority` as its administrator.
///
/// This succeeds once: where `slot` already holds a configuration, that
/// configuration stays as it is and the call fails with `InvalidLeagueState`.
pub fn initialize_factory(
    slot: &mut Option<LeagueFactory>,
    authority: Identity,
    fee_recipient: Identity,
    bump: u8,
) -> (r: Result<FactoryInitialized, ErrorCode>)
    ensures
        match r {
            Ok(event) => {
                &&& *old(slot) is None
                &&& *final(slot) == Some(LeagueFactory::fresh(authority, fee_recipient, bump))
                &&& event.authority == authority
                &&& event.fee_recipient == fee_recipient
                &&& final(slot)->0.wf()
            },
            Err(e) => {
                &&& *old(slot) is Some
                &&& e == ErrorCode::InvalidLeagueState
                &&& *final(slot) == *old(slot)
            },
        },
{
    if slot.is_some() {
        return Err(ErrorCode::InvalidLeagueState);
    }
    *slot = Some(
        LeagueFactory {
            authority,
            fee_recipient,
            league_count: 0,
            platform_fee_bps: PLATFORM_FEE_BPS,
            creator_fee_bps: CREATOR_FEE_BPS,
            referrer_fee_bps: REFERRER_FEE_BPS,
            bump,
        },
    );
    Ok(FactoryInitialized { authority, fee_recipient })
}

/// The terms of a league are valid: room for two at least, a duration and an
/// entry fee above zero.
pub open spec fn valid_terms(entry_fee: u64, max_participants: u32, duration: i64) -> bool {
    max_participants >= 2 && duration > 0 && entry_fee > 0
}

/// Why a league cannot be created, if it cannot: the rates are not the
/// policy's, the terms are not valid, or a count has no room for one more.
pub open spec fn creation_error(
    league_count: u64,
    creator_leagues: u64,
    entry_fee: u64,
    max_participants: u32,
    duration: i64,
    creator_fee_bps: u16,
    platform_fee_bps: u16,
    referrer_fee_bps: u16,
) -> Option<ErrorCode> {
    if !is_policy_split(creator_fee_bps as int, platform_fee_bps as int, referrer_fee_bps as int) {
        Some(ErrorCode::InvalidFeePercentages)
    } else if !valid_terms(entry_fee, max_participants, duration) {
        Some(ErrorCode::InvalidLeagueState)
    } else if league_count == u64::MAX || creator_leagues == u64::MAX {
        Some(ErrorCode::MathOverflow)
    } else {
        None
    }
}

/// A league as it is created: open, with nobody in it and nothing in its pool.
pub open spec fn new_league(
    factory_key: Identity,
    creator: Identity,
    league_id: u64,
    entry_fee: u64,
    max_participants: u32,
    duration: i64,
    creator_fee_bps: u16,
    platform_fee_bps: u16,
    referrer_fee_bps: u16,
    bump: u8,
) -> League {
    League {
        factory: factory_key,
        creator,
        league_id,
        entry_fee,
        max_participants,
        current_participants: 0,
        duration,
        start_time: 0,
        end_time: 0,
        state: LeagueState::Created,
        prize_pool: 0,
        creator_fee_bps,
        platform_fee_bps,
        referrer_fee_bps,
        winner: None,
        vrf_request_key: None,
        bump,
    }
}

/// Creates a league of the factory at `factory_key` for `creator`, to be kept
/// at `league_key`.
///
/// The three rates must be exactly the policy's (600, 300, 100): any other
/// triple fails with `InvalidFeePercentages`, also one within the cap. Then
/// the terms must be valid, else the call fails with `InvalidLeagueState`. On
/// success the league is open and empty, the factory has counted it, and so
/// has the creator's record, which is made on the creator's first league.
/// Where a count has no room the call fails with `MathOverflow`. A failed
/// call changes nothing.
pub fn create_league(
    factory: &mut LeagueFactory,
    factory_key: Identity,
    creators: &mut CreatorTierRegistry,
    creator: Identity,
    league_key: Identity,
    league_id: u64,
    entry_fee: u64,
    max_participants: u32,
    duration: i64,
    creator_fee_bps: u16,
    platform_fee_bps: u16,
    referrer_fee_bps: u16,
    bump: u8,
    creator_bump: u8,
) -> (r: Result<(LeagueAccount, LeagueCreated), ErrorCode>)
    requires
        old(creators).wf(),
    ensures
        final(creators).wf(),
        match r {
            Ok((account, event)) => {
                &&& creation_error(
                    old(factory).league_count,
                    old(creators).entry(creator, creator_bump).total_leagues,
                    entry_fee,
                    max_participants,
                    duration,
                    creator_fee_bps,
                    platform_fee_bps,
                    referrer_fee_bps,
                ) is None
                &&& account.address == league_key
                &&& account.league == new_league(
                    factory_key,
                    creator,
                    league_id,
                    entry_fee,
                    max_participants,
                    duration,
                    creator_fee_bps,
                    platform_fee_bps,
                    referrer_fee_bps,
                    bump,
                )
                &&& account.roster@ == Seq::<Participant>::empty()
                &&& account.wf()
                &&& *final(factory) == old(factory).with_league()
                &&& final(creators)@ == old(creators)@.insert(
                    creator,
                    old(creators).entry(creator, creator_bump).with_league(),
                )
                &&& event.league_id == league_id
                &&& event.creator == creator
                &&& event.entry_fee == entry_fee
                &&& event.max_participants == max_participants
                &&& event.duration == duration
            },
            Err(e) => {
                &&& creation_error(
                    old(factory).league_count,
                    old(creators).entry(creator, creator_bump).total_leagues,
                    entry_fee,
                    max_participants,
                    duration,
                    creator_fee_bps,
                    platform_fee_bps,
                    referrer_fee_bps,
                ) == Some(e)
                &&& *final(factory) == *old(factory)
                &&& final(creators)@ == old(creators)@
            },
        },
{
    match validate_fee_split(creator_fee_bps, platform_fee_bps, referrer_fee_bps) {
        Ok(()) => {},
        Err(e) => { return Err(e); },
    }
    if max_participants < 2 || duration <= 0 || entry_fee == 0 {
        return Err(ErrorCode::InvalidLeagueState);
    }
    let league_count: u64 = match factory.league_count.checked_add(1) {
        Some(n) => n,
        None => { return Err(ErrorCode::MathOverflow); },
    };
    match creators.record_league_created(creator, creator_bump) {
        Ok(_) => {},
        Err(e) => { return Err(e); },
    }
    factory.league_count = league_count;
    let league = League {
        factory: factory_key,
        creator,
        league_id,
        entry_fee,
        max_participants,
        current_participants: 0,
        duration,
        start_time: 0,
        end_time: 0,
        state: LeagueState::Created,
        prize_pool: 0,
        creator_fee_bps,
        platform_fee_bps,
        referrer_fee_bps,
        winner: None,
        vrf_request_key: None,
        bump,
    };
    let account = LeagueAccount { address: league_key, league, roster: Vec::new() };
    let event = LeagueCreated { league_id, creator, entry_fee, max_participants, duration };
    Ok((account, event))
}

/// Whatever the rates are, a league is created only with the policy's, and a
/// triple that is not the policy's is refused for its rates before anything
/// else is looked at.
pub proof fn lemma_only_policy_split_creates(
    league_count: u64,
    creator_leagues: u64,
    entry_fee: u64,
    max_participants: u32,
    duration: i64,
    creator_fee_bps: u16,
    platform_fee_bps: u16,
    referrer_fee_bps: u16,
)
    ensures
        creation_error(
            league_count,
            creator_leagues,
            entry_fee,
            max_participants,
            duration,
            creator_fee_bps,
            platform_fee_bps,
            referrer_fee_bps,
        ) is None ==> creator_fee_bps == 600 && platform_fee_bps == 300 && referrer_fee_bps == 100
            && creator_fee_bps + platform_fee_bps + referrer_fee_bps == 1000,
        !(creator_fee_bps == 600 && platform_fee_bps == 300 && referrer_fee_bps == 100) ==> creation_error(
            league_count,
            creator_leagues,
            entry_fee,
            max_participants,
            duration,
            creator_fee_bps,
            platform_fee_bps,
            referrer_fee_bps,
        ) == Some(ErrorCode::InvalidFeePercentages),
{
}

} // verus!
