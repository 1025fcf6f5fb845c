use vstd::prelude::*;
use crate::identity::Identity;
use crate::tier::CreatorTier;

verus! {

/// The factory was set up.
#[derive(Clone, Copy, Debug)]
pub struct FactoryInitialized {
    pub authority: Identity,
    pub fee_recipient: Identity,
}

/// A league was created.
#[derive(Clone, Copy, Debug)]
pub struct LeagueCreated {
    pub league_id: u64,
    pub creator: Identity,
    pub entry_fee: u64,
    pub max_participants: u32,
    pub duration: i64,
}

/// A league's roster was closed and its time began to run.
#[derive(Clone, Copy, Debug)]
pub struct LeagueFilled {
    pub league_id: u64,
    pub start_time: i64,
    pub end_time: i64,
}

/// A user joined a league.
#[derive(Clone, Copy, Debug)]
pub struct ParticipantJoined {
    pub league_id: u64,
    pub participant: Identity,
    pub referrer: Option<Identity>,
    pub entry_time: i64,
}

/// A league was resolved.
#[derive(Clone, Copy, Debug)]
pub struct LeagueResolved {
    pub league_id: u64,
    pub winner: Identity,
    pub prize_pool: u64,
    pub resolution_time: i64,
}

/// A winner took the winner's share.
#[derive(Clone, Copy, Debug)]
pub struct RewardsClaimed {
    pub league_id: u64,
    pub participant: Identity,
    pub amount: u64,
}

/// A referrer was paid for a referred winner.
#[derive(Clone, Copy, Debug)]
pub struct ReferralReward {
    pub referrer: Identity,
    pub referred_user: Identity,
    pub league_id: u64,
    pub reward_amount: u64,
}

/// A creator's record changed.
#[derive(Clone, Copy, Debug)]
pub struct PremiumCreatorUpdated {
    pub creator: Identity,
    pub tier: CreatorTier,
    pub reduced_fee_bps: u16,
    pub bonus_rewards: u64,
}

} // verus!
