pub mod error;
pub mod events;
pub mod factory;
pub mod fees;
pub mod identity;
pub mod joining;
pub mod league;
pub mod referral;
pub mod registry;
pub mod resolution;
pub mod selection;
pub mod settlement;
pub mod tier;

pub use error::ErrorCode;
pub use events::FactoryInitialized;
pub use events::LeagueCreated;
pub use events::LeagueFilled;
pub use events::LeagueResolved;
pub use events::ParticipantJoined;
pub use events::PremiumCreatorUpdated;
pub use events::ReferralReward;
pub use events::RewardsClaimed;
pub use factory::create_league;
pub use factory::initialize_factory;
pub use factory::LeagueFactory;
pub use fees::split_pool;
pub use fees::validate_fee_split;
pub use fees::FeeShares;
pub use identity::Identity;
pub use joining::activate_league;
pub use joining::fill_league;
pub use joining::join_league;
pub use joining::JoinReceipt;
pub use league::League;
pub use league::LeagueAccount;
pub use league::LeagueState;
pub use league::Participant;
pub use referral::ReferralRegistry;
pub use referral::ReferrerAccount;
pub use resolution::resolve_league;
pub use resolution::Resolution;
pub use selection::select_winner;
pub use settlement::claim_rewards;
pub use settlement::emergency_withdraw;
pub use tier::CreatorTier;
pub use tier::CreatorTierRegistry;
pub use tier::PremiumCreator;
