use vstd::prelude::*;
use crate::error::ErrorCode;
use crate::fees::PLATFORM_FEE_BPS;
use crate::identity::Identity;
use crate::registry::Book;
use crate::registry::Keyed;

verus! {

/// The volume from which a creator is Silver.
pub const SILVER_VOLUME: u64 = 10_000;

/// The volume from which a creator is Gold.
pub const GOLD_VOLUME: u64 = 100_000;

/// The volume from which a creator is Diamond.
pub const DIAMOND_VOLUME: u64 = 1_000_000;

/// A creator's level, from the lowest to the highest.
#[derive(Clone, Copy, Debug, PartialEq, Eq, Structural)]
pub enum CreatorTier {
    Bronze,
    Silver,
    Gold,
    Diamond,
}

impl CreatorTier {
    /// The place of the tier in the order of the tiers, Bronze being 0.
    pub open spec fn rank(self) -> int {
        match self {
            CreatorTier::Bronze => 0,
            CreatorTier::Silver => 1,
            CreatorTier::Gold => 2,
            CreatorTier::Diamond => 3,
        }
    }

    /// The tier that a volume alone earns.
    pub open spec fn of_volume(volume: u64) -> CreatorTier {
        if volume >= 1_000_000 {
            CreatorTier::Diamond
        } else if volume >= 100_000 {
            CreatorTier::Gold
        } else if volume >= 10_000 {
            CreatorTier::Silver
        } else {
            CreatorTier::Bronze
        }
    }

    /// What the tier takes off the platform's rate, in basis points.
    pub open spec fn discount(self) -> u16 {
        match self {
            CreatorTier::Bronze => 0,
            CreatorTier::Silver => 50,
            CreatorTier::Gold => 100,
            CreatorTier::Diamond => 150,
        }
    }

    /// The platform's rate for a creator of this tier, in basis points.
    pub open spec fn reduced_fee(self) -> u16 {
        (300 - self.discount()) as u16
    }

    /// The higher of two tiers.
    pub open spec fn higher(self, other: CreatorTier) -> CreatorTier {
        if self.rank() >= other.rank() {
            self
        } else {
            other
        }
    }

    /// The place of the tier in the order of the tiers.
    pub fn level(&self) -> (n: u8)
        ensures
            n == self.rank(),
    {
        match self {
            CreatorTier::Bronze => 0,
            CreatorTier::Silver => 1,
            CreatorTier::Gold => 2,
            CreatorTier::Diamond => 3,
        }
    }

    /// The tier that a volume alone earns: the highest whose threshold the
    /// volume has reached.
    pub fn for_volume(volume: u64) -> (tier: CreatorTier)
        ensures
            tier == CreatorTier::of_volume(volume),
    {
        if volume >= DIAMOND_VOLUME {
            CreatorTier::Diamond
        } else if volume >= GOLD_VOLUME {
            CreatorTier::Gold
        } else if volume >= SILVER_VOLUME {
            CreatorTier::Silver
        } else {
            CreatorTier::Bronze
        }
    }

    /// What the tier takes off the platform's rate, in basis points.
    pub fn discount_bps(&self) -> (bps: u16)
        ensures
            bps == self.discount(),
    {
        match self {
            CreatorTier::Bronze => 0,
            CreatorTier::Silver => 50,
            CreatorTier::Gold => 100,
            CreatorTier::Diamond => 150,
        }
    }

    /// The platform's rate for a creator of this tier, in basis points.
    pub fn reduced_fee_bps(&self) -> (bps: u16)
        ensures
            bps == self.reduced_fee(),
    {
        PLATFORM_FEE_BPS - self.discount_bps()
    }

    /// The higher of two tiers.
    pub fn max(self, other: CreatorTier) -> (tier: CreatorTier)
        ensures
            tier == self.higher(other),
    {
        if self.level() >= other.level() {
            self
        } else {
            other
        }
    }
}

/// A larger volume never earns a lower tier.
pub proof fn lemma_tier_grows_with_volume(smaller: u64, larger: u64)
    requires
        smaller <= larger,
    ensures
        CreatorTier::of_volume(smaller).rank() <= CreatorTier::of_volume(larger).rank(),
{
}

/// What is known of one creator: the leagues created, the volume of the
/// leagues resolved, the tier reached and what the tier has brought.
#[derive(Clone, Copy, Debug)]
pub struct PremiumCreator {
    pub creator: Identity,
    pub total_leagues: u64,
    pub total_volume: u64,
    pub tier: CreatorTier,
    pub reduced_fee_bps: u16,
    pub bonus_rewards: u64,
    pub bump: u8,
}

impl PremiumCreator {
    /// The tier is at least the one that the volume earns, and the reduced
    /// rate is the tier's.
    pub open spec fn wf(self) -> bool {
        &&& self.tier.rank() >= CreatorTier::of_volume(self.total_volume).rank()
        &&& self.reduced_fee_bps == self.tier.reduced_fee()
    }

    /// The record of a creator of whom nothing is known yet.
    pub open spec fn fresh(creator: Identity, bump: u8) -> PremiumCreator {
        PremiumCreator {
            creator,
            total_leagues: 0,
            total_volume: 0,
            tier: CreatorTier::Bronze,
            reduced_fee_bps: 300,
            bonus_rewards: 0,
            bump,
        }
    }

    /// The record after one more league was created.
    pub open spec fn with_league(self) -> PremiumCreator {
        PremiumCreator { total_leagues: (self.total_leagues + 1) as u64, ..self }
    }

    /// The record after a league with the pool `volume` was resolved and
    /// brought the creator `bonus`: the tier rises to what the new volume
    /// earns and never falls.
    pub open spec fn with_resolution(self, volume: u64, bonus: u64) -> PremiumCreator {
        let total_volume = (self.total_volume + volume) as u64;
        let tier = self.tier.higher(CreatorTier::of_volume(total_volume));
        PremiumCreator {
            total_volume,
            tier,
            reduced_fee_bps: tier.reduced_fee(),
            bonus_rewards: (self.bonus_rewards + bonus) as u64,
            ..self
        }
    }

    /// Whether the record is well formed.
    pub fn is_valid(&self) -> (ok: bool)
        ensures
            ok == self.wf(),
    {
        self.tier.level() >= CreatorTier::for_volume(self.total_volume).level() && self.reduced_fee_bps
            == self.tier.reduced_fee_bps()
    }

    /// The record of a creator of whom nothing is known yet: no league, no
    /// volume, Bronze.
    pub fn new(creator: Identity, bump: u8) -> (record: PremiumCreator)
        ensures
            record == PremiumCreator::fresh(creator, bump),
            record.wf(),
    {
        PremiumCreator {
            creator,
            total_leagues: 0,
            total_volume: 0,
            tier: CreatorTier::Bronze,
            reduced_fee_bps: PLATFORM_FEE_BPS,
            bonus_rewards: 0,
            bump,
        }
    }

    /// Counts one more league. Fails with `MathOverflow`, and changes nothing,
    /// where the count does not fit.
    pub fn record_league(&mut self) -> (r: Result<(), ErrorCode>)
        ensures
            old(self).total_leagues < u64::MAX ==> r is Ok && *final(self) == old(self).with_league(),
            old(self).total_leagues == u64::MAX ==> r == Err::<(), ErrorCode>(ErrorCode::MathOverflow)
                && *final(self) == *old(self),
            old(self).wf() ==> final(self).wf(),
    {
        match self.total_leagues.checked_add(1) {
            Some(n) => {
                self.total_leagues = n;
                Ok(())
            },
            None => Err(ErrorCode::MathOverflow),
        }
    }

    /// Adds the pool of a resolved league to the volume and `bonus` to the
    /// bonus rewards, and raises the tier to what the new volume earns. Fails
    /// with `MathOverflow`, and changes nothing, where a sum does not fit.
    pub fn record_resolution(&mut self, volume: u64, bonus: u64) -> (r: Result<(), ErrorCode>)
        ensures
            old(self).total_volume + volume <= u64::MAX && old(self).bonus_rewards + bonus <= u64::MAX ==> r is Ok
                && *final(self) == old(self).with_resolution(volume, bonus),
            old(self).total_volume + volume > u64::MAX || old(self).bonus_rewards + bonus > u64::MAX ==> r
                == Err::<(), ErrorCode>(ErrorCode::MathOverflow) && *final(self) == *old(self),
            final(self).tier.rank() >= old(self).tier.rank(),
            old(self).wf() || r is Ok ==> final(self).wf(),
    {
        let total_volume: u64 = match self.total_volume.checked_add(volume) {
            Some(n) => n,
            None => { return Err(ErrorCode::MathOverflow); },
        };
        let bonus_rewards: u64 = match self.bonus_rewards.checked_add(bonus) {
            Some(n) => n,
            None => { return Err(ErrorCode::MathOverflow); },
        };
        let tier = self.tier.max(CreatorTier::for_volume(total_volume));
        self.total_volume = total_volume;
        self.bonus_rewards = bonus_rewards;
        self.tier = tier;
        self.reduced_fee_bps = tier.reduced_fee_bps();
        Ok(())
    }
}

impl Keyed for PremiumCreator {
    open spec fn key(&self) -> Identity {
        self.creator
    }

    open spec fn valid(&self) -> bool {
        self.wf()
    }

    fn id(&self) -> (id: Identity) {
        self.creator
    }
}

/// The records of all creators, one for each creator at most.
pub struct CreatorTierRegistry {
    book: Book<PremiumCreator>,
}

impl CreatorTierRegistry {
    /// No creator has two records, and each record is well formed.
    pub closed spec fn wf(&self) -> bool {
        self.book.wf()
    }

    /// The record of each creator that has one.
    pub closed spec fn view(&self) -> Map<Identity, PremiumCreator> {
        self.book@
    }

    /// The record that a step on `creator` starts from: the creator's own, or
    /// a fresh one where the creator has none yet.
    pub open spec fn entry(&self, creator: Identity, bump: u8) -> PremiumCreator {
        if self@.dom().contains(creator) {
            self@[creator]
        } else {
            PremiumCreator::fresh(creator, bump)
        }
    }

    /// What the tier of `creator` takes off the platform's rate: nothing for
    /// a creator without a record.
    pub open spec fn discount_of(&self, creator: Identity) -> u16 {
        if self@.dom().contains(creator) {
            self@[creator].tier.discount()
        } else {
            0
        }
    }

    /// Each record is well formed and is kept under its own creator.
    pub proof fn lemma_record(&self, creator: Identity)
        requires
            self.wf(),
            self@.dom().contains(creator),
        ensures
            self@[creator].wf(),
            self@[creator].creator == creator,
    {
        self.book.lemma_record(creator);
    }

    /// The registry without any record.
    pub fn new() -> (registry: CreatorTierRegistry)
        ensures
            registry.wf(),
            registry@ == Map::<Identity, PremiumCreator>::empty(),
    {
        CreatorTierRegistry { book: Book::new() }
    }

    /// The number of creators that have a record.
    pub fn len(&self) -> (n: usize)
        requires
            self.wf(),
        ensures
            n == self@.dom().len(),
            self@.dom().finite(),
    {
        self.book.len()
    }

    /// Takes a record as it was kept, if it is well formed and its creator has
    /// none yet, and says whether it was taken.
    pub fn restore(&mut self, record: PremiumCreator) -> (taken: bool)
        requires
            old(self).wf(),
        ensures
            final(self).wf(),
            taken == (record.wf() && !old(self)@.dom().contains(record.creator)),
            final(self)@ == (if taken {
                old(self)@.insert(record.creator, record)
            } else {
                old(self)@
            }),
    {
        if !record.is_valid() {
            return false;
        }
        if self.book.get(&record.creator).is_some() {
            return false;
        }
        self.book.put(record);
        true
    }

    /// The record of `creator`, if there is one.
    pub fn get(&self, creator: &Identity) -> (record: Option<PremiumCreator>)
        requires
            self.wf(),
        ensures
            record is Some <==> self@.dom().contains(*creator),
            record is Some ==> record->0 == self@[*creator] && record->0.wf() && record->0.creator == *creator,
    {
        self.book.get(creator)
    }

    /// What the tier of `creator` takes off the platform's rate, in basis
    /// points: nothing for a creator without a record.
    pub fn discount_for(&self, creator: &Identity) -> (bps: u16)
        requires
            self.wf(),
        ensures
            bps == self.discount_of(*creator),
            bps <= 150,
    {
        match self.book.get(creator) {
            Some(record) => record.tier.discount_bps(),
            None => 0,
        }
    }

    /// Counts one more league for `creator`, whose record is made on the
    /// creator's first league, and returns the record as it then stands.
    /// Fails with `MathOverflow`, and changes nothing, where the count does
    /// not fit.
    pub fn record_league_created(&mut self, creator: Identity, bump: u8) -> (r: Result<
        PremiumCreator,
        ErrorCode,
    >)
        requires
            old(self).wf(),
        ensures
            final(self).wf(),
            match r {
                Ok(record) => {
                    &&& old(self).entry(creator, bump).total_leagues < u64::MAX
                    &&& record == old(self).entry(creator, bump).with_league()
                    &&& final(self)@ == old(self)@.insert(creator, record)
                },
                Err(e) => {
                    &&& old(self).entry(creator, bump).total_leagues == u64::MAX
                    &&& e == ErrorCode::MathOverflow
                    &&& final(self)@ == old(self)@
                },
            },
    {
        let mut record = match self.book.get(&creator) {
            Some(kept) => kept,
            None => PremiumCreator::new(creator, bump),
        };
        match record.record_league() {
            Ok(()) => {
                self.book.put(record);
                Ok(record)
            },
            Err(e) => Err(e),
        }
    }

    /// Adds the pool of a resolved league of `creator` to the creator's
    /// volume and `bonus` to the bonus rewards, raises the tier to what the
    /// new volume earns, and returns the record as it then stands. Fails with
    /// `MathOverflow`, and changes nothing, where a sum does not fit.
    pub fn record_resolution(&mut self, creator: Identity, bump: u8, volume: u64, bonus: u64) -> (r: Result<
        PremiumCreator,
        ErrorCode,
    >)
        requires
            old(self).wf(),
        ensures
            final(self).wf(),
            match r {
                Ok(record) => {
                    &&& old(self).entry(creator, bump).total_volume + volume <= u64::MAX
                    &&& old(self).entry(creator, bump).bonus_rewards + bonus <= u64::MAX
                    &&& record == old(self).entry(creator, bump).with_resolution(volume, bonus)
                    &&& record.tier.rank() >= old(self).entry(creator, bump).tier.rank()
                    &&& final(self)@ == old(self)@.insert(creator, record)
                },
                Err(e) => {
                    &&& (old(self).entry(creator, bump).total_volume + volume > u64::MAX || old(self).entry(
                        creator,
                        bump,
                    ).bonus_rewards + bonus > u64::MAX)
                    &&& e == ErrorCode::MathOverflow
                    &&& final(self)@ == old(self)@
                },
            },
    {
        let mut record = match self.book.get(&creator) {
            Some(kept) => kept,
            None => PremiumCreator::new(creator, bump),
        };
        match record.record_resolution(volume, bonus) {
            Ok(()) => {
                self.book.put(record);
                Ok(record)
            },
            Err(e) => Err(e),
        }
    }
}

} // verus!
