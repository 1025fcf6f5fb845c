use vstd::prelude::*;
use crate::error::ErrorCode;

verus! {

/// The creator's rate that the policy fixes, in basis points.
pub const CREATOR_FEE_BPS: u16 = 600;

/// The platform's rate that the policy fixes, in basis points.
pub const PLATFORM_FEE_BPS: u16 = 300;

/// The referrer's rate that the policy fixes, in basis points.
pub const REFERRER_FEE_BPS: u16 = 100;

/// The most that the three rates together may take of a pool, in basis points.
pub const MAX_TOTAL_FEE_BPS: u16 = 1000;

/// The number of basis points in the whole.
pub const BPS_DENOMINATOR: u64 = 10000;

/// The three rates together take no more than a tenth of the pool.
pub open spec fn within_fee_cap(creator_bps: int, platform_bps: int, referrer_bps: int) -> bool {
    creator_bps + platform_bps + referrer_bps <= 1000
}

/// The three rates are the one split that the policy offers.
pub open spec fn is_policy_split(creator_bps: int, platform_bps: int, referrer_bps: int) -> bool {
    creator_bps == 600 && platform_bps == 300 && referrer_bps == 100
}

/// `bps` basis points of `pool`, rounded down.
pub open spec fn bps_part(pool: int, bps: int) -> int {
    (pool * bps) / 10000
}

/// The platform's rate once the creator's tier discount is taken off; never below zero.
pub open spec fn discounted_platform_bps(platform_bps: int, discount_bps: int) -> int {
    if discount_bps >= platform_bps {
        0
    } else {
        platform_bps - discount_bps
    }
}

/// What the tier discount takes off the platform's part of `pool`.
pub open spec fn tier_bonus(pool: int, platform_bps: int, discount_bps: int) -> int {
    bps_part(pool, platform_bps) - bps_part(pool, discounted_platform_bps(platform_bps, discount_bps))
}

/// The creator's share: the creator's part of the pool and the tier bonus.
pub open spec fn creator_share_of(pool: int, creator_bps: int, platform_bps: int, discount_bps: int) -> int {
    bps_part(pool, creator_bps) + tier_bonus(pool, platform_bps, discount_bps)
}

/// The referrer's share: the referrer's part of the pool if the winner has a
/// referrer, nothing otherwise.
pub open spec fn referrer_share_of(pool: int, referrer_bps: int, has_referrer: bool) -> int {
    if has_referrer {
        bps_part(pool, referrer_bps)
    } else {
        0
    }
}

/// The platform's share: its discounted part of the pool, and the referrer's
/// part as well where the winner has no referrer.
pub open spec fn platform_share_of(
    pool: int,
    platform_bps: int,
    referrer_bps: int,
    discount_bps: int,
    has_referrer: bool,
) -> int {
    bps_part(pool, discounted_platform_bps(platform_bps, discount_bps)) + (if has_referrer {
        0
    } else {
        bps_part(pool, referrer_bps)
    })
}

/// The winner's share: all of the pool that the other three do not take, so
/// that what rounding leaves over stays with the winner.
pub open spec fn winner_share_of(pool: int, creator_bps: int, platform_bps: int, referrer_bps: int) -> int {
    pool - bps_part(pool, creator_bps) - bps_part(pool, platform_bps) - bps_part(pool, referrer_bps)
}

/// One of the three products of the pool with a rate does not fit in 64 bits.
pub open spec fn split_overflows(pool: int, creator_bps: int, platform_bps: int, referrer_bps: int) -> bool {
    pool * creator_bps > u64::MAX || pool * platform_bps > u64::MAX || pool * referrer_bps > u64::MAX
}

/// How a pool is divided between the winner, the creator, the platform and the
/// winner's referrer.
#[derive(Clone, Copy, Debug, PartialEq, Eq, Structural)]
pub struct FeeShares {
    pub winner_share: u64,
    pub creator_share: u64,
    pub platform_share: u64,
    pub referrer_share: u64,
}

impl FeeShares {
    /// The four shares together.
    pub open spec fn total(self) -> int {
        self.winner_share + self.creator_share + self.platform_share + self.referrer_share
    }

    /// The shares are those that the rates, the discount and the referrer's
    /// presence give of `pool`.
    pub open spec fn is_split_of(
        self,
        pool: int,
        creator_bps: int,
        platform_bps: int,
        referrer_bps: int,
        discount_bps: int,
        has_referrer: bool,
    ) -> bool {
        &&& self.winner_share == winner_share_of(pool, creator_bps, platform_bps, referrer_bps)
        &&& self.creator_share == creator_share_of(pool, creator_bps, platform_bps, discount_bps)
        &&& self.platform_share == platform_share_of(pool, platform_bps, referrer_bps, discount_bps, has_referrer)
        &&& self.referrer_share == referrer_share_of(pool, referrer_bps, has_referrer)
    }
}

/// A part of the pool is no more than the pool's product with the rate allows,
/// and grows with the rate.
pub proof fn lemma_bps_part_bounds(pool: int, bps: int, more_bps: int)
    requires
        0 <= pool,
        0 <= bps <= more_bps,
    ensures
        0 <= bps_part(pool, bps) <= bps_part(pool, more_bps),
        bps_part(pool, bps) * 10000 <= pool * bps,
{
    assert(0 <= pool * bps <= pool * more_bps) by (nonlinear_arith)
        requires
            0 <= pool,
            0 <= bps <= more_bps,
    ;
    let a = pool * bps;
    let b = pool * more_bps;
    assert(0 <= a / 10000 <= b / 10000 && (a / 10000) * 10000 <= a) by (nonlinear_arith)
        requires
            0 <= a <= b,
    ;
}

/// The three parts together take no more than the pool when the rates are
/// within the cap.
pub proof fn lemma_parts_fit(pool: int, creator_bps: int, platform_bps: int, referrer_bps: int)
    requires
        0 <= pool,
        0 <= creator_bps,
        0 <= platform_bps,
        0 <= referrer_bps,
        within_fee_cap(creator_bps, platform_bps, referrer_bps),
    ensures
        bps_part(pool, creator_bps) + bps_part(pool, platform_bps) + bps_part(pool, referrer_bps) <= pool,
        10 * (bps_part(pool, creator_bps) + bps_part(pool, platform_bps) + bps_part(pool, referrer_bps))
            <= pool,
{
    lemma_bps_part_bounds(pool, creator_bps, creator_bps);
    lemma_bps_part_bounds(pool, platform_bps, platform_bps);
    lemma_bps_part_bounds(pool, referrer_bps, referrer_bps);
    let s = bps_part(pool, creator_bps) + bps_part(pool, platform_bps) + bps_part(pool, referrer_bps);
    let t = creator_bps + platform_bps + referrer_bps;
    assert(pool * creator_bps + pool * platform_bps + pool * referrer_bps == pool * t) by (nonlinear_arith)
        requires
            t == creator_bps + platform_bps + referrer_bps,
    ;
    assert(pool * t <= pool * 1000) by (nonlinear_arith)
        requires
            0 <= pool,
            t <= 1000,
    ;
    assert(s * 10000 <= pool * 1000);
}

/// The split is conservative: whatever the rates within the cap, the discount
/// and the referrer's presence, the four shares are non-negative and add up to
/// the pool.
pub proof fn lemma_split_conserves(
    pool: int,
    creator_bps: int,
    platform_bps: int,
    referrer_bps: int,
    discount_bps: int,
    has_referrer: bool,
)
    requires
        0 <= pool,
        0 <= creator_bps,
        0 <= platform_bps,
        0 <= referrer_bps,
        0 <= discount_bps,
        within_fee_cap(creator_bps, platform_bps, referrer_bps),
    ensures
        winner_share_of(pool, creator_bps, platform_bps, referrer_bps) + creator_share_of(
            pool,
            creator_bps,
            platform_bps,
            discount_bps,
        ) + platform_share_of(pool, platform_bps, referrer_bps, discount_bps, has_referrer)
            + referrer_share_of(pool, referrer_bps, has_referrer) == pool,
        0 <= winner_share_of(pool, creator_bps, platform_bps, referrer_bps),
        0 <= creator_share_of(pool, creator_bps, platform_bps, discount_bps),
        0 <= platform_share_of(pool, platform_bps, referrer_bps, discount_bps, has_referrer),
        0 <= referrer_share_of(pool, referrer_bps, has_referrer),
{
    lemma_parts_fit(pool, creator_bps, platform_bps, referrer_bps);
    lemma_bps_part_bounds(pool, creator_bps, creator_bps);
    lemma_bps_part_bounds(pool, referrer_bps, referrer_bps);
    lemma_bps_part_bounds(pool, discounted_platform_bps(platform_bps, discount_bps), platform_bps);
}

/// Where the winner has no referrer, the referrer's part is not lost: the
/// referrer's share is zero and the platform's share is larger by exactly that
/// part, the winner's and the creator's shares being the same either way.
pub proof fn lemma_missing_referrer_goes_to_platform(
    pool: int,
    creator_bps: int,
    platform_bps: int,
    referrer_bps: int,
    discount_bps: int,
)
    ensures
        referrer_share_of(pool, referrer_bps, false) == 0,
        platform_share_of(pool, platform_bps, referrer_bps, discount_bps, false) == platform_share_of(
            pool,
            platform_bps,
            referrer_bps,
            discount_bps,
            true,
        ) + referrer_share_of(pool, referrer_bps, true),
{
}

/// Accepts the three rates of a new league if and only if they are the one
/// split that the policy offers; any other triple is refused, whether or not
/// it stays within the cap.
pub fn validate_fee_split(creator_fee_bps: u16, platform_fee_bps: u16, referrer_fee_bps: u16) -> (r: Result<
    (),
    ErrorCode,
>)
    ensures
        r is Ok <==> is_policy_split(creator_fee_bps as int, platform_fee_bps as int, referrer_fee_bps as int),
        r is Err ==> r == Err::<(), ErrorCode>(ErrorCode::InvalidFeePercentages),
        r is Ok ==> within_fee_cap(creator_fee_bps as int, platform_fee_bps as int, referrer_fee_bps as int),
{
    let total_fees: u32 = creator_fee_bps as u32 + platform_fee_bps as u32 + referrer_fee_bps as u32;
    if total_fees > MAX_TOTAL_FEE_BPS as u32 {
        return Err(ErrorCode::InvalidFeePercentages);
    }
    if !(creator_fee_bps == CREATOR_FEE_BPS && platform_fee_bps == PLATFORM_FEE_BPS && referrer_fee_bps
        == REFERRER_FEE_BPS) {
        return Err(ErrorCode::InvalidFeePercentages);
    }
    Ok(())
}

/// `bps` basis points of `pool`, rounded down, or `None` where the product of
/// the two does not fit in 64 bits.
pub fn checked_bps_part(pool: u64, bps: u16) -> (part: Option<u64>)
    ensures
        part is Some <==> pool * bps <= u64::MAX,
        part is Some ==> part->0 == bps_part(pool as int, bps as int),
{
    match pool.checked_mul(bps as u64) {
        Some(product) => Some(product / BPS_DENOMINATOR),
        None => None,
    }
}

/// Divides `pool` between the winner, the creator, the platform and the
/// winner's referrer.
///
/// Each of the three rates gives its part of the pool, rounded down. The tier
/// discount lowers the platform's rate, and what it takes off the platform's
/// part goes to the creator. Without a referrer the referrer's part goes to the
/// platform. The winner has all the rest.
///
/// Fails with `InvalidFeePercentages` where the rates exceed the cap, and
/// otherwise with `MathOverflow` where a product of the pool and a rate does
/// not fit in 64 bits.
pub fn split_pool(
    pool: u64,
    creator_fee_bps: u16,
    platform_fee_bps: u16,
    referrer_fee_bps: u16,
    tier_discount_bps: u16,
    has_referrer: bool,
) -> (r: Result<FeeShares, ErrorCode>)
    ensures
        match r {
            Ok(shares) => {
                &&& within_fee_cap(creator_fee_bps as int, platform_fee_bps as int, referrer_fee_bps as int)
                &&& !split_overflows(
                    pool as int,
                    creator_fee_bps as int,
                    platform_fee_bps as int,
                    referrer_fee_bps as int,
                )
                &&& shares.is_split_of(
                    pool as int,
                    creator_fee_bps as int,
                    platform_fee_bps as int,
                    referrer_fee_bps as int,
                    tier_discount_bps as int,
                    has_referrer,
                )
                &&& shares.total() == pool
            },
            Err(e) => {
                if !within_fee_cap(creator_fee_bps as int, platform_fee_bps as int, referrer_fee_bps as int) {
                    e == ErrorCode::InvalidFeePercentages
                } else {
                    &&& e == ErrorCode::MathOverflow
                    &&& split_overflows(
                        pool as int,
                        creator_fee_bps as int,
                        platform_fee_bps as int,
                        referrer_fee_bps as int,
                    )
                }
            },
        },
{
    let total_fees: u32 = creator_fee_bps as u32 + platform_fee_bps as u32 + referrer_fee_bps as u32;
    if total_fees > MAX_TOTAL_FEE_BPS as u32 {
        return Err(ErrorCode::InvalidFeePercentages);
    }
    let creator_part: u64 = match checked_bps_part(pool, creator_fee_bps) {
        Some(part) => part,
        None => { return Err(ErrorCode::MathOverflow); },
    };
    let platform_part: u64 = match checked_bps_part(pool, platform_fee_bps) {
        Some(part) => part,
        None => { return Err(ErrorCode::MathOverflow); },
    };
    let referrer_part: u64 = match checked_bps_part(pool, referrer_fee_bps) {
        Some(part) => part,
        None => { return Err(ErrorCode::MathOverflow); },
    };
    let reduced_bps: u16 = if tier_discount_bps >= platform_fee_bps {
        0
    } else {
        platform_fee_bps - tier_discount_bps
    };
    proof {
        lemma_bps_part_bounds(pool as int, reduced_bps as int, platform_fee_bps as int);
        lemma_parts_fit(pool as int, creator_fee_bps as int, platform_fee_bps as int, referrer_fee_bps as int);
        assert(pool * reduced_bps <= pool * platform_fee_bps) by (nonlinear_arith)
            requires
                0 <= pool,
                0 <= reduced_bps <= platform_fee_bps,
        ;
    }
    let reduced_part: u64 = match checked_bps_part(pool, reduced_bps) {
        Some(part) => part,
        None => { return Err(ErrorCode::MathOverflow); },
    };
    let bonus: u64 = platform_part - reduced_part;
    let winner_share: u64 = pool - creator_part - platform_part - referrer_part;
    let creator_share: u64 = creator_part + bonus;
    let (platform_share, referrer_share): (u64, u64) = if has_referrer {
        (reduced_part, referrer_part)
    } else {
        (reduced_part + referrer_part, 0)
    };
    Ok(FeeShares { winner_share, creator_share, platform_share, referrer_share })
}

} // verus!
