use vstd::prelude::*;
use crate::error::ErrorCode;
use crate::identity::Identity;
use crate::registry::Book;
use crate::registry::Keyed;

verus! {

/// Who referred a user first, and what that referral has brought since.
#[derive(Clone, Copy, Debug)]
pub struct ReferrerAccount {
    pub user: Identity,
    pub referrer: Identity,
    pub first_referral_time: i64,
    pub total_referrals: u64,
    pub total_rewards: u64,
    pub bump: u8,
}

impl ReferrerAccount {
    /// Nobody is their own referrer.
    pub open spec fn wf(self) -> bool {
        self.referrer != self.user
    }

    /// The record of a first referral, which has brought nothing yet.
    pub open spec fn first_touch(user: Identity, referrer: Identity, now: i64, bump: u8) -> ReferrerAccount {
        ReferrerAccount { user, referrer, first_referral_time: now, total_referrals: 0, total_rewards: 0, bump }
    }

    /// The record after one more reward of `amount` was paid to the referrer.
    pub open spec fn with_reward(self, amount: u64) -> ReferrerAccount {
        ReferrerAccount {
            total_referrals: (self.total_referrals + 1) as u64,
            total_rewards: (self.total_rewards + amount) as u64,
            ..self
        }
    }
}

/// A hint names a referrer that can be recorded for `user`: it is present and
/// is not the user.
pub open spec fn usable_hint(user: Identity, hint: Option<Identity>) -> bool {
    hint is Some && hint->0 != user
}

/// Every user that had a referrer still has the same one.
pub open spec fn keeps_referrers(
    before: Map<Identity, ReferrerAccount>,
    after: Map<Identity, ReferrerAccount>,
) -> bool {
    forall|u: Identity| #[trigger]
        before.dom().contains(u) ==> after.dom().contains(u) && after[u].referrer == before[u].referrer
}

impl Keyed for ReferrerAccount {
    open spec fn key(&self) -> Identity {
        self.user
    }

    open spec fn valid(&self) -> bool {
        self.wf()
    }

    fn id(&self) -> (id: Identity) {
        self.user
    }
}

/// The first-touch referrers of all referred users, one record for each user
/// at most.
pub struct ReferralRegistry {
    book: Book<ReferrerAccount>,
}

impl ReferralRegistry {
    /// No user has two records, and nobody is their own referrer.
    pub closed spec fn wf(&self) -> bool {
        self.book.wf()
    }

    /// The record of each referred user.
    pub closed spec fn view(&self) -> Map<Identity, ReferrerAccount> {
        self.book@
    }

    /// Each record is well formed and is kept under its own user.
    pub proof fn lemma_record(&self, user: Identity)
        requires
            self.wf(),
            self@.dom().contains(user),
        ensures
            self@[user].wf(),
            self@[user].user == user,
    {
        self.book.lemma_record(user);
    }

    /// The registry without any record.
    pub fn new() -> (registry: ReferralRegistry)
        ensures
            registry.wf(),
            registry@ == Map::<Identity, ReferrerAccount>::empty(),
    {
        ReferralRegistry { book: Book::new() }
    }

    /// The number of referred users.
    pub fn len(&self) -> (n: usize)
        requires
            self.wf(),
        ensures
            n == self@.dom().len(),
            self@.dom().finite(),
    {
        self.book.len()
    }

    /// Takes a record as it was kept, if it is well formed and its user has
    /// none yet, and says whether it was taken.
    pub fn restore(&mut self, record: ReferrerAccount) -> (taken: bool)
        requires
            old(self).wf(),
        ensures
            final(self).wf(),
            taken == (record.wf() && !old(self)@.dom().contains(record.user)),
            final(self)@ == (if taken {
                old(self)@.insert(record.user, record)
            } else {
                old(self)@
            }),
    {
        if record.referrer.same(&record.user) {
            return false;
        }
        if self.book.get(&record.user).is_some() {
            return false;
        }
        self.book.put(record);
        true
    }

    /// The record of `user`, if there is one.
    pub fn get(&self, user: &Identity) -> (record: Option<ReferrerAccount>)
        requires
            self.wf(),
        ensures
            record is Some <==> self@.dom().contains(*user),
            record is Some ==> record->0 == self@[*user] && record->0.wf() && record->0.user == *user,
    {
        self.book.get(user)
    }


    /// The referrer that is recorded for `user`, if any.
    pub open spec fn stored_referrer(&self, user: Identity) -> Option<Identity> {
        if self@.dom().contains(user) {
            Some(self@[user].referrer)
        } else {
            None
        }
    }

    /// The referrer that counts for a join of `user` with the hint `hint`: the
    /// recorded one where there is a record, else the hint if it can be used.
    pub open spec fn effective_referrer(&self, user: Identity, hint: Option<Identity>) -> Option<Identity> {
        if self@.dom().contains(user) {
            Some(self@[user].referrer)
        } else if usable_hint(user, hint) {
            hint
        } else {
            None
        }
    }

    /// The registry after a join of `user` with the hint `hint` at `now`: a
    /// user without a record gets one if the hint can be used, and nothing
    /// else changes.
    pub open spec fn after_join(&self, user: Identity, hint: Option<Identity>, now: i64, bump: u8) -> Map<
        Identity,
        ReferrerAccount,
    > {
        if !self@.dom().contains(user) && usable_hint(user, hint) {
            self@.insert(user, ReferrerAccount::first_touch(user, hint->0, now, bump))
        } else {
            self@
        }
    }

    /// The referrer that is recorded for `user`, if any.
    pub fn referrer_of(&self, user: &Identity) -> (referrer: Option<Identity>)
        requires
            self.wf(),
        ensures
            referrer == self.stored_referrer(*user),
            referrer is Some ==> referrer->0 != *user,
    {
        match self.book.get(user) {
            Some(record) => Some(record.referrer),
            None => None,
        }
    }

    /// Settles the referrer of `user` for a join with the hint `hint` at
    /// `now`, and returns it.
    ///
    /// A user with a record keeps the recorded referrer, whatever the hint
    /// says, and the registry stays as it is. A user without a record gets
    /// one, with the hint as the referrer for good, if the hint is present
    /// and is not the user; otherwise the join has no referrer and nothing is
    /// recorded.
    pub fn resolve_referrer(&mut self, user: Identity, hint: Option<Identity>, now: i64, bump: u8) -> (referrer:
        Option<Identity>)
        requires
            old(self).wf(),
        ensures
            final(self).wf(),
            referrer == old(self).effective_referrer(user, hint),
            final(self)@ == old(self).after_join(user, hint, now, bump),
            referrer == final(self).stored_referrer(user),
            old(self)@.dom().contains(user) ==> final(self)@ == old(self)@,
            keeps_referrers(old(self)@, final(self)@),
    {
        match self.book.get(&user) {
            Some(record) => Some(record.referrer),
            None => {
                match hint {
                    Some(h) => {
                        if h.same(&user) {
                            None
                        } else {
                            self.book.put(
                                ReferrerAccount {
                                    user,
                                    referrer: h,
                                    first_referral_time: now,
                                    total_referrals: 0,
                                    total_rewards: 0,
                                    bump,
                                },
                            );
                            Some(h)
                        }
                    },
                    None => None,
                }
            },
        }
    }

    /// Whether a reward of `amount` for the referrer of `user` can be
    /// recorded: there is no record to change, or the two totals have room.
    pub open spec fn reward_fits(&self, user: Identity, amount: u64) -> bool {
        self@.dom().contains(user) ==> self@[user].total_referrals < u64::MAX && self@[user].total_rewards + amount
            <= u64::MAX
    }

    /// Whether a reward of `amount` for the referrer of `user` can be recorded.
    pub fn reward_would_fit(&self, user: &Identity, amount: u64) -> (fits: bool)
        requires
            self.wf(),
        ensures
            fits == self.reward_fits(*user, amount),
    {
        match self.book.get(user) {
            Some(record) => {
                record.total_referrals < u64::MAX && record.total_rewards <= u64::MAX - amount
            },
            None => true,
        }
    }

    /// Records that the referrer of `user` was paid a reward of `amount`, and
    /// returns the record as it then stands, or `None` where `user` has no
    /// referrer. The referrer itself stays. Fails with `MathOverflow`, and
    /// changes nothing, where a total does not fit.
    pub fn credit_reward(&mut self, user: Identity, amount: u64) -> (r: Result<Option<ReferrerAccount>, ErrorCode>)
        requires
            old(self).wf(),
        ensures
            final(self).wf(),
            keeps_referrers(old(self)@, final(self)@),
            match r {
                Ok(Some(record)) => {
                    &&& old(self)@.dom().contains(user)
                    &&& old(self).reward_fits(user, amount)
                    &&& record == old(self)@[user].with_reward(amount)
                    &&& final(self)@ == old(self)@.insert(user, record)
                },
                Ok(None) => !old(self)@.dom().contains(user) && final(self)@ == old(self)@,
                Err(e) => {
                    &&& !old(self).reward_fits(user, amount)
                    &&& e == ErrorCode::MathOverflow
                    &&& final(self)@ == old(self)@
                },
            },
    {
        match self.book.get(&user) {
            Some(record) => {
                let total_referrals: u64 = match record.total_referrals.checked_add(1) {
                    Some(n) => n,
                    None => { return Err(ErrorCode::MathOverflow); },
                };
                let total_rewards: u64 = match record.total_rewards.checked_add(amount) {
                    Some(n) => n,
                    None => { return Err(ErrorCode::MathOverflow); },
                };
                let updated = ReferrerAccount {
                    user: record.user,
                    referrer: record.referrer,
                    first_referral_time: record.first_referral_time,
                    total_referrals,
                    total_rewards,
                    bump: record.bump,
                };
                self.book.put(updated);
                Ok(Some(updated))
            },
            None => Ok(None),
        }
    }
}

/// First touch is permanent: keeping the referrers carries over from step to
/// step, so a user's referrer, once recorded, is the same after any number of
/// later steps.
pub proof fn lemma_keeps_referrers_transitive(
    first: Map<Identity, ReferrerAccount>,
    second: Map<Identity, ReferrerAccount>,
    third: Map<Identity, ReferrerAccount>,
)
    requires
        keeps_referrers(first, second),
        keeps_referrers(second, third),
    ensures
        keeps_referrers(first, third),
{
    assert forall|u: Identity| #[trigger] first.dom().contains(u) implies third.dom().contains(u)
        && third[u].referrer == first[u].referrer by {
        assert(second.dom().contains(u));
    }
}

/// A later join of a user with a record under another hint changes nothing:
/// the referrer that counts is the recorded one, and the registry after the
/// join is the registry before it.
pub proof fn lemma_first_touch_wins(
    registry: ReferralRegistry,
    user: Identity,
    hint: Option<Identity>,
    now: i64,
    bump: u8,
)
    requires
        registry@.dom().contains(user),
    ensures
        registry.effective_referrer(user, hint) == Some(registry@[user].referrer),
        registry.after_join(user, hint, now, bump) == registry@,
{
}

} // verus!
