use vstd::prelude::*;
use crate::fees::is_policy_split;
use crate::fees::lemma_parts_fit;
use crate::fees::CREATOR_FEE_BPS;
use crate::fees::PLATFORM_FEE_BPS;
use crate::fees::REFERRER_FEE_BPS;
use crate::fees::winner_share_of;
use crate::identity::same_option;
use crate::identity::Identity;

verus! {

/// Where a league stands in its life. A league goes from `Created` to
/// `Filled` to `Active` and ends as `Resolved`; before it is resolved it can
/// end as `Cancelled` instead.
#[derive(Clone, Copy, Debug, PartialEq, Eq, Structural)]
pub enum LeagueState {
    Created,
    Filled,
    Active,
    Resolved,
    Cancelled,
}

impl LeagueState {
    /// The league has ended: nothing moves it any more.
    pub open spec fn is_terminal(self) -> bool {
        self == LeagueState::Resolved || self == LeagueState::Cancelled
    }

    /// How far a league in this state has come; both ends count as last.
    pub open spec fn stage(self) -> int {
        match self {
            LeagueState::Created => 0,
            LeagueState::Filled => 1,
            LeagueState::Active => 2,
            LeagueState::Resolved => 3,
            LeagueState::Cancelled => 3,
        }
    }

    /// A league may go from this state to `next`: one step forward, or from
    /// any state before the end to `Cancelled`.
    pub open spec fn may_become(self, next: LeagueState) -> bool {
        match (self, next) {
            (LeagueState::Created, LeagueState::Filled) => true,
            (LeagueState::Filled, LeagueState::Active) => true,
            (LeagueState::Filled, LeagueState::Resolved) => true,
            (LeagueState::Active, LeagueState::Resolved) => true,
            (LeagueState::Created, LeagueState::Cancelled) => true,
            (LeagueState::Filled, LeagueState::Cancelled) => true,
            (LeagueState::Active, LeagueState::Cancelled) => true,
            _ => false,
        }
    }
}

/// A step that the lifecycle allows never leads back, and none leaves an end.
pub proof fn lemma_steps_go_forward(from: LeagueState, to: LeagueState)
    requires
        from.may_become(to),
    ensures
        from.stage() < to.stage(),
        !from.is_terminal(),
{
}

/// One league: its terms, its timing, its pool and how far it has come.
#[derive(Clone, Copy, Debug)]
pub struct League {
    pub factory: Identity,
    pub creator: Identity,
    pub league_id: u64,
    pub entry_fee: u64,
    pub max_participants: u32,
    pub current_participants: u32,
    pub duration: i64,
    pub start_time: i64,
    pub end_time: i64,
    pub state: LeagueState,
    pub prize_pool: u64,
    pub creator_fee_bps: u16,
    pub platform_fee_bps: u16,
    pub referrer_fee_bps: u16,
    pub winner: Option<Identity>,
    pub vrf_request_key: Option<Identity>,
    pub bump: u8,
}

impl League {
    /// All the entry fees that were paid into the league.
    pub open spec fn collected(self) -> int {
        self.current_participants * self.entry_fee
    }

    /// What the winner has of the collected fees.
    pub open spec fn winner_share(self) -> int {
        winner_share_of(
            self.collected(),
            self.creator_fee_bps as int,
            self.platform_fee_bps as int,
            self.referrer_fee_bps as int,
        )
    }

    /// The roster is closed and the league's time is set.
    pub open spec fn is_timed(self) -> bool {
        &&& self.current_participants >= 1
        &&& self.vrf_request_key is Some
        &&& self.end_time == self.start_time + self.duration
    }

    /// The league's terms are valid, it holds no more participants than it
    /// has room for, it has a winner exactly when it is resolved, and its
    /// pool is what its state says: all the collected fees until it is
    /// resolved, then the winner's share until that is claimed, and nothing
    /// once it is claimed or the league is cancelled.
    pub open spec fn wf(self) -> bool {
        &&& self.entry_fee > 0
        &&& self.max_participants >= 2
        &&& self.duration > 0
        &&& self.current_participants <= self.max_participants
        &&& is_policy_split(
            self.creator_fee_bps as int,
            self.platform_fee_bps as int,
            self.referrer_fee_bps as int,
        )
        &&& (self.winner is Some <==> self.state == LeagueState::Resolved)
        &&& match self.state {
            LeagueState::Created => {
                &&& self.start_time == 0
                &&& self.end_time == 0
                &&& self.vrf_request_key is None
                &&& self.prize_pool == self.collected()
            },
            LeagueState::Filled | LeagueState::Active => {
                &&& self.is_timed()
                &&& self.prize_pool == self.collected()
            },
            LeagueState::Resolved => {
                &&& self.is_timed()
                &&& (self.prize_pool == 0 || self.prize_pool == self.winner_share())
            },
            LeagueState::Cancelled => self.prize_pool == 0,
        }
    }
}

impl League {
    /// Whether the league is well formed.
    pub fn is_valid(&self) -> (ok: bool)
        ensures
            ok == self.wf(),
    {
        if self.entry_fee == 0 || self.max_participants < 2 || self.duration <= 0 {
            return false;
        }
        if self.current_participants > self.max_participants {
            return false;
        }
        if self.creator_fee_bps != CREATOR_FEE_BPS || self.platform_fee_bps != PLATFORM_FEE_BPS
            || self.referrer_fee_bps != REFERRER_FEE_BPS {
            return false;
        }
        let resolved = match self.state {
            LeagueState::Resolved => true,
            _ => false,
        };
        if self.winner.is_some() != resolved {
            return false;
        }
        proof {
            assert(0 <= self.current_participants * self.entry_fee <= 0xffff_ffff * 0xffff_ffff_ffff_ffff)
                by (nonlinear_arith)
                requires
                    0 <= self.current_participants <= 0xffff_ffff,
                    0 <= self.entry_fee <= 0xffff_ffff_ffff_ffff,
            ;
            lemma_parts_fit(self.collected(), 600, 300, 100);
        }
        let collected: u128 = (self.current_participants as u128) * (self.entry_fee as u128);
        let pool: u128 = self.prize_pool as u128;
        let timed = self.current_participants >= 1 && self.vrf_request_key.is_some() && (self.start_time as i128)
            + (self.duration as i128) == self.end_time as i128;
        match self.state {
            LeagueState::Created => self.start_time == 0 && self.end_time == 0 && self.vrf_request_key.is_none()
                && pool == collected,
            LeagueState::Filled | LeagueState::Active => timed && pool == collected,
            LeagueState::Resolved => {
                let winner_share: u128 = collected - collected * 600 / 10000 - collected * 300 / 10000 - collected
                    * 100 / 10000;
                timed && (pool == 0 || pool == winner_share)
            },
            LeagueState::Cancelled => pool == 0,
        }
    }
}

/// That a user joined a league, and what became of it.
#[derive(Clone, Copy, Debug)]
pub struct Participant {
    pub league: Identity,
    pub user: Identity,
    pub entry_time: i64,
    pub referrer: Option<Identity>,
    pub score: u32,
    pub rewards_claimed: bool,
    pub bump: u8,
}

/// No user is on the roster twice.
pub open spec fn users_distinct(roster: Seq<Participant>) -> bool {
    forall|i: int, j: int| 0 <= i < j < roster.len() ==> (#[trigger] roster[i]).user != (#[trigger] roster[j]).user
}

/// `user` is on the roster.
pub open spec fn has_joined(roster: Seq<Participant>, user: Identity) -> bool {
    exists|i: int| 0 <= i < roster.len() && (#[trigger] roster[i]).user == user
}

/// The place of `user` on the roster, which is in the order of joining.
pub open spec fn place_of(roster: Seq<Participant>, user: Identity) -> int {
    choose|i: int| 0 <= i < roster.len() && (#[trigger] roster[i]).user == user
}

/// The scores of the roster, in the order of joining.
pub open spec fn scores_of(roster: Seq<Participant>) -> Seq<u32> {
    Seq::new(roster.len(), |i: int| roster[i].score)
}

/// On a roster of distinct users, a user's place is where the user stands.
pub proof fn lemma_place_of(roster: Seq<Participant>, i: int)
    requires
        users_distinct(roster),
        0 <= i < roster.len(),
    ensures
        has_joined(roster, roster[i].user),
        place_of(roster, roster[i].user) == i,
{
    let user = roster[i].user;
    let j = place_of(roster, user);
    assert(roster[j].user == user);
    if i < j {
        assert(roster[i].user != roster[j].user);
    }
    if j < i {
        assert(roster[j].user != roster[i].user);
    }
}

/// Whether no user is on the roster twice.
pub fn roster_is_distinct(roster: &Vec<Participant>) -> (ok: bool)
    ensures
        ok == users_distinct(roster@),
{
    let mut j: usize = 0;
    while j < roster.len()
        invariant
            j <= roster@.len(),
            forall|a: int, b: int| 0 <= a < b < j ==> (#[trigger] roster@[a]).user != (#[trigger] roster@[b]).user,
        decreases roster@.len() - j,
    {
        let mut i: usize = 0;
        while i < j
            invariant
                i <= j < roster@.len(),
                forall|a: int| 0 <= a < i ==> (#[trigger] roster@[a]).user != roster@[j as int].user,
            decreases j - i,
        {
            if roster[i].user.same(&roster[j].user) {
                assert(roster@[i as int].user == roster@[j as int].user);
                return false;
            }
            i = i + 1;
        }
        j = j + 1;
    }
    true
}

/// A league with the records of those who joined it, in the order in which
/// they joined.
#[derive(Debug)]
pub struct LeagueAccount {
    pub address: Identity,
    pub league: League,
    pub roster: Vec<Participant>,
}

impl LeagueAccount {
    /// The league is well formed; the roster holds one record for each
    /// participant that the league counts, each of this league and of a user
    /// of its own; nobody but the winner of a resolved league has claimed,
    /// and the winner has claimed exactly when the pool is empty.
    pub open spec fn wf(&self) -> bool {
        &&& self.league.wf()
        &&& self.roster@.len() == self.league.current_participants
        &&& users_distinct(self.roster@)
        &&& forall|i: int| 0 <= i < self.roster@.len() ==> (#[trigger] self.roster@[i]).league == self.address
        &&& forall|i: int|
            0 <= i < self.roster@.len() && (#[trigger] self.roster@[i]).rewards_claimed ==> self.league.winner
                == Some(self.roster@[i].user)
        &&& (self.league.state == LeagueState::Resolved ==> {
            &&& has_joined(self.roster@, self.league.winner->0)
            &&& (self.roster@[place_of(self.roster@, self.league.winner->0)].rewards_claimed <==> self.league.prize_pool
                == 0)
            &&& self.league.prize_pool != 0 ==> self.league.prize_pool == self.league.winner_share()
        })
    }

    /// Whether the league and its roster are well formed together.
    pub fn is_valid(&self) -> (ok: bool)
        ensures
            ok == self.wf(),
    {
        if !self.league.is_valid() {
            return false;
        }
        if self.roster.len() != self.league.current_participants as usize {
            return false;
        }
        if !roster_is_distinct(&self.roster) {
            return false;
        }
        let mut i: usize = 0;
        while i < self.roster.len()
            invariant
                i <= self.roster@.len(),
                forall|k: int| 0 <= k < i ==> (#[trigger] self.roster@[k]).league == self.address,
                forall|k: int|
                    0 <= k < i && (#[trigger] self.roster@[k]).rewards_claimed ==> self.league.winner == Some(
                        self.roster@[k].user,
                    ),
            decreases self.roster@.len() - i,
        {
            let entry = self.roster[i];
            if !entry.league.same(&self.address) {
                return false;
            }
            if entry.rewards_claimed && !same_option(&self.league.winner, &Some(entry.user)) {
                return false;
            }
            i = i + 1;
        }
        match self.league.winner {
            Some(winner) => {
                match self.find_participant(&winner) {
                    Some(place) => self.roster[place].rewards_claimed == (self.league.prize_pool == 0),
                    None => false,
                }
            },
            None => true,
        }
    }

    /// Where `user` stands on the roster, if the user has joined.
    pub fn find_participant(&self, user: &Identity) -> (place: Option<usize>)
        ensures
            place is Some <==> has_joined(self.roster@, *user),
            place is Some ==> place->0 < self.roster@.len() && self.roster@[place->0 as int].user == *user,
            place is Some && users_distinct(self.roster@) ==> place->0 == place_of(self.roster@, *user),
    {
        let mut i: usize = 0;
        while i < self.roster.len()
            invariant
                i <= self.roster@.len(),
                forall|j: int| 0 <= j < i ==> (#[trigger] self.roster@[j]).user != *user,
            decreases self.roster@.len() - i,
        {
            if self.roster[i].user.same(user) {
                proof {
                    if users_distinct(self.roster@) {
                        lemma_place_of(self.roster@, i as int);
                    }
                }
                return Some(i);
            }
            i = i + 1;
        }
        None
    }
}

} // verus!
