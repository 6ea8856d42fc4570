//! The rules of the fellowship as functions on abstract states.

use crate::fellowship::params::{Balance, BlockNumber, ParamsView, PartialParamsView};
use crate::fellowship::types::{
    AccountId, Config, DispatchError, Error, Event, Evidence, MemberStatus,
    MemberStatusOf, Origin, Rank, Wish,
};
use vstd::prelude::*;

verus! {

/// Everything that the fellowship keeps, with the membership organisation of the runtime.
#[verifier::ext_equal]
#[verifier::reject_recursive_types(T)]
pub struct State<T: Config> {
    /// The membership that the runtime stands for.
    pub membership: T::Membership,
    /// The number of the current block.
    pub now: BlockNumber,
    /// The parameters.
    pub params: ParamsView,
    /// The status of every tracked account.
    pub member: Map<AccountId, MemberStatusOf>,
    /// The evidence that awaits a judgement, with the wish it underpins.
    pub evidence: Map<AccountId, (Wish, Evidence<T::EvidenceSize>)>,
    /// The events deposited so far.
    pub events: Seq<Event<ParamsView, T::EvidenceSize>>,
}

/// A sum of block numbers that stops at the last one.
pub open spec fn saturated(a: BlockNumber, b: BlockNumber) -> BlockNumber {
    if a + b > BlockNumber::MAX {
        BlockNumber::MAX
    } else {
        (a + b) as BlockNumber
    }
}

/// Where the lists of parameters keep a rank: rank 1 first, up to the highest rank.
pub open spec fn rank_index(rank: Rank, max_rank: Rank) -> Option<nat> {
    if 0 < rank <= max_rank {
        Some((rank - 1) as nat)
    } else {
        None
    }
}

/// Why a call that anyone may sign is refused to an origin, if it is.
pub open spec fn unsigned<E>(origin: Origin) -> Option<DispatchError<E>> {
    match origin {
        Origin::Signed(_) => None,
        _ => Some(DispatchError::BadOrigin),
    }
}

/// Why a call is refused to an origin that failed the privileged check, if it is: only root may.
pub open spec fn not_root<E>(origin: Origin) -> Option<DispatchError<E>> {
    match origin {
        Origin::Root => None,
        _ => Some(DispatchError::BadOrigin),
    }
}

/// Why an origin may not handle members of `rank`, if so: `tried` is the highest rank that it may
/// handle, or the origin itself where it may handle none.
pub open spec fn not_permitted<E>(tried: Result<Rank, Origin>, rank: Rank) -> Option<
    DispatchError<E>,
> {
    match tried {
        Ok(allow_rank) => if allow_rank >= rank {
            None
        } else {
            Some(DispatchError::Module(Error::NoPermission))
        },
        Err(origin) => not_root(origin),
    }
}

impl<T: Config> State<T> {
    /// What holds at all times: only tracked accounts have evidence awaiting a judgement, no record
    /// lies in the future, and no list of parameters is longer than there are ranks above zero.
    pub open spec fn wf(self) -> bool {
        &&& self.params.fits(T::spec_max_rank())
        &&& forall|who: AccountId| #[trigger]
            self.evidence.contains_key(who) ==> self.member.contains_key(who)
        &&& forall|who: AccountId| #[trigger]
            self.member.contains_key(who) ==> self.member[who].last_promotion <= self.now
                && self.member[who].last_proof <= self.now
    }

    /// The rank of an account, if it has one.
    pub open spec fn rank_of(self, who: AccountId) -> Option<Rank> {
        T::spec_rank_of(self.membership, who)
    }

    /// Whether an account is tracked.
    pub open spec fn tracks(self, who: AccountId) -> bool {
        self.member.contains_key(who)
    }

    /// This state with another membership.
    pub open spec fn with_membership(self, membership: T::Membership) -> State<T> {
        State { membership, ..self }
    }

    /// This state with one more event.
    pub open spec fn with_event(self, event: Event<ParamsView, T::EvidenceSize>) -> State<T> {
        State { events: self.events.push(event), ..self }
    }

    /// This state with an account tracked under the given status.
    pub open spec fn with_status(self, who: AccountId, status: MemberStatusOf) -> State<T> {
        State { member: self.member.insert(who, status), ..self }
    }

    /// This state with an account no longer tracked.
    pub open spec fn without_status(self, who: AccountId) -> State<T> {
        State { member: self.member.remove(who), ..self }
    }

    /// This state after the evidence of an account, if there is any, was judged and removed.
    pub open spec fn judged(self, who: AccountId, old_rank: Rank, new_rank: Option<Rank>) -> State<
        T,
    > {
        if self.evidence.contains_key(who) {
            let (wish, evidence) = self.evidence[who];
            State { evidence: self.evidence.remove(who), ..self }.with_event(
                Event::EvidenceJudged { who, wish, evidence, old_rank, new_rank },
            )
        } else {
            self
        }
    }

    /// How long an account of this rank may go without a proof; zero for ever. `None` where the
    /// rank is not valid.
    pub open spec fn demotion_period(self, rank: Rank) -> Option<BlockNumber> {
        if rank == 0 {
            Some(self.params.offboard_timeout)
        } else {
            match rank_index(rank, T::spec_max_rank()) {
                Some(index) => Some(self.params.demotion_period[index as int]),
                None => None,
            }
        }
    }

    /// Whether the parameters have a demotion period for a rank.
    pub open spec fn has_demotion_period(self, rank: Option<Rank>) -> bool {
        rank matches Some(held) ==> (rank_index(held, T::spec_max_rank()) matches Some(index)
            ==> index < self.params.demotion_period.len())
    }

    /// Why `who`, who is of the given rank, is not to be bumped, if so.
    pub open spec fn bump_refusal(
        self,
        origin: Origin,
        who: AccountId,
        rank: Option<Rank>,
    ) -> Option<DispatchError<T::MembersError>> {
        if unsigned::<T::MembersError>(origin) is Some {
            unsigned(origin)
        } else if !self.tracks(who) {
            Some(DispatchError::Module(Error::NotTracked))
        } else {
            match rank {
                None => Some(DispatchError::Module(Error::Unranked)),
                Some(held) => match self.demotion_period(held) {
                    None => Some(DispatchError::Module(Error::InvalidRank)),
                    Some(period) => if period == 0 || self.now < saturated(
                        self.member[who].last_proof,
                        period,
                    ) {
                        Some(DispatchError::Module(Error::NothingDoing))
                    } else {
                        None
                    },
                },
            }
        }
    }

    /// The state after `who` was demoted from one rank to another, or out of the membership.
    pub open spec fn demoted(self, who: AccountId, old_rank: Rank, new_rank: Option<Rank>) -> State<
        T,
    > {
        let judged = self.judged(who, old_rank, new_rank);
        match new_rank {
            Some(to_rank) => judged.with_status(
                who,
                MemberStatus { last_proof: self.now, ..self.member[who] },
            ).with_event(Event::Demoted { who, to_rank }),
            None => judged.without_status(who).with_event(Event::Offboarded { who }),
        }
    }

    /// Why the activity of `who`, who is of the given rank, is not to be set, if so.
    pub open spec fn set_active_refusal(self, who: AccountId, rank: Option<Rank>) -> Option<
        DispatchError<T::MembersError>,
    > {
        if rank is None || rank == Some(0u16) {
            Some(DispatchError::Module(Error::Unranked))
        } else if !self.tracks(who) {
            Some(DispatchError::Module(Error::NotTracked))
        } else {
            None
        }
    }

    /// The state after the activity of an account was set.
    pub open spec fn active_set(self, who: AccountId, is_active: bool) -> State<T> {
        self.with_status(who, MemberStatus { is_active, ..self.member[who] }).with_event(
            Event::ActiveChanged { who, is_active },
        )
    }

    /// Why `who`, who is of the given rank, is not to be approved at a rank, if so.
    pub open spec fn approve_refusal(
        self,
        tried: Result<Rank, Origin>,
        who: AccountId,
        at_rank: Rank,
        rank: Option<Rank>,
    ) -> Option<DispatchError<T::MembersError>> {
        if not_permitted::<T::MembersError>(tried, at_rank) is Some {
            not_permitted(tried, at_rank)
        } else if at_rank == 0 {
            Some(DispatchError::Module(Error::InvalidRank))
        } else if rank is None {
            Some(DispatchError::Module(Error::Unranked))
        } else if rank != Some(at_rank) {
            Some(DispatchError::Module(Error::UnexpectedRank))
        } else if !self.tracks(who) {
            Some(DispatchError::Module(Error::NotTracked))
        } else {
            None
        }
    }

    /// The state after a member was approved.
    pub open spec fn approved(self, who: AccountId, at_rank: Rank) -> State<T> {
        self.with_status(
            who,
            MemberStatus { last_proof: self.now, ..self.member[who] },
        ).judged(who, at_rank, Some(at_rank)).with_event(Event::Proven { who, at_rank })
    }

    /// Why `who`, who is of the given rank, is not to be inducted, if so.
    pub open spec fn induct_refusal(
        self,
        tried: Result<(), Origin>,
        who: AccountId,
        rank: Option<Rank>,
    ) -> Option<DispatchError<T::MembersError>> {
        if tried matches Err(origin) && not_root::<T::MembersError>(origin) is Some {
            Some(DispatchError::BadOrigin)
        } else if self.tracks(who) {
            Some(DispatchError::Module(Error::AlreadyInducted))
        } else if rank is Some {
            Some(DispatchError::Module(Error::Ranked))
        } else {
            None
        }
    }

    /// The state after a candidate was inducted.
    pub open spec fn inducted(self, who: AccountId) -> State<T> {
        self.with_status(
            who,
            MemberStatus { is_active: true, last_promotion: self.now, last_proof: self.now },
        ).with_event(Event::Inducted { who })
    }

    /// Why `who`, who is of the given rank, is not to be promoted to a rank, if so.
    pub open spec fn promote_refusal(
        self,
        tried: Result<Rank, Origin>,
        who: AccountId,
        to_rank: Rank,
        rank: Option<Rank>,
    ) -> Option<DispatchError<T::MembersError>> {
        if not_permitted::<T::MembersError>(tried, to_rank) is Some {
            not_permitted(tried, to_rank)
        } else {
            match rank {
                None => Some(DispatchError::Module(Error::Unranked)),
                Some(held) => if held + 1 != to_rank {
                    Some(DispatchError::Module(Error::UnexpectedRank))
                } else if !self.tracks(who) {
                    Some(DispatchError::Module(Error::NotTracked))
                } else {
                    match rank_index(to_rank, T::spec_max_rank()) {
                        None => Some(DispatchError::Module(Error::InvalidRank)),
                        Some(index) => if saturated(
                            self.member[who].last_promotion,
                            self.params.min_promotion_period[index as int],
                        ) > self.now {
                            Some(DispatchError::Module(Error::TooSoon))
                        } else {
                            None
                        },
                    }
                },
            }
        }
    }

    /// Whether the parameters have a promotion period for a rank.
    pub open spec fn has_promotion_period(self, to_rank: Rank) -> bool {
        rank_index(to_rank, T::spec_max_rank()) matches Some(index) ==> index
            < self.params.min_promotion_period.len()
    }

    /// The status of a member who was promoted in the current block.
    pub open spec fn promoted_status(self, who: AccountId) -> MemberStatusOf {
        MemberStatus { last_promotion: self.now, last_proof: self.now, ..self.member[who] }
    }

    /// The state after a member was promoted by one rank and got the given status.
    pub open spec fn promoted(
        self,
        who: AccountId,
        status: MemberStatusOf,
        from_rank: Rank,
        to_rank: Rank,
    ) -> State<T> {
        self.with_status(who, status).judged(
            who,
            from_rank,
            Some(to_rank),
        ).with_event(Event::Promoted { who, to_rank })
    }

    /// Why `who`, who is of the given rank, is not to be fast promoted to a rank, if so.
    pub open spec fn promote_fast_refusal(
        self,
        tried: Result<Rank, Origin>,
        who: AccountId,
        to_rank: Rank,
        rank: Option<Rank>,
    ) -> Option<DispatchError<T::MembersError>> {
        if not_permitted::<T::MembersError>(tried, to_rank) is Some {
            not_permitted(tried, to_rank)
        } else if to_rank > T::spec_max_rank() {
            Some(DispatchError::Module(Error::InvalidRank))
        } else {
            match rank {
                None => Some(DispatchError::Module(Error::Unranked)),
                Some(held) => if to_rank <= held {
                    Some(DispatchError::Module(Error::UnexpectedRank))
                } else if !self.tracks(who) {
                    Some(DispatchError::Module(Error::NotTracked))
                } else {
                    None
                },
            }
        }
    }

    /// Promotions from rank to rank up to `to_rank`, as far as the membership organisation lets
    /// them pass.
    pub open spec fn fast_promoted(
        self,
        who: AccountId,
        status: MemberStatusOf,
        from_rank: Rank,
        to_rank: Rank,
    ) -> (State<T>, Result<(), DispatchError<T::MembersError>>)
        decreases to_rank - from_rank,
    {
        if from_rank >= to_rank {
            (self, Ok(()))
        } else {
            let (membership, done) = T::spec_promote(self.membership, who);
            match done {
                Err(error) => (
                    self.with_membership(membership),
                    Err(DispatchError::Members(error)),
                ),
                Ok(()) => self.with_membership(membership).promoted(
                    who,
                    status,
                    from_rank,
                    (from_rank + 1) as Rank,
                ).fast_promoted(who, status, (from_rank + 1) as Rank, to_rank),
            }
        }
    }

    /// Why `who`, who is of the given rank, is not to be offboarded, if so.
    pub open spec fn offboard_refusal(
        self,
        origin: Origin,
        who: AccountId,
        rank: Option<Rank>,
    ) -> Option<DispatchError<T::MembersError>> {
        if unsigned::<T::MembersError>(origin) is Some {
            unsigned(origin)
        } else if rank is Some {
            Some(DispatchError::Module(Error::Ranked))
        } else if !self.tracks(who) {
            Some(DispatchError::Module(Error::NotTracked))
        } else {
            None
        }
    }

    /// The state after an account was offboarded.
    pub open spec fn offboarded(self, who: AccountId) -> State<T> {
        State {
            member: self.member.remove(who),
            evidence: self.evidence.remove(who),
            ..self
        }.with_event(Event::Offboarded { who })
    }

    /// Why an origin may not submit evidence, if so, where `rank` is that of the account that
    /// signed.
    pub open spec fn submit_refusal(self, origin: Origin, rank: Option<Rank>) -> Option<
        DispatchError<T::MembersError>,
    > {
        match origin {
            Origin::Signed(who) => if !self.tracks(who) {
                Some(DispatchError::Module(Error::NotTracked))
            } else if rank is None {
                Some(DispatchError::Module(Error::Unranked))
            } else {
                None
            },
            _ => Some(DispatchError::BadOrigin),
        }
    }

    /// The state after evidence was submitted.
    pub open spec fn submitted(
        self,
        who: AccountId,
        wish: Wish,
        evidence: Evidence<T::EvidenceSize>,
    ) -> State<T> {
        State { evidence: self.evidence.insert(who, (wish, evidence)), ..self }.with_event(
            Event::Requested { who, wish },
        )
    }

    /// Why `who`, who is of the given rank, is not to be imported, if so.
    pub open spec fn import_refusal(self, who: AccountId, rank: Option<Rank>) -> Option<
        DispatchError<T::MembersError>,
    > {
        if self.tracks(who) {
            Some(DispatchError::Module(Error::AlreadyInducted))
        } else if rank is None {
            Some(DispatchError::Module(Error::Unranked))
        } else {
            None
        }
    }

    /// The state after an account was imported at its rank.
    pub open spec fn imported(self, who: AccountId, rank: Rank) -> State<T> {
        self.with_status(
            who,
            MemberStatus { is_active: true, last_promotion: 0, last_proof: self.now },
        ).with_event(Event::Imported { who, rank })
    }

    /// The state after the parameters were replaced.
    pub open spec fn with_params(self, params: ParamsView) -> State<T> {
        State { params, ..self }.with_event(Event::ParamsChanged { params })
    }

    /// The state after some parameters were replaced.
    pub open spec fn with_partial_params(self, new: PartialParamsView) -> State<T> {
        self.with_params(self.params.updated(new))
    }

    /// What an account of a rank is paid.
    pub open spec fn salary(self, rank: Rank, who: AccountId) -> Balance {
        match rank_index(rank, T::spec_max_rank()) {
            Some(index) if self.tracks(who) => if self.member[who].is_active {
                self.params.active_salary[index as int]
            } else {
                self.params.passive_salary[index as int]
            },
            _ => 0,
        }
    }

    /// Whether the parameters have the salary of an account of a rank.
    pub open spec fn has_salary(self, rank: Rank, who: AccountId) -> bool {
        rank_index(rank, T::spec_max_rank()) matches Some(index) ==> self.tracks(who) ==> index < (
        if self.member[who].is_active {
            self.params.active_salary.len()
        } else {
            self.params.passive_salary.len()
        })
    }

    /// Whether the record of `old` can move to `new`.
    pub open spec fn can_swap(self, old: AccountId, new: AccountId) -> bool {
        old != new && self.tracks(old) && !self.tracks(new)
    }

    /// The state after an account took the place of another.
    pub open spec fn swapped(self, old: AccountId, new: AccountId) -> State<T> {
        State {
            member: self.member.remove(old).insert(new, self.member[old]),
            evidence: if self.evidence.contains_key(old) {
                self.evidence.remove(old).insert(new, self.evidence[old])
            } else {
                self.evidence
            },
            ..self
        }.with_event(Event::Swapped { who: old, new_who: new })
    }

    /// Whether an account of the given rank is inducted with at least `min_rank`.
    pub open spec fn inducted_at(self, who: AccountId, rank: Option<Rank>, min_rank: Rank) -> bool {
        self.tracks(who) && (rank matches Some(held) && held >= min_rank)
    }
}

/// A membership after an account was raised towards a rank in up to `rounds` rounds.
pub open spec fn raised<T: Config>(
    membership: T::Membership,
    who: AccountId,
    min_rank: Rank,
    rounds: nat,
) -> (T::Membership, Result<(), ()>)
    decreases rounds,
{
    if rounds == 0 {
        (membership, Ok(()))
    } else {
        match T::spec_rank_of(membership, who) {
            None => (membership, Err(())),
            Some(rank) => if rank < min_rank {
                let (next, done) = T::spec_promote(membership, who);
                match done {
                    Err(_) => (next, Err(())),
                    Ok(()) => raised::<T>(next, who, min_rank, (rounds - 1) as nat),
                }
            } else {
                raised::<T>(membership, who, min_rank, (rounds - 1) as nat)
            },
        }
    }
}

/// A membership after an account was brought up to a rank from wherever it stands.
pub open spec fn brought_up<T: Config>(
    membership: T::Membership,
    who: AccountId,
    min_rank: Rank,
) -> (T::Membership, Result<(), ()>) {
    if T::spec_rank_of(membership, who) is None {
        let (next, done) = T::spec_induct(membership, who);
        match done {
            Err(_) => (next, Err(())),
            Ok(()) => raised::<T>(next, who, min_rank, min_rank as nat),
        }
    } else {
        raised::<T>(membership, who, min_rank, min_rank as nat)
    }
}

} // verus!
