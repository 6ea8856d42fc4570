//! The calls of the fellowship.

use crate::fellowship::model::{
    brought_up, not_permitted, not_root, raised, rank_index, saturated, unsigned, State,
};
use crate::fellowship::params::{
    periods, salaries, Balance, BlockNumber, ParamsOf, ParamsView, PartialParamsOf,
};
use crate::fellowship::types::{
    AccountId, BadOrigin, Config, DispatchError, Error, Event, EventOf, Evidence, MemberStatus,
    MemberStatusOf, Origin, Pays, Rank, Wish,
};
use std::collections::HashMap;
use vstd::prelude::*;

verus! {

broadcast use vstd::std_specs::hash::group_hash_axioms;

/// What a call of the fellowship comes to.
pub type DispatchResult<T> = Result<(), DispatchError<<T as Config>::MembersError>>;

/// What a call of the fellowship comes to, with whether it is paid for.
pub type DispatchResultWithPostInfo<T> = Result<Pays, DispatchError<<T as Config>::MembersError>>;

/// `sp_arithmetic::traits::Saturating::saturating_add` on `u64`: the sum, or the largest number
/// where the sum is larger.
#[verifier::external_body]
fn saturating_add(a: u64, b: u64) -> (sum: u64)
    ensures
        sum == saturated(a, b),
{
    sp_arithmetic::traits::Saturating::saturating_add(a, b)
}

/// The fellowship.
#[verifier::reject_recursive_types(T)]
pub struct Pallet<T: Config> {
    /// What the runtime supplies, the membership organisation among it.
    pub runtime: T,
    /// The number of the current block.
    pub block_number: BlockNumber,
    /// The parameters.
    pub params: ParamsOf,
    /// The status of every tracked account.
    pub member: HashMap<AccountId, MemberStatusOf>,
    /// The evidence that awaits a judgement, with the wish it underpins.
    pub member_evidence: HashMap<AccountId, (Wish, Evidence<T::EvidenceSize>)>,
    /// The events deposited so far.
    pub events: Vec<EventOf<T::EvidenceSize>>,
}

/// The events of a fellowship as values.
pub open spec fn events_view<Size>(events: Seq<EventOf<Size>>) -> Seq<Event<ParamsView, Size>> {
    Seq::new(events.len(), |i: int| events[i]@)
}

impl<T: Config> View for Pallet<T> {
    type V = State<T>;

    open spec fn view(&self) -> State<T> {
        State {
            membership: self.runtime.membership(),
            now: self.block_number,
            params: self.params@,
            member: self.member@,
            evidence: self.member_evidence@,
            events: events_view(self.events@),
        }
    }
}

/// The account that signed a call.
fn ensure_signed<E>(origin: Origin) -> (who: Result<AccountId, DispatchError<E>>)
    ensures
        match unsigned::<E>(origin) {
            Some(error) => who == Err::<AccountId, DispatchError<E>>(error),
            None => who matches Ok(account) && origin == Origin::Signed(account),
        },
{
    match origin {
        Origin::Signed(who) => Ok(who),
        _ => Err(DispatchError::BadOrigin),
    }
}

/// Lets nothing but root pass.
fn ensure_root<E>(origin: Origin) -> (passed: Result<(), DispatchError<E>>)
    ensures
        passed == (match not_root::<E>(origin) {
            Some(error) => Err(error),
            None => Ok(()),
        }),
{
    match origin {
        Origin::Root => Ok(()),
        _ => Err(DispatchError::BadOrigin),
    }
}

/// Lets an origin pass that may handle members of `rank`: `tried` is what the privileged check of
/// the origin came to. Root always passes.
pub fn ensure_permitted<E>(tried: Result<Rank, Origin>, rank: Rank) -> (passed: Result<
    (),
    DispatchError<E>,
>)
    ensures
        passed == (match not_permitted::<E>(tried, rank) {
            Some(error) => Err(error),
            None => Ok(()),
        }),
{
    match tried {
        Ok(allow_rank) => {
            if allow_rank >= rank {
                Ok(())
            } else {
                Err(DispatchError::Module(Error::NoPermission))
            }
        },
        Err(origin) => ensure_root(origin),
    }
}

impl<T: Config> Pallet<T> {
    /// A fellowship that tracks nobody yet.
    pub fn new(runtime: T, block_number: BlockNumber) -> (pallet: Self)
        ensures
            pallet@.wf(),
            pallet@ == (State::<T> {
                membership: runtime.membership(),
                now: block_number,
                params: ParamsView::none(),
                member: Map::empty(),
                evidence: Map::empty(),
                events: Seq::empty(),
            }),
    {
        let pallet = Pallet {
            runtime,
            block_number,
            params: ParamsOf::default(),
            member: HashMap::new(),
            member_evidence: HashMap::new(),
            events: Vec::new(),
        };
        assert(events_view(pallet.events@) =~= Seq::empty());
        pallet
    }

    fn deposit_event(&mut self, event: EventOf<T::EvidenceSize>)
        ensures
            final(self)@ == old(self)@.with_event(event@),
    {
        self.events.push(event);
        assert(events_view(self.events@) =~= events_view(old(self).events@).push(event@));
    }

    fn status(&self, who: AccountId) -> (status: Option<MemberStatusOf>)
        ensures
            status == (if self@.tracks(who) {
                Some(self@.member[who])
            } else {
                None
            }),
    {
        match self.member.get(&who) {
            Some(status) => Some(*status),
            None => None,
        }
    }

    fn set_status(&mut self, who: AccountId, status: MemberStatusOf)
        ensures
            final(self)@ == old(self)@.with_status(who, status),
    {
        self.member.insert(who, status);
    }

    fn clear_status(&mut self, who: AccountId)
        ensures
            final(self)@ == old(self)@.without_status(who),
    {
        self.member.remove(&who);
    }

    /// Removes the evidence of an account, if there is any, as judged.
    fn dispose_evidence(&mut self, who: AccountId, old_rank: Rank, new_rank: Option<Rank>)
        ensures
            final(self)@ == old(self)@.judged(who, old_rank, new_rank),
    {
        if let Some((wish, evidence)) = self.member_evidence.remove(&who) {
            self.deposit_event(Event::EvidenceJudged { who, wish, evidence, old_rank, new_rank });
        } else {
            assert(self.member_evidence@ =~= old(self).member_evidence@);
        }
    }

    /// Convert a rank into an index suitable for the lists of the parameters.
    ///
    /// Rank 1 becomes index 0. Zero and any rank above the highest are `None`.
    pub fn rank_to_index(rank: Rank) -> (index: Option<usize>)
        ensures
            match index {
                Some(i) => rank_index(rank, T::spec_max_rank()) == Some(i as nat),
                None => rank_index(rank, T::spec_max_rank()) is None,
            },
    {
        if rank == 0 || rank > T::max_rank() {
            None
        } else {
            Some((rank - 1) as usize)
        }
    }

    /// Whether `who`, who is of the given rank, is due to be bumped: the rank if so.
    pub fn check_bump(&self, origin: Origin, who: AccountId, rank: Option<Rank>) -> (due: Result<
        Rank,
        DispatchError<T::MembersError>,
    >)
        requires
            origin is Signed && self@.tracks(who) ==> self@.has_demotion_period(rank),
        ensures
            match self@.bump_refusal(origin, who, rank) {
                Some(error) => due == Err::<Rank, DispatchError<T::MembersError>>(error),
                None => due matches Ok(held) && rank == Some(held),
            },
    {
        match ensure_signed::<T::MembersError>(origin) {
            Ok(_) => {},
            Err(error) => {
                return Err(error);
            },
        }
        let member: MemberStatusOf = match self.status(who) {
            Some(status) => status,
            None => {
                return Err(DispatchError::Module(Error::NotTracked));
            },
        };
        let held: Rank = match rank {
            Some(held) => held,
            None => {
                return Err(DispatchError::Module(Error::Unranked));
            },
        };
        let demotion_period: BlockNumber = if held == 0 {
            self.params.offboard_timeout
        } else {
            match Self::rank_to_index(held) {
                Some(index) => periods(&self.params.demotion_period)[index],
                None => {
                    return Err(DispatchError::Module(Error::InvalidRank));
                },
            }
        };
        if demotion_period == 0 {
            return Err(DispatchError::Module(Error::NothingDoing));
        }
        let demotion_block: BlockNumber = saturating_add(member.last_proof, demotion_period);
        // Ensure enough time has passed.
        if self.block_number >= demotion_block {
            Ok(held)
        } else {
            Err(DispatchError::Module(Error::NothingDoing))
        }
    }

    /// Records that the membership organisation has demoted `who` from `old_rank` to `new_rank`,
    /// or removed `who` where there is no new rank.
    pub fn record_demotion(&mut self, who: AccountId, old_rank: Rank, new_rank: Option<Rank>)
        requires
            old(self)@.tracks(who),
        ensures
            final(self)@ == old(self)@.demoted(who, old_rank, new_rank),
            old(self)@.wf() ==> final(self)@.wf(),
    {
        let now: BlockNumber = self.block_number;
        let before: Option<MemberStatusOf> = self.status(who);
        self.dispose_evidence(who, old_rank, new_rank);
        match (new_rank, before) {
            (Some(to_rank), Some(status)) => {
                self.set_status(who, MemberStatus { last_proof: now, ..status });
                self.deposit_event(Event::Demoted { who, to_rank });
            },
            _ => {
                self.clear_status(who);
                self.deposit_event(Event::Offboarded { who });
            },
        }
    }

    /// Bump the state of a member.
    ///
    /// This will demote a member whose `last_proof` is now beyond their rank's demotion period.
    pub fn bump(&mut self, origin: Origin, who: AccountId) -> (done: DispatchResultWithPostInfo<T>)
        requires
            origin is Signed && old(self)@.tracks(who) ==> old(self)@.has_demotion_period(
                old(self)@.rank_of(who),
            ),
        ensures
            match old(self)@.bump_refusal(origin, who, old(self)@.rank_of(who)) {
                Some(error) => {
                    &&& done == Err::<Pays, DispatchError<T::MembersError>>(error)
                    &&& final(self)@ == old(self)@
                },
                None => {
                    let (membership, demoted) = T::spec_demote(old(self)@.membership, who);
                    match demoted {
                        Err(error) => {
                            &&& done == Err::<Pays, DispatchError<T::MembersError>>(
                                DispatchError::Members(error),
                            )
                            &&& final(self)@ == old(self)@.with_membership(membership)
                        },
                        Ok(()) => {
                            &&& done == Ok::<Pays, DispatchError<T::MembersError>>(Pays::No)
                            &&& final(self)@ == old(self)@.with_membership(membership).demoted(
                                who,
                                old(self)@.rank_of(who)->Some_0,
                                T::spec_rank_of(membership, who),
                            )
                        },
                    }
                },
            },
            done is Ok ==> final(self)@.rank_of(who) == (if old(self)@.rank_of(who)->Some_0
                <= T::spec_min_rank() {
                None
            } else {
                Some((old(self)@.rank_of(who)->Some_0 - 1) as Rank)
            }),
            old(self)@.wf() ==> final(self)@.wf(),
    {
        let rank: Rank = match self.check_bump(origin, who, self.runtime.rank_of(who)) {
            Ok(rank) => rank,
            Err(error) => {
                return Err(error);
            },
        };
        let ghost before = self@;
        let outcome = self.runtime.demote(who);
        assert(self@ == before.with_membership(self@.membership));
        match outcome {
            Ok(()) => {},
            Err(error) => {
                return Err(DispatchError::Members(error));
            },
        }
        let maybe_to_rank: Option<Rank> = self.runtime.rank_of(who);
        self.record_demotion(who, rank, maybe_to_rank);
        Ok(Pays::No)
    }

    /// Set the parameters, which have no more entries than there are ranks above zero. `allowed`
    /// tells whether the origin may; root always may.
    pub fn set_params(
        &mut self,
        allowed: Result<(), BadOrigin>,
        params: ParamsOf,
    ) -> (done: DispatchResult<T>)
        requires
            allowed is Ok ==> params@.fits(T::spec_max_rank()),
        ensures
            match allowed {
                Ok(()) => {
                    &&& done == Ok::<(), DispatchError<T::MembersError>>(())
                    &&& final(self)@ == old(self)@.with_params(params@)
                },
                Err(_) => {
                    &&& done == Err::<(), DispatchError<T::MembersError>>(DispatchError::BadOrigin)
                    &&& final(self)@ == old(self)@
                },
            },
            old(self)@.wf() ==> final(self)@.wf(),
    {
        match allowed {
            Ok(()) => {
                self.params = params.duplicate();
                self.deposit_event(Event::ParamsChanged { params });
                Ok(())
            },
            Err(_) => Err(DispatchError::BadOrigin),
        }
    }

    /// Set the parameters partially: a value that is `None`, or is not there, stays as it was.
    /// `allowed` tells whether the origin may; root always may.
    pub fn set_partial_params(
        &mut self,
        allowed: Result<(), BadOrigin>,
        partial_params: PartialParamsOf,
    ) -> (done: DispatchResult<T>)
        ensures
            match allowed {
                Ok(()) => {
                    &&& done == Ok::<(), DispatchError<T::MembersError>>(())
                    &&& final(self)@ == old(self)@.with_partial_params(partial_params@)
                },
                Err(_) => {
                    &&& done == Err::<(), DispatchError<T::MembersError>>(DispatchError::BadOrigin)
                    &&& final(self)@ == old(self)@
                },
            },
            old(self)@.wf() ==> final(self)@.wf(),
    {
        match allowed {
            Ok(()) => {
                self.params.update(&partial_params);
                let params: ParamsOf = self.params.duplicate();
                self.deposit_event(Event::ParamsChanged { params });
                Ok(())
            },
            Err(_) => Err(DispatchError::BadOrigin),
        }
    }

    /// Sets the activity of `who`, who is of the given rank.
    pub fn set_active_at(
        &mut self,
        who: AccountId,
        rank: Option<Rank>,
        is_active: bool,
    ) -> (done: DispatchResult<T>)
        ensures
            match old(self)@.set_active_refusal(who, rank) {
                Some(error) => {
                    &&& done == Err::<(), DispatchError<T::MembersError>>(error)
                    &&& final(self)@ == old(self)@
                },
                None => {
                    &&& done == Ok::<(), DispatchError<T::MembersError>>(())
                    &&& final(self)@ == old(self)@.active_set(who, is_active)
                },
            },
            old(self)@.wf() ==> final(self)@.wf(),
    {
        let is_member: bool = match rank {
            Some(held) => held != 0,
            None => false,
        };
        if !is_member {
            return Err(DispatchError::Module(Error::Unranked));
        }
        match self.status(who) {
            None => Err(DispatchError::Module(Error::NotTracked)),
            Some(status) => {
                self.set_status(who, MemberStatus { is_active, ..status });
                self.deposit_event(Event::ActiveChanged { who, is_active });
                Ok(())
            },
        }
    }

    /// Set whether the member who signs is active or not.
    pub fn set_active(&mut self, origin: Origin, is_active: bool) -> (done: DispatchResult<T>)
        ensures
            match origin {
                Origin::Signed(who) => match old(self)@.set_active_refusal(
                    who,
                    old(self)@.rank_of(who),
                ) {
                    Some(error) => {
                        &&& done == Err::<(), DispatchError<T::MembersError>>(error)
                        &&& final(self)@ == old(self)@
                    },
                    None => {
                        &&& done == Ok::<(), DispatchError<T::MembersError>>(())
                        &&& final(self)@ == old(self)@.active_set(who, is_active)
                    },
                },
                _ => {
                    &&& done == Err::<(), DispatchError<T::MembersError>>(DispatchError::BadOrigin)
                    &&& final(self)@ == old(self)@
                },
            },
            old(self)@.wf() ==> final(self)@.wf(),
    {
        match ensure_signed::<T::MembersError>(origin) {
            Ok(who) => {
                let rank: Option<Rank> = self.runtime.rank_of(who);
                self.set_active_at(who, rank, is_active)
            },
            Err(error) => Err(error),
        }
    }

    /// Approves `who`, who is of the given rank, to continue at `at_rank`.
    pub fn approve_at(
        &mut self,
        tried: Result<Rank, Origin>,
        who: AccountId,
        at_rank: Rank,
        rank: Option<Rank>,
    ) -> (done: DispatchResult<T>)
        ensures
            match old(self)@.approve_refusal(tried, who, at_rank, rank) {
                Some(error) => {
                    &&& done == Err::<(), DispatchError<T::MembersError>>(error)
                    &&& final(self)@ == old(self)@
                },
                None => {
                    &&& done == Ok::<(), DispatchError<T::MembersError>>(())
                    &&& final(self)@ == old(self)@.approved(who, at_rank)
                },
            },
            old(self)@.wf() ==> final(self)@.wf(),
    {
        match ensure_permitted::<T::MembersError>(tried, at_rank) {
            Ok(()) => {},
            Err(error) => {
                return Err(error);
            },
        }
        if at_rank == 0 {
            return Err(DispatchError::Module(Error::InvalidRank));
        }
        match rank {
            None => {
                return Err(DispatchError::Module(Error::Unranked));
            },
            Some(held) => {
                if held != at_rank {
                    return Err(DispatchError::Module(Error::UnexpectedRank));
                }
            },
        }
        match self.status(who) {
            None => Err(DispatchError::Module(Error::NotTracked)),
            Some(status) => {
                let now: BlockNumber = self.block_number;
                self.set_status(who, MemberStatus { last_proof: now, ..status });
                self.dispose_evidence(who, at_rank, Some(at_rank));
                self.deposit_event(Event::Proven { who, at_rank });
                Ok(())
            },
        }
    }

    /// Approve a member to continue at their rank.
    ///
    /// This resets `last_proof` to the current block, thereby delaying any automatic demotion.
    /// `tried` is the highest rank that the origin may approve, or the origin itself.
    pub fn approve(
        &mut self,
        tried: Result<Rank, Origin>,
        who: AccountId,
        at_rank: Rank,
    ) -> (done: DispatchResult<T>)
        ensures
            match old(self)@.approve_refusal(tried, who, at_rank, old(self)@.rank_of(who)) {
                Some(error) => {
                    &&& done == Err::<(), DispatchError<T::MembersError>>(error)
                    &&& final(self)@ == old(self)@
                },
                None => {
                    &&& done == Ok::<(), DispatchError<T::MembersError>>(())
                    &&& final(self)@ == old(self)@.approved(who, at_rank)
                },
            },
            old(self)@.wf() ==> final(self)@.wf(),
    {
        let rank: Option<Rank> = self.runtime.rank_of(who);
        self.approve_at(tried, who, at_rank, rank)
    }

    /// Whether `who`, who is of the given rank, may be inducted.
    pub fn check_induct(
        &self,
        tried: Result<(), Origin>,
        who: AccountId,
        rank: Option<Rank>,
    ) -> (passed: DispatchResult<T>)
        ensures
            passed == (match self@.induct_refusal(tried, who, rank) {
                Some(error) => Err(error),
                None => Ok(()),
            }),
    {
        match tried {
            Ok(()) => {},
            Err(origin) => match ensure_root::<T::MembersError>(origin) {
                Ok(()) => {},
                Err(error) => {
                    return Err(error);
                },
            },
        }
        if self.status(who).is_some() {
            return Err(DispatchError::Module(Error::AlreadyInducted));
        }
        if rank.is_some() {
            return Err(DispatchError::Module(Error::Ranked));
        }
        Ok(())
    }

    /// Records that the membership organisation has added `who`.
    pub fn record_induction(&mut self, who: AccountId)
        ensures
            final(self)@ == old(self)@.inducted(who),
            old(self)@.wf() ==> final(self)@.wf(),
    {
        let now: BlockNumber = self.block_number;
        self.set_status(
            who,
            MemberStatus { is_active: true, last_promotion: now, last_proof: now },
        );
        self.deposit_event(Event::Inducted { who });
    }

    /// Introduce a new and unranked candidate (rank zero). `tried` tells whether the origin may,
    /// or is the origin itself.
    pub fn induct(&mut self, tried: Result<(), Origin>, who: AccountId) -> (done: DispatchResult<T>)
        ensures
            match old(self)@.induct_refusal(tried, who, old(self)@.rank_of(who)) {
                Some(error) => {
                    &&& done == Err::<(), DispatchError<T::MembersError>>(error)
                    &&& final(self)@ == old(self)@
                },
                None => {
                    let (membership, added) = T::spec_induct(old(self)@.membership, who);
                    match added {
                        Err(error) => {
                            &&& done == Err::<(), DispatchError<T::MembersError>>(
                                DispatchError::Members(error),
                            )
                            &&& final(self)@ == old(self)@.with_membership(membership)
                        },
                        Ok(()) => {
                            &&& done == Ok::<(), DispatchError<T::MembersError>>(())
                            &&& final(self)@ == old(self)@.with_membership(membership).inducted(who)
                        },
                    }
                },
            },
            done is Ok ==> final(self)@.rank_of(who) == Some(T::spec_min_rank()),
            old(self)@.wf() ==> final(self)@.wf(),
    {
        match self.check_induct(tried, who, self.runtime.rank_of(who)) {
            Ok(()) => {},
            Err(error) => {
                return Err(error);
            },
        }
        let ghost before = self@;
        let outcome = self.runtime.induct(who);
        assert(self@ == before.with_membership(self@.membership));
        match outcome {
            Ok(()) => {},
            Err(error) => {
                return Err(DispatchError::Members(error));
            },
        }
        self.record_induction(who);
        Ok(())
    }

    /// Whether `who`, who is of the given rank, may be promoted to `to_rank`: the status to get
    /// and the rank held before, if so.
    pub fn check_promote(
        &self,
        tried: Result<Rank, Origin>,
        who: AccountId,
        to_rank: Rank,
        rank: Option<Rank>,
    ) -> (passed: Result<(MemberStatusOf, Rank), DispatchError<T::MembersError>>)
        requires
            not_permitted::<T::MembersError>(tried, to_rank) is None && self@.tracks(who) && (
            rank matches Some(held) && held + 1 == to_rank) ==> self@.has_promotion_period(to_rank),
        ensures
            match self@.promote_refusal(tried, who, to_rank, rank) {
                Some(error) => passed == Err::<
                    (MemberStatusOf, Rank),
                    DispatchError<T::MembersError>,
                >(error),
                None => {
                    &&& passed matches Ok((status, held))
                    &&& status == self@.promoted_status(who)
                    &&& rank == Some(held)
                },
            },
    {
        match ensure_permitted::<T::MembersError>(tried, to_rank) {
            Ok(()) => {},
            Err(error) => {
                return Err(error);
            },
        }
        let held: Rank = match rank {
            Some(held) => held,
            None => {
                return Err(DispatchError::Module(Error::Unranked));
            },
        };
        let is_next: bool = match held.checked_add(1) {
            Some(next) => next == to_rank,
            None => false,
        };
        if !is_next {
            return Err(DispatchError::Module(Error::UnexpectedRank));
        }
        let member: MemberStatusOf = match self.status(who) {
            Some(status) => status,
            None => {
                return Err(DispatchError::Module(Error::NotTracked));
            },
        };
        let min_period: BlockNumber = match Self::rank_to_index(to_rank) {
            Some(index) => periods(&self.params.min_promotion_period)[index],
            None => {
                return Err(DispatchError::Module(Error::InvalidRank));
            },
        };
        let now: BlockNumber = self.block_number;
        // Ensure enough time has passed.
        if saturating_add(member.last_promotion, min_period) > now {
            return Err(DispatchError::Module(Error::TooSoon));
        }
        Ok((MemberStatus { last_promotion: now, last_proof: now, ..member }, held))
    }

    /// Records that the membership organisation has promoted `who` from `from_rank` to `to_rank`.
    pub fn record_promotion(
        &mut self,
        who: AccountId,
        status: MemberStatusOf,
        from_rank: Rank,
        to_rank: Rank,
    )
        ensures
            final(self)@ == old(self)@.promoted(who, status, from_rank, to_rank),
    {
        self.set_status(who, status);
        self.dispose_evidence(who, from_rank, Some(to_rank));
        self.deposit_event(Event::Promoted { who, to_rank });
    }

    /// Increment the rank of a ranked and tracked account.
    ///
    /// `tried` is the highest rank to which the origin may promote, or the origin itself;
    /// `to_rank` is one more than the current rank of `who`.
    pub fn promote(
        &mut self,
        tried: Result<Rank, Origin>,
        who: AccountId,
        to_rank: Rank,
    ) -> (done: DispatchResult<T>)
        requires
            not_permitted::<T::MembersError>(tried, to_rank) is None && old(self)@.tracks(who) && (
            old(self)@.rank_of(who) matches Some(held) && held + 1 == to_rank) ==> old(
                self,
            )@.has_promotion_period(to_rank),
        ensures
            match old(self)@.promote_refusal(tried, who, to_rank, old(self)@.rank_of(who)) {
                Some(error) => {
                    &&& done == Err::<(), DispatchError<T::MembersError>>(error)
                    &&& final(self)@ == old(self)@
                },
                None => {
                    let (membership, raised) = T::spec_promote(old(self)@.membership, who);
                    match raised {
                        Err(error) => {
                            &&& done == Err::<(), DispatchError<T::MembersError>>(
                                DispatchError::Members(error),
                            )
                            &&& final(self)@ == old(self)@.with_membership(membership)
                        },
                        Ok(()) => {
                            &&& done == Ok::<(), DispatchError<T::MembersError>>(())
                            &&& final(self)@ == old(self)@.with_membership(membership).promoted(
                                who,
                                old(self)@.promoted_status(who),
                                old(self)@.rank_of(who)->Some_0,
                                to_rank,
                            )
                        },
                    }
                },
            },
            done is Ok ==> final(self)@.rank_of(who) == Some(to_rank),
            old(self)@.wf() ==> final(self)@.wf(),
    {
        let (member, rank): (MemberStatusOf, Rank) = match self.check_promote(
            tried,
            who,
            to_rank,
            self.runtime.rank_of(who),
        ) {
            Ok(passed) => passed,
            Err(error) => {
                return Err(error);
            },
        };
        let ghost before = self@;
        let outcome = self.runtime.promote(who);
        assert(self@ == before.with_membership(self@.membership));
        match outcome {
            Ok(()) => {},
            Err(error) => {
                return Err(DispatchError::Members(error));
            },
        }
        self.record_promotion(who, member, rank, to_rank);
        Ok(())
    }

    /// Whether `who`, who is of the given rank, may be fast promoted to `to_rank`: the status to
    /// get and the rank held before, if so.
    pub fn check_promote_fast(
        &self,
        tried: Result<Rank, Origin>,
        who: AccountId,
        to_rank: Rank,
        rank: Option<Rank>,
    ) -> (passed: Result<(MemberStatusOf, Rank), DispatchError<T::MembersError>>)
        ensures
            match self@.promote_fast_refusal(tried, who, to_rank, rank) {
                Some(error) => passed == Err::<
                    (MemberStatusOf, Rank),
                    DispatchError<T::MembersError>,
                >(error),
                None => {
                    &&& passed matches Ok((status, held))
                    &&& status == self@.promoted_status(who)
                    &&& rank == Some(held)
                },
            },
    {
        match ensure_permitted::<T::MembersError>(tried, to_rank) {
            Ok(()) => {},
            Err(error) => {
                return Err(error);
            },
        }
        if to_rank > T::max_rank() {
            return Err(DispatchError::Module(Error::InvalidRank));
        }
        let held: Rank = match rank {
            Some(held) => held,
            None => {
                return Err(DispatchError::Module(Error::Unranked));
            },
        };
        if to_rank <= held {
            return Err(DispatchError::Module(Error::UnexpectedRank));
        }
        match self.status(who) {
            None => Err(DispatchError::Module(Error::NotTracked)),
            Some(member) => {
                let now: BlockNumber = self.block_number;
                Ok((MemberStatus { last_promotion: now, last_proof: now, ..member }, held))
            },
        }
    }

    /// Fast promotions can skip ranks and ignore the minimal promotion period.
    ///
    /// Each rank on the way is gained, and recorded, in turn; the first refusal of the membership
    /// organisation ends the call. `tried` is the highest rank to which the origin may promote, or
    /// the origin itself. Note that the member must already be inducted.
    pub fn promote_fast(
        &mut self,
        tried: Result<Rank, Origin>,
        who: AccountId,
        to_rank: Rank,
    ) -> (done: DispatchResult<T>)
        ensures
            match old(self)@.promote_fast_refusal(tried, who, to_rank, old(self)@.rank_of(who)) {
                Some(error) => {
                    &&& done == Err::<(), DispatchError<T::MembersError>>(error)
                    &&& final(self)@ == old(self)@
                },
                None => (final(self)@, done) == old(self)@.fast_promoted(
                    who,
                    old(self)@.promoted_status(who),
                    old(self)@.rank_of(who)->Some_0,
                    to_rank,
                ),
            },
            done is Ok ==> final(self)@.rank_of(who) == Some(to_rank),
            old(self)@.wf() ==> final(self)@.wf(),
    {
        let (member, curr_rank): (MemberStatusOf, Rank) = match self.check_promote_fast(
            tried,
            who,
            to_rank,
            self.runtime.rank_of(who),
        ) {
            Ok(passed) => passed,
            Err(error) => {
                return Err(error);
            },
        };
        let mut rank: Rank = curr_rank;
        while rank < to_rank
            invariant
                curr_rank <= rank <= to_rank,
                self@.rank_of(who) == Some(rank),
                self@.fast_promoted(who, member, rank, to_rank) == old(self)@.fast_promoted(
                    who,
                    member,
                    curr_rank,
                    to_rank,
                ),
                old(self)@.promote_fast_refusal(
                    tried,
                    who,
                    to_rank,
                    old(self)@.rank_of(who),
                ) is None,
                old(self)@.rank_of(who) == Some(curr_rank),
                member == old(self)@.promoted_status(who),
                self@.tracks(who),
                self@.now == old(self)@.now,
                old(self)@.wf() ==> self@.wf(),
            decreases to_rank - rank,
        {
            let ghost before = self@;
            let outcome = self.runtime.promote(who);
            assert(self@ == before.with_membership(self@.membership));
            match outcome {
                Ok(()) => {},
                Err(error) => {
                    return Err(DispatchError::Members(error));
                },
            }
            self.record_promotion(who, member, rank, rank + 1);
            rank = rank + 1;
        }
        Ok(())
    }

    /// Stops tracking `who`, who is of the given rank in the collective.
    pub fn offboard_at(&mut self, origin: Origin, who: AccountId, rank: Option<Rank>) -> (done:
        DispatchResultWithPostInfo<T>)
        ensures
            match old(self)@.offboard_refusal(origin, who, rank) {
                Some(error) => {
                    &&& done == Err::<Pays, DispatchError<T::MembersError>>(error)
                    &&& final(self)@ == old(self)@
                },
                None => {
                    &&& done == Ok::<Pays, DispatchError<T::MembersError>>(Pays::No)
                    &&& final(self)@ == old(self)@.offboarded(who)
                },
            },
            old(self)@.wf() ==> final(self)@.wf(),
    {
        match ensure_signed::<T::MembersError>(origin) {
            Ok(_) => {},
            Err(error) => {
                return Err(error);
            },
        }
        if rank.is_some() {
            return Err(DispatchError::Module(Error::Ranked));
        }
        if self.status(who).is_none() {
            return Err(DispatchError::Module(Error::NotTracked));
        }
        self.clear_status(who);
        self.member_evidence.remove(&who);
        self.deposit_event(Event::Offboarded { who });
        Ok(Pays::No)
    }

    /// Stop tracking a prior member who is now not a ranked member of the collective.
    pub fn offboard(&mut self, origin: Origin, who: AccountId) -> (done: DispatchResultWithPostInfo<
        T,
    >)
        ensures
            match old(self)@.offboard_refusal(origin, who, old(self)@.rank_of(who)) {
                Some(error) => {
                    &&& done == Err::<Pays, DispatchError<T::MembersError>>(error)
                    &&& final(self)@ == old(self)@
                },
                None => {
                    &&& done == Ok::<Pays, DispatchError<T::MembersError>>(Pays::No)
                    &&& final(self)@ == old(self)@.offboarded(who)
                },
            },
            old(self)@.wf() ==> final(self)@.wf(),
    {
        let rank: Option<Rank> = self.runtime.rank_of(who);
        self.offboard_at(origin, who, rank)
    }

    /// Takes evidence from the account that signed, which is of the given rank.
    pub fn submit_evidence_at(
        &mut self,
        origin: Origin,
        rank: Option<Rank>,
        wish: Wish,
        evidence: Evidence<T::EvidenceSize>,
    ) -> (done: DispatchResultWithPostInfo<T>)
        ensures
            match (old(self)@.submit_refusal(origin, rank), origin) {
                (None, Origin::Signed(who)) => {
                    &&& done == Ok::<Pays, DispatchError<T::MembersError>>(
                        if old(self)@.evidence.contains_key(who) {
                            Pays::Yes
                        } else {
                            Pays::No
                        },
                    )
                    &&& final(self)@ == old(self)@.submitted(who, wish, evidence)
                },
                (refusal, _) => {
                    &&& refusal matches Some(error)
                    &&& done == Err::<Pays, DispatchError<T::MembersError>>(error)
                    &&& final(self)@ == old(self)@
                },
            },
            old(self)@.wf() ==> final(self)@.wf(),
    {
        let who: AccountId = match ensure_signed::<T::MembersError>(origin) {
            Ok(who) => who,
            Err(error) => {
                return Err(error);
            },
        };
        if self.status(who).is_none() {
            return Err(DispatchError::Module(Error::NotTracked));
        }
        if rank.is_none() {
            return Err(DispatchError::Module(Error::Unranked));
        }
        let replaced: bool = self.member_evidence.contains_key(&who);
        self.member_evidence.insert(who, (wish, evidence));
        self.deposit_event(Event::Requested { who, wish });
        if replaced {
            Ok(Pays::Yes)
        } else {
            Ok(Pays::No)
        }
    }

    /// Provide evidence that a rank is deserved. The account that signs must be inducted and
    /// ranked.
    ///
    /// This is free as long as no evidence for the forthcoming judgement is already submitted.
    /// Evidence is cleared after an outcome (either demotion, promotion of approval).
    pub fn submit_evidence(
        &mut self,
        origin: Origin,
        wish: Wish,
        evidence: Evidence<T::EvidenceSize>,
    ) -> (done: DispatchResultWithPostInfo<T>)
        ensures
            match origin {
                Origin::Signed(who) => match old(self)@.submit_refusal(
                    origin,
                    old(self)@.rank_of(who),
                ) {
                    Some(error) => {
                        &&& done == Err::<Pays, DispatchError<T::MembersError>>(error)
                        &&& final(self)@ == old(self)@
                    },
                    None => {
                        &&& done == Ok::<Pays, DispatchError<T::MembersError>>(
                            if old(self)@.evidence.contains_key(who) {
                                Pays::Yes
                            } else {
                                Pays::No
                            },
                        )
                        &&& final(self)@ == old(self)@.submitted(who, wish, evidence)
                    },
                },
                _ => {
                    &&& done == Err::<Pays, DispatchError<T::MembersError>>(
                        DispatchError::BadOrigin,
                    )
                    &&& final(self)@ == old(self)@
                },
            },
            old(self)@.wf() ==> final(self)@.wf(),
    {
        match ensure_signed::<T::MembersError>(origin) {
            Ok(who) => {
                let rank: Option<Rank> = self.runtime.rank_of(who);
                self.submit_evidence_at(origin, rank, wish, evidence)
            },
            Err(error) => Err(error),
        }
    }

    /// Begins to track `who`, who is of the given rank in the collective.
    pub fn import_at(&mut self, who: AccountId, rank: Option<Rank>) -> (done: DispatchResult<T>)
        ensures
            match old(self)@.import_refusal(who, rank) {
                Some(error) => {
                    &&& done == Err::<(), DispatchError<T::MembersError>>(error)
                    &&& final(self)@ == old(self)@
                },
                None => {
                    &&& done == Ok::<(), DispatchError<T::MembersError>>(())
                    &&& final(self)@ == old(self)@.imported(who, rank->Some_0)
                },
            },
            old(self)@.wf() ==> final(self)@.wf(),
    {
        if self.status(who).is_some() {
            return Err(DispatchError::Module(Error::AlreadyInducted));
        }
        match rank {
            None => Err(DispatchError::Module(Error::Unranked)),
            Some(held) => {
                let now: BlockNumber = self.block_number;
                self.set_status(
                    who,
                    MemberStatus { is_active: true, last_promotion: 0, last_proof: now },
                );
                self.deposit_event(Event::Imported { who, rank: held });
                Ok(())
            },
        }
    }

    /// Import `who` into the fellowship.
    ///
    /// `who` must be a member of the collective but *not* already imported.
    pub fn do_import(&mut self, who: AccountId) -> (done: DispatchResult<T>)
        ensures
            match old(self)@.import_refusal(who, old(self)@.rank_of(who)) {
                Some(error) => {
                    &&& done == Err::<(), DispatchError<T::MembersError>>(error)
                    &&& final(self)@ == old(self)@
                },
                None => {
                    &&& done == Ok::<(), DispatchError<T::MembersError>>(())
                    &&& final(self)@ == old(self)@.imported(who, old(self)@.rank_of(who)->Some_0)
                },
            },
            old(self)@.wf() ==> final(self)@.wf(),
    {
        let rank: Option<Rank> = self.runtime.rank_of(who);
        self.import_at(who, rank)
    }

    /// Introduce the already-ranked individual of the collective who signs.
    ///
    /// The rank may still be zero. This resets `last_proof` to the current block and
    /// `last_promotion` will be set to zero, thereby delaying any automatic demotion but
    /// allowing immediate promotion.
    pub fn import(&mut self, origin: Origin) -> (done: DispatchResultWithPostInfo<T>)
        ensures
            match origin {
                Origin::Signed(who) => match old(self)@.import_refusal(
                    who,
                    old(self)@.rank_of(who),
                ) {
                    Some(error) => {
                        &&& done == Err::<Pays, DispatchError<T::MembersError>>(error)
                        &&& final(self)@ == old(self)@
                    },
                    None => {
                        &&& done == Ok::<Pays, DispatchError<T::MembersError>>(Pays::No)
                        &&& final(self)@ == old(self)@.imported(
                            who,
                            old(self)@.rank_of(who)->Some_0,
                        )
                    },
                },
                _ => {
                    &&& done == Err::<Pays, DispatchError<T::MembersError>>(
                        DispatchError::BadOrigin,
                    )
                    &&& final(self)@ == old(self)@
                },
            },
            old(self)@.wf() ==> final(self)@.wf(),
    {
        match ensure_signed::<T::MembersError>(origin) {
            Ok(who) => match self.do_import(who) {
                Ok(()) => Ok(Pays::No),
                Err(error) => Err(error),
            },
            Err(error) => Err(error),
        }
    }

    /// Introduce an already-ranked individual of the collective.
    ///
    /// The rank may still be zero. Can be called by anyone on any collective member - including
    /// the sender.
    pub fn import_member(&mut self, origin: Origin, who: AccountId) -> (done:
        DispatchResultWithPostInfo<T>)
        ensures
            if origin is Signed {
                match old(self)@.import_refusal(who, old(self)@.rank_of(who)) {
                    Some(error) => {
                        &&& done == Err::<Pays, DispatchError<T::MembersError>>(error)
                        &&& final(self)@ == old(self)@
                    },
                    None => {
                        &&& done == Ok::<Pays, DispatchError<T::MembersError>>(Pays::No)
                        &&& final(self)@ == old(self)@.imported(
                            who,
                            old(self)@.rank_of(who)->Some_0,
                        )
                    },
                }
            } else {
                &&& done == Err::<Pays, DispatchError<T::MembersError>>(DispatchError::BadOrigin)
                &&& final(self)@ == old(self)@
            },
            old(self)@.wf() ==> final(self)@.wf(),
    {
        match ensure_signed::<T::MembersError>(origin) {
            Ok(_) => match self.do_import(who) {
                Ok(()) => Ok(Pays::No),
                Err(error) => Err(error),
            },
            Err(error) => Err(error),
        }
    }

    /// Makes sure that a member of the collective who is not tracked yet is tracked.
    pub fn ensure_member(&mut self, who: AccountId)
        requires
            old(self)@.import_refusal(who, old(self)@.rank_of(who)) is None,
        ensures
            final(self)@ == old(self)@.imported(who, old(self)@.rank_of(who)->Some_0),
            old(self)@.wf() ==> final(self)@.wf(),
    {
        let _ = self.import(Origin::Signed(who));
    }

    /// What an account of a rank is paid: nothing outside of the ranks or where it is not tracked.
    pub fn get_salary(&self, rank: Rank, who: AccountId) -> (salary: Balance)
        requires
            self@.has_salary(rank, who),
        ensures
            salary == self@.salary(rank, who),
    {
        let index: usize = match Self::rank_to_index(rank) {
            Some(index) => index,
            None => {
                return 0;
            },
        };
        let member: MemberStatusOf = match self.status(who) {
            Some(member) => member,
            None => {
                return 0;
            },
        };
        if member.is_active {
            salaries(&self.params.active_salary)[index]
        } else {
            salaries(&self.params.passive_salary)[index]
        }
    }

    /// Handles that `new` took the place of `old` in the collective: moves the record and the
    /// evidence. Nothing happens where there is no record to move or one in the way.
    pub fn swapped(&mut self, old_who: AccountId, new_who: AccountId, _rank: Rank)
        ensures
            final(self)@ == (if old(self)@.can_swap(old_who, new_who) {
                old(self)@.swapped(old_who, new_who)
            } else {
                old(self)@
            }),
            old(self)@.wf() ==> final(self)@.wf(),
    {
        if old_who == new_who {
            return;
        }
        if self.status(new_who).is_some() {
            return;
        }
        match self.status(old_who) {
            None => {},
            Some(member) => {
                self.clear_status(old_who);
                self.set_status(new_who, member);
                if let Some(submitted) = self.member_evidence.remove(&old_who) {
                    self.member_evidence.insert(new_who, submitted);
                } else {
                    assert(self.member_evidence@ =~= old(self).member_evidence@);
                }
                self.deposit_event(Event::Swapped { who: old_who, new_who });
            },
        }
    }
}

/// Guard to ensure that the given origin is inducted into the fellowship with a given minimum
/// rank.
pub struct EnsureInducted<const MIN_RANK: u16>;

impl<const MIN_RANK: u16> EnsureInducted<MIN_RANK> {
    /// The account behind `origin` if it is inducted with the minimum rank, where `rank` tells
    /// the rank of the account that signed; otherwise the origin as it came.
    pub fn try_origin_at<T: Config>(
        pallet: &Pallet<T>,
        origin: Origin,
        rank: Option<Rank>,
    ) -> (passed: Result<AccountId, Origin>)
        ensures
            passed == (match origin {
                Origin::Signed(who) if pallet@.inducted_at(who, rank, MIN_RANK) => Ok(who),
                _ => Err(origin),
            }),
    {
        match origin {
            Origin::Signed(who) => match rank {
                Some(held) => {
                    if held >= MIN_RANK && pallet.status(who).is_some() {
                        Ok(who)
                    } else {
                        Err(origin)
                    }
                },
                None => Err(origin),
            },
            _ => Err(origin),
        }
    }

    /// The account behind `origin` if it is inducted with the minimum rank; otherwise the origin
    /// as it came.
    pub fn try_origin<T: Config>(pallet: &Pallet<T>, origin: Origin) -> (passed: Result<
        AccountId,
        Origin,
    >)
        ensures
            passed == (match origin {
                Origin::Signed(who) if pallet@.inducted_at(
                    who,
                    pallet@.rank_of(who),
                    MIN_RANK,
                ) => Ok(who),
                _ => Err(origin),
            }),
    {
        match origin {
            Origin::Signed(who) => Self::try_origin_at(pallet, origin, pallet.runtime.rank_of(who)),
            _ => Err(origin),
        }
    }

    /// An origin of an account that is brought up to the minimum rank in the collective.
    pub fn try_successful_origin<T: Config>(pallet: &mut Pallet<T>, who: AccountId) -> (origin:
        Result<Origin, ()>)
        ensures
            ({
                let (membership, done) = brought_up::<T>(old(pallet)@.membership, who, MIN_RANK);
                &&& final(pallet)@ == old(pallet)@.with_membership(membership)
                &&& origin == (match done {
                    Ok(()) => Ok::<Origin, ()>(Origin::Signed(who)),
                    Err(()) => Err(()),
                })
            }),
            origin is Ok ==> (final(pallet)@.rank_of(who) matches Some(rank) && rank >= MIN_RANK),
            old(pallet)@.wf() ==> final(pallet)@.wf(),
    {
        if pallet.runtime.rank_of(who).is_none() {
            if pallet.runtime.induct(who).is_err() {
                return Err(());
            }
        }
        let ghost raising = pallet@.membership;
        let mut rounds: u16 = 0;
        while rounds < MIN_RANK
            invariant
                rounds <= MIN_RANK,
                pallet@.rank_of(who) matches Some(rank) && rank >= rounds,
                pallet@ == old(pallet)@.with_membership(pallet@.membership),
                raised::<T>(pallet@.membership, who, MIN_RANK, (MIN_RANK - rounds) as nat)
                    == raised::<T>(raising, who, MIN_RANK, MIN_RANK as nat),
                brought_up::<T>(old(pallet)@.membership, who, MIN_RANK) == raised::<T>(
                    raising,
                    who,
                    MIN_RANK,
                    MIN_RANK as nat,
                ),
            decreases MIN_RANK - rounds,
        {
            match pallet.runtime.rank_of(who) {
                None => {
                    return Err(());
                },
                Some(rank) => {
                    if rank < MIN_RANK {
                        if pallet.runtime.promote(who).is_err() {
                            return Err(());
                        }
                    }
                },
            }
            rounds = rounds + 1;
        }
        Ok(Origin::Signed(who))
    }
}

} // verus!
