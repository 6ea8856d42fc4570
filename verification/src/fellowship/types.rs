//! The data of the fellowship, and what a runtime supplies to it.

use crate::fellowship::params::{BlockNumber, ParamsOf, ParamsView};
use frame_support::BoundedVec;
use vstd::prelude::*;

verus! {

/// The number that identifies an account.
pub type AccountId = u64;

/// A rank. Zero is the rank of a candidate.
pub type Rank = u16;

/// The desired outcome for which evidence is presented.
#[derive(Debug, Clone, Copy, PartialEq, Eq, Structural)]
pub enum Wish {
    /// Member wishes only to retain their current rank.
    Retention,
    /// Member wishes to be promoted.
    Promotion,
}

/// A piece of evidence to underpin a [`Wish`]: a blob of data without meaning, no longer than the
/// bound `Size` allows.
pub type Evidence<Size> = BoundedVec<u8, Size>;

/// The status of a single member.
#[derive(Debug, Clone, Copy, PartialEq, Eq, Structural)]
pub struct MemberStatus<Block> {
    /// Are they currently active?
    pub is_active: bool,
    /// The block number at which we last promoted them.
    pub last_promotion: Block,
    /// The last time a member was demoted, promoted or proved their rank.
    pub last_proof: Block,
}

/// The status of a member of this fellowship.
pub type MemberStatusOf = MemberStatus<BlockNumber>;

/// The highest rank as a bound on the lists of parameters.
#[derive(Debug, Clone, Copy, PartialEq, Eq, Structural)]
pub struct ConvertU16ToU32 {
    pub inner: u16,
}

impl ConvertU16ToU32 {
    /// The bound as a number of entries.
    pub fn get(&self) -> (bound: u32)
        ensures
            bound == self.inner,
    {
        self.inner as u32
    }
}

/// Where a call comes from.
#[derive(Debug, Clone, Copy, PartialEq, Eq, Structural)]
pub enum Origin {
    /// The system itself ordained the call: the highest privilege.
    Root,
    /// An account signed the call.
    Signed(AccountId),
    /// Anything else.
    Other,
}

/// An origin does not have the privilege that a call asks for.
#[derive(Debug, Clone, Copy, PartialEq, Eq, Structural)]
pub struct BadOrigin;

/// Whether a call is paid for.
#[derive(Debug, Clone, Copy, PartialEq, Eq, Structural)]
pub enum Pays {
    /// The caller pays a fee.
    Yes,
    /// The call is free.
    No,
}

/// Why a call is refused by the rules of the fellowship.
#[derive(Debug, Clone, Copy, PartialEq, Eq, Structural)]
pub enum Error {
    /// Member's rank is too low.
    Unranked,
    /// Member's rank is not zero.
    Ranked,
    /// Member's rank is not as expected - generally means that the rank provided to the call
    /// does not agree with the state of the system.
    UnexpectedRank,
    /// The given rank is invalid - this generally means it's not between 1 and the highest rank.
    InvalidRank,
    /// The origin does not have enough permission to do this operation.
    NoPermission,
    /// No work needs to be done at present for this member.
    NothingDoing,
    /// The candidate has already been inducted. This should never happen since it would
    /// require a candidate (rank 0) to already be tracked.
    AlreadyInducted,
    /// The candidate has not been inducted, so cannot be offboarded.
    NotTracked,
    /// Operation cannot be done yet since not enough time has passed.
    TooSoon,
}

/// Why a call fails. `E` stands for a failure of the membership organisation.
#[derive(Debug, Clone, Copy, PartialEq, Eq)]
pub enum DispatchError<E> {
    /// The origin may not make the call.
    BadOrigin,
    /// The rules of the fellowship refuse the call.
    Module(Error),
    /// The membership organisation refuses the change of a rank.
    Members(E),
}

/// What has happened. `P` stands for parameters, `Size` bounds the evidence.
#[verifier::reject_recursive_types(Size)]
pub enum Event<P, Size> {
    /// Parameters have changed.
    ParamsChanged { params: P },
    /// Member activity flag has been set.
    ActiveChanged { who: AccountId, is_active: bool },
    /// Member has begun being tracked.
    Inducted { who: AccountId },
    /// Member has been removed from being tracked, having no rank any more.
    Offboarded { who: AccountId },
    /// Member has been promoted to the given rank.
    Promoted { who: AccountId, to_rank: Rank },
    /// Member has been demoted to the given rank and is still ranked: zero is a candidate's rank.
    Demoted { who: AccountId, to_rank: Rank },
    /// Member has been proven at their current rank, postponing auto-demotion.
    Proven { who: AccountId, at_rank: Rank },
    /// Member has stated evidence of their efforts their request for rank.
    Requested { who: AccountId, wish: Wish },
    /// Some submitted evidence was judged and removed. There may or may not have been a change
    /// to the rank, but in any case, `last_proof` is reset.
    EvidenceJudged {
        /// The member/candidate.
        who: AccountId,
        /// The desired outcome for which the evidence was presented.
        wish: Wish,
        /// The evidence of efforts.
        evidence: Evidence<Size>,
        /// The old rank, prior to this change.
        old_rank: Rank,
        /// New rank. If `None` then candidate record was removed entirely.
        new_rank: Option<Rank>,
    },
    /// Pre-ranked account has been inducted at their current rank.
    Imported { who: AccountId, rank: Rank },
    /// A member had its account swapped.
    Swapped { who: AccountId, new_who: AccountId },
}

/// An event as the fellowship deposits it.
pub type EventOf<Size> = Event<ParamsOf, Size>;

impl<Size> View for Event<ParamsOf, Size> {
    type V = Event<ParamsView, Size>;

    open spec fn view(&self) -> Event<ParamsView, Size> {
        match *self {
            Event::ParamsChanged { params } => Event::ParamsChanged { params: params@ },
            Event::ActiveChanged { who, is_active } => Event::ActiveChanged { who, is_active },
            Event::Inducted { who } => Event::Inducted { who },
            Event::Offboarded { who } => Event::Offboarded { who },
            Event::Promoted { who, to_rank } => Event::Promoted { who, to_rank },
            Event::Demoted { who, to_rank } => Event::Demoted { who, to_rank },
            Event::Proven { who, at_rank } => Event::Proven { who, at_rank },
            Event::Requested { who, wish } => Event::Requested { who, wish },
            Event::EvidenceJudged {
                who,
                wish,
                evidence,
                old_rank,
                new_rank,
            } => Event::EvidenceJudged { who, wish, evidence, old_rank, new_rank },
            Event::Imported { who, rank } => Event::Imported { who, rank },
            Event::Swapped { who, new_who } => Event::Swapped { who, new_who },
        }
    }
}

/// What a runtime supplies to the fellowship: its highest rank, the bound on evidence, and the
/// membership organisation that holds the ranks.
///
/// The outcome of a change of rank is a function of the membership before it, which the `spec_`
/// functions name; whether it succeeds is for the organisation to say. Contracts speak of the
/// membership that a runtime stands for, not of how the runtime keeps it.
pub trait Config: Sized {
    /// The bound on the size of evidence.
    type EvidenceSize;

    /// Why the membership organisation refuses a change.
    type MembersError;

    /// The membership as a value: who is of which rank, and what decides on changes.
    type Membership;

    /// The membership that this runtime stands for.
    spec fn membership(self) -> Self::Membership;

    /// The highest possible rank.
    spec fn spec_max_rank() -> Rank;

    /// The lowest rank of the membership organisation.
    spec fn spec_min_rank() -> Rank;

    /// The rank of an account, if it is a member.
    spec fn spec_rank_of(membership: Self::Membership, who: AccountId) -> Option<Rank>;

    /// The membership after an attempt to add an account, and what came of it.
    spec fn spec_induct(membership: Self::Membership, who: AccountId) -> (
        Self::Membership,
        Result<(), Self::MembersError>,
    );

    /// The membership after an attempt to promote an account, and what came of it.
    spec fn spec_promote(membership: Self::Membership, who: AccountId) -> (
        Self::Membership,
        Result<(), Self::MembersError>,
    );

    /// The membership after an attempt to demote an account, and what came of it.
    spec fn spec_demote(membership: Self::Membership, who: AccountId) -> (
        Self::Membership,
        Result<(), Self::MembersError>,
    );

    /// The highest possible rank.
    fn max_rank() -> (rank: Rank)
        ensures
            rank == Self::spec_max_rank(),
    ;

    /// The rank of an account, or `None` if it is not a member.
    fn rank_of(&self, who: AccountId) -> (rank: Option<Rank>)
        ensures
            rank == Self::spec_rank_of(self.membership(), who),
    ;

    /// Adds a member at the lowest rank.
    fn induct(&mut self, who: AccountId) -> (done: Result<(), Self::MembersError>)
        ensures
            (final(self).membership(), done) == Self::spec_induct(old(self).membership(), who),
            done is Ok ==> Self::spec_rank_of(final(self).membership(), who) == Some(
                Self::spec_min_rank(),
            ),
    ;

    /// Promotes a member to the next higher rank.
    fn promote(&mut self, who: AccountId) -> (done: Result<(), Self::MembersError>)
        ensures
            (final(self).membership(), done) == Self::spec_promote(old(self).membership(), who),
            done is Ok ==> {
                &&& Self::spec_rank_of(old(self).membership(), who) matches Some(before)
                &&& Self::spec_rank_of(final(self).membership(), who) matches Some(after)
                &&& after == before + 1
            },
    ;

    /// Demotes a member to the next lower rank; demoting beyond the lowest rank removes the
    /// member entirely.
    fn demote(&mut self, who: AccountId) -> (done: Result<(), Self::MembersError>)
        ensures
            (final(self).membership(), done) == Self::spec_demote(old(self).membership(), who),
            done is Ok ==> {
                &&& Self::spec_rank_of(old(self).membership(), who) matches Some(before)
                &&& if before <= Self::spec_min_rank() {
                    Self::spec_rank_of(final(self).membership(), who) is None
                } else {
                    Self::spec_rank_of(final(self).membership(), who) == Some((before - 1) as Rank)
                }
            },
    ;
}

} // verus!
