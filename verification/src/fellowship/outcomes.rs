//! What each call of the fellowship comes to: to whom it is granted, which error it is refused
//! with and when, and what it does to every part of the state.

use crate::fellowship::model::{
    brought_up, not_permitted, not_root, raised, rank_index, saturated, unsigned, State,
};
use crate::fellowship::pallet::Pallet;
use crate::fellowship::params::{
    partial_period_list, partial_salary_list, partially_updated, period_list, salary_list,
    BlockNumber, ParamsOf, ParamsView, PartialParamsOf, PartialParamsView,
};
use crate::fellowship::types::{
    AccountId, Config, DispatchError, Error, Event, EventOf, Evidence, MemberStatusOf,
    Origin, Rank, Wish,
};
use vstd::prelude::*;

verus! {

/// Whether a privileged origin reaches a rank, or is root.
pub open spec fn reaches(tried: Result<Rank, Origin>, rank: Rank) -> bool {
    match tried {
        Ok(highest) => rank <= highest,
        Err(origin) => origin == Origin::Root,
    }
}

/// A refusal by the rules of the fellowship.
pub open spec fn module_error<E>(error: Error) -> Option<DispatchError<E>> {
    Some(DispatchError::Module(error))
}

/// A refusal for want of a privilege.
pub open spec fn bad_origin<E>() -> Option<DispatchError<E>> {
    Some(DispatchError::BadOrigin)
}

/// Whether a period that began in one block is over in another: never where it is zero, and in the
/// last block there is in any case.
pub open spec fn is_over(began: BlockNumber, period: BlockNumber, now: BlockNumber) -> bool {
    period != 0 && (began + period <= now || now == u64::MAX)
}

/// Whether all but the records of one account and the events is as it was.
pub open spec fn keeps_the_rest<T: Config>(
    s: State<T>,
    after: State<T>,
    who: AccountId,
) -> bool {
    &&& after.membership == s.membership
    &&& after.now == s.now
    &&& after.params == s.params
    &&& forall|other: AccountId| #![trigger after.member.contains_key(other)]
        #![trigger after.member[other]]
        other != who ==> {
            &&& after.member.contains_key(other) == s.member.contains_key(other)
            &&& after.member[other] == s.member[other]
        }
    &&& forall|other: AccountId| #![trigger after.evidence.contains_key(other)]
        #![trigger after.evidence[other]]
        other != who ==> {
            &&& after.evidence.contains_key(other) == s.evidence.contains_key(other)
            &&& after.evidence[other] == s.evidence[other]
        }
}

/// Whether the evidence of an account is as it was.
pub open spec fn keeps_evidence<T: Config>(s: State<T>, after: State<T>, who: AccountId) -> bool {
    &&& after.evidence.contains_key(who) == s.evidence.contains_key(who)
    &&& after.evidence[who] == s.evidence[who]
}

/// Whether exactly these events were added, the judgement of pending evidence before them.
pub open spec fn reports_judgement<T: Config>(
    s: State<T>,
    after: State<T>,
    who: AccountId,
    old_rank: Rank,
    new_rank: Option<Rank>,
    event: Event<ParamsView, T::EvidenceSize>,
) -> bool {
    if s.evidence.contains_key(who) {
        after.events == s.events.push(
            Event::EvidenceJudged {
                who,
                wish: s.evidence[who].0,
                evidence: s.evidence[who].1,
                old_rank,
                new_rank,
            },
        ).push(event)
    } else {
        after.events == s.events.push(event)
    }
}

/// The sum of two block numbers is never less than either, is exact where it fits, and is the last
/// block number where it does not.
pub proof fn law_sums_of_blocks_saturate(a: BlockNumber, b: BlockNumber)
    ensures
        saturated(a, b) >= a,
        saturated(a, b) >= b,
        a + b <= u64::MAX ==> saturated(a, b) == a + b,
        a + b > u64::MAX ==> saturated(a, b) == u64::MAX,
{
}

/// The entry of a rank is the one before its number, and there is one for the ranks from one to the
/// highest alone.
pub proof fn law_entries_stand_in_order_of_rank(rank: Rank, max_rank: Rank)
    ensures
        1 <= rank <= max_rank <==> rank_index(rank, max_rank) is Some,
        rank_index(rank, max_rank) matches Some(index) ==> index + 1 == rank,
{
}

/// Only signed origins pass as signed, only root as root, and a privilege holds up to its rank.
pub proof fn law_origins_are_told_apart<E>(
    origin: Origin,
    tried: Result<Rank, Origin>,
    rank: Rank,
)
    ensures
        unsigned::<E>(origin) is None <==> origin is Signed,
        origin !is Signed ==> unsigned::<E>(origin) == bad_origin::<E>(),
        not_root::<E>(origin) is None <==> origin is Root,
        origin !is Root ==> not_root::<E>(origin) == bad_origin::<E>(),
        not_permitted::<E>(tried, rank) is None <==> reaches(tried, rank),
        not_permitted::<E>(tried, rank) == module_error::<E>(Error::NoPermission) <==> (
        tried matches Ok(highest) && highest < rank),
        not_permitted::<E>(tried, rank) == bad_origin::<E>() <==> (tried matches Err(origin)
            && origin !is Root),
{
}

/// A bump is granted to any signer exactly where the account is tracked, its rank is valid and the
/// period of that rank has passed since the last proof; each refusal has its own reason.
pub proof fn law_bump_is_granted_to_the_overdue<T: Config>(
    s: State<T>,
    origin: Origin,
    who: AccountId,
    rank: Option<Rank>,
)
    ensures
        ({
            let refusal = s.bump_refusal(origin, who, rank);
            let signed = origin is Signed;
            let known = s.member.contains_key(who);
            let valid = rank matches Some(held) && held <= T::spec_max_rank();
            let period = if rank == Some(0u16) {
                s.params.offboard_timeout
            } else {
                s.params.demotion_period[rank->Some_0 - 1]
            };
            let over = is_over(s.member[who].last_proof, period, s.now);
            &&& refusal is None <==> signed && known && valid && over
            &&& refusal == bad_origin::<T::MembersError>() <==> !signed
            &&& refusal == module_error::<T::MembersError>(Error::NotTracked) <==> signed
                && !known
            &&& refusal == module_error::<T::MembersError>(Error::Unranked) <==> signed && known
                && rank is None
            &&& refusal == module_error::<T::MembersError>(Error::InvalidRank) <==> signed
                && known && rank is Some && !valid
            &&& refusal == module_error::<T::MembersError>(Error::NothingDoing) <==> signed
                && known && valid && !over
        }),
{
}

/// A demotion sets the last proof to the current block and nothing else of the status, or ends the
/// record where no rank is left; it settles the evidence and reports the new rank, or that the
/// account was offboarded.
pub proof fn law_demotion_resets_the_proof_alone<T: Config>(
    s: State<T>,
    who: AccountId,
    old_rank: Rank,
    to_rank: Rank,
)
    ensures
        ({
            let after = s.demoted(who, old_rank, Some(to_rank));
            &&& keeps_the_rest(s, after, who)
            &&& after.member.contains_key(who)
            &&& after.member[who].is_active == s.member[who].is_active
            &&& after.member[who].last_promotion == s.member[who].last_promotion
            &&& after.member[who].last_proof == s.now
            &&& !after.evidence.contains_key(who)
            &&& reports_judgement(
                s,
                after,
                who,
                old_rank,
                Some(to_rank),
                Event::Demoted { who, to_rank },
            )
        }),
        ({
            let after = s.demoted(who, old_rank, None);
            &&& keeps_the_rest(s, after, who)
            &&& !after.member.contains_key(who)
            &&& !after.evidence.contains_key(who)
            &&& reports_judgement(s, after, who, old_rank, None, Event::Offboarded { who })
        }),
{
}

/// The activity of a tracked member of non-zero rank can be set, and of nobody else.
pub proof fn law_activity_is_set_for_members<T: Config>(
    s: State<T>,
    who: AccountId,
    rank: Option<Rank>,
)
    ensures
        ({
            let refusal = s.set_active_refusal(who, rank);
            let member = rank matches Some(held) && held > 0;
            let known = s.member.contains_key(who);
            &&& refusal is None <==> member && known
            &&& refusal == module_error::<T::MembersError>(Error::Unranked) <==> !member
            &&& refusal == module_error::<T::MembersError>(Error::NotTracked) <==> member
                && !known
        }),
{
}

/// Setting the activity changes the activity alone: the clocks and the evidence stay as they were.
pub proof fn law_activity_changes_alone<T: Config>(s: State<T>, who: AccountId, is_active: bool)
    ensures
        ({
            let after = s.active_set(who, is_active);
            &&& keeps_the_rest(s, after, who)
            &&& keeps_evidence(s, after, who)
            &&& after.member.contains_key(who)
            &&& after.member[who].is_active == is_active
            &&& after.member[who].last_promotion == s.member[who].last_promotion
            &&& after.member[who].last_proof == s.member[who].last_proof
            &&& after.events == s.events.push(Event::ActiveChanged { who, is_active })
        }),
{
}

/// Setting the activity moves no clock: whether and when a member may be bumped, approved or
/// promoted is the same before and after it, in every block.
pub proof fn law_activity_moves_no_clock<T: Config>(
    s: State<T>,
    who: AccountId,
    is_active: bool,
    later: BlockNumber,
    origin: Origin,
    tried: Result<Rank, Origin>,
    rank: Option<Rank>,
    to_rank: Rank,
)
    requires
        s.member.contains_key(who),
    ensures
        ({
            let before = State { now: later, ..s };
            let after = State { now: later, ..s.active_set(who, is_active) };
            &&& after.bump_refusal(origin, who, rank) == before.bump_refusal(origin, who, rank)
            &&& after.promote_refusal(tried, who, to_rank, rank) == before.promote_refusal(
                tried,
                who,
                to_rank,
                rank,
            )
            &&& after.promote_fast_refusal(tried, who, to_rank, rank)
                == before.promote_fast_refusal(tried, who, to_rank, rank)
            &&& after.approve_refusal(tried, who, to_rank, rank) == before.approve_refusal(
                tried,
                who,
                to_rank,
                rank,
            )
        }),
{
}

/// An approval is granted where the origin reaches the rank, which is not zero and is that of the
/// tracked member; each refusal has its own reason.
pub proof fn law_approval_is_granted_at_the_rank_held<T: Config>(
    s: State<T>,
    tried: Result<Rank, Origin>,
    who: AccountId,
    at_rank: Rank,
    rank: Option<Rank>,
)
    ensures
        ({
            let refusal = s.approve_refusal(tried, who, at_rank, rank);
            let reached = reaches(tried, at_rank);
            let known = s.member.contains_key(who);
            &&& refusal is None <==> reached && at_rank > 0 && rank == Some(at_rank) && known
            &&& refusal == bad_origin::<T::MembersError>() <==> (tried matches Err(origin)
                && origin !is Root)
            &&& refusal == module_error::<T::MembersError>(Error::NoPermission) <==> (
            tried matches Ok(highest) && highest < at_rank)
            &&& refusal == module_error::<T::MembersError>(Error::InvalidRank) <==> reached
                && at_rank == 0
            &&& refusal == module_error::<T::MembersError>(Error::Unranked) <==> reached && at_rank
                > 0 && rank is None
            &&& refusal == module_error::<T::MembersError>(Error::UnexpectedRank) <==> reached
                && at_rank > 0 && (rank matches Some(held) && held != at_rank)
            &&& refusal == module_error::<T::MembersError>(Error::NotTracked) <==> reached
                && at_rank > 0 && rank == Some(at_rank) && !known
        }),
{
}

/// An approval sets the last proof to the current block and nothing else of the status, settles
/// the evidence at the rank held, and is reported.
pub proof fn law_approval_resets_the_proof_alone<T: Config>(
    s: State<T>,
    who: AccountId,
    at_rank: Rank,
)
    ensures
        ({
            let after = s.approved(who, at_rank);
            &&& keeps_the_rest(s, after, who)
            &&& after.member.contains_key(who)
            &&& after.member[who].is_active == s.member[who].is_active
            &&& after.member[who].last_promotion == s.member[who].last_promotion
            &&& after.member[who].last_proof == s.now
            &&& !after.evidence.contains_key(who)
            &&& reports_judgement(
                s,
                after,
                who,
                at_rank,
                Some(at_rank),
                Event::Proven { who, at_rank },
            )
        }),
{
}

/// An induction is granted to the privileged and root, of accounts that are neither tracked nor
/// ranked; each refusal has its own reason.
pub proof fn law_induction_is_granted_to_newcomers<T: Config>(
    s: State<T>,
    tried: Result<(), Origin>,
    who: AccountId,
    rank: Option<Rank>,
)
    ensures
        ({
            let refusal = s.induct_refusal(tried, who, rank);
            let privileged = tried is Ok || (tried matches Err(origin) && origin is Root);
            let known = s.member.contains_key(who);
            &&& refusal is None <==> privileged && !known && rank is None
            &&& refusal == bad_origin::<T::MembersError>() <==> !privileged
            &&& refusal == module_error::<T::MembersError>(Error::AlreadyInducted) <==> privileged
                && known
            &&& refusal == module_error::<T::MembersError>(Error::Ranked) <==> privileged
                && !known && rank is Some
        }),
{
}

/// A new candidate is active and starts both clocks in the current block; one who is imported
/// starts the clock of the proof there, and that of the promotion in block zero.
pub proof fn law_entrants_start_their_clocks<T: Config>(s: State<T>, who: AccountId, rank: Rank)
    ensures
        ({
            let after = s.inducted(who);
            &&& keeps_the_rest(s, after, who)
            &&& keeps_evidence(s, after, who)
            &&& after.member.contains_key(who)
            &&& after.member[who].is_active
            &&& after.member[who].last_promotion == s.now
            &&& after.member[who].last_proof == s.now
            &&& after.events == s.events.push(Event::Inducted { who })
        }),
        ({
            let after = s.imported(who, rank);
            &&& keeps_the_rest(s, after, who)
            &&& keeps_evidence(s, after, who)
            &&& after.member.contains_key(who)
            &&& after.member[who].is_active
            &&& after.member[who].last_promotion == 0
            &&& after.member[who].last_proof == s.now
            &&& after.events == s.events.push(Event::Imported { who, rank })
        }),
{
}

/// A promotion is granted where the origin reaches the rank, which is the next one of a tracked
/// account and no higher than the highest, once the period of that rank has passed since the last
/// promotion; each refusal has its own reason.
pub proof fn law_promotion_is_granted_to_the_next_rank<T: Config>(
    s: State<T>,
    tried: Result<Rank, Origin>,
    who: AccountId,
    to_rank: Rank,
    rank: Option<Rank>,
)
    ensures
        ({
            let refusal = s.promote_refusal(tried, who, to_rank, rank);
            let reached = reaches(tried, to_rank);
            let next = rank matches Some(held) && to_rank - held == 1;
            let known = s.member.contains_key(who);
            let valid = to_rank <= T::spec_max_rank();
            let period = s.params.min_promotion_period[to_rank - 1];
            let over = s.member[who].last_promotion + period <= s.now || s.now == u64::MAX;
            &&& refusal is None <==> reached && next && known && valid && over
            &&& refusal == bad_origin::<T::MembersError>() <==> (tried matches Err(origin)
                && origin !is Root)
            &&& refusal == module_error::<T::MembersError>(Error::NoPermission) <==> (
            tried matches Ok(highest) && highest < to_rank)
            &&& refusal == module_error::<T::MembersError>(Error::Unranked) <==> reached
                && rank is None
            &&& refusal == module_error::<T::MembersError>(Error::UnexpectedRank) <==> reached
                && rank is Some && !next
            &&& refusal == module_error::<T::MembersError>(Error::NotTracked) <==> reached && next
                && !known
            &&& refusal == module_error::<T::MembersError>(Error::InvalidRank) <==> reached && next
                && known && !valid
            &&& refusal == module_error::<T::MembersError>(Error::TooSoon) <==> reached && next
                && known && valid && !over
        }),
{
}

/// A promotion sets both clocks to the current block, keeps the activity, settles the evidence
/// with the old and the new rank, and is reported.
pub proof fn law_promotion_sets_both_clocks<T: Config>(
    s: State<T>,
    who: AccountId,
    from_rank: Rank,
    to_rank: Rank,
)
    ensures
        ({
            let after = s.promoted(who, s.promoted_status(who), from_rank, to_rank);
            &&& keeps_the_rest(s, after, who)
            &&& after.member.contains_key(who)
            &&& after.member[who].is_active == s.member[who].is_active
            &&& after.member[who].last_promotion == s.now
            &&& after.member[who].last_proof == s.now
            &&& !after.evidence.contains_key(who)
            &&& reports_judgement(
                s,
                after,
                who,
                from_rank,
                Some(to_rank),
                Event::Promoted { who, to_rank },
            )
        }),
{
}

/// A fast promotion is granted where the origin reaches the rank, which is higher than that of the
/// tracked account, by however little, and no higher than the highest, whatever the clocks say;
/// each refusal has its own reason.
pub proof fn law_fast_promotion_is_granted_to_any_higher_rank<T: Config>(
    s: State<T>,
    tried: Result<Rank, Origin>,
    who: AccountId,
    to_rank: Rank,
    rank: Option<Rank>,
)
    ensures
        ({
            let refusal = s.promote_fast_refusal(tried, who, to_rank, rank);
            let reached = reaches(tried, to_rank);
            let valid = to_rank <= T::spec_max_rank();
            let higher = rank matches Some(held) && held < to_rank;
            let known = s.member.contains_key(who);
            &&& refusal is None <==> reached && valid && higher && known
            &&& refusal == bad_origin::<T::MembersError>() <==> (tried matches Err(origin)
                && origin !is Root)
            &&& refusal == module_error::<T::MembersError>(Error::NoPermission) <==> (
            tried matches Ok(highest) && highest < to_rank)
            &&& refusal == module_error::<T::MembersError>(Error::InvalidRank) <==> reached
                && !valid
            &&& refusal == module_error::<T::MembersError>(Error::Unranked) <==> reached && valid
                && rank is None
            &&& refusal == module_error::<T::MembersError>(Error::UnexpectedRank) <==> reached
                && valid && (rank matches Some(held) && to_rank <= held)
            &&& refusal == module_error::<T::MembersError>(Error::NotTracked) <==> reached && valid
                && higher && !known
        }),
{
}

/// Whoever may be promoted may be fast promoted to the same rank.
pub proof fn law_promotion_is_no_wider_than_fast_promotion<T: Config>(
    s: State<T>,
    tried: Result<Rank, Origin>,
    who: AccountId,
    to_rank: Rank,
    rank: Option<Rank>,
)
    ensures
        s.promote_refusal(tried, who, to_rank, rank) is None ==> s.promote_fast_refusal(
            tried,
            who,
            to_rank,
            rank,
        ) is None,
{
}

/// A fast promotion by one rank is a promotion; it ends with the failure of the membership
/// organisation, if that fails, and then has changed nothing but what the organisation changed.
pub proof fn law_fast_promotion_by_one_is_a_promotion<T: Config>(
    s: State<T>,
    who: AccountId,
    status: MemberStatusOf,
    from_rank: Rank,
    to_rank: Rank,
)
    requires
        from_rank + 1 == to_rank,
    ensures
        ({
            let (membership, done) = T::spec_promote(s.membership, who);
            let (after, outcome) = s.fast_promoted(who, status, from_rank, to_rank);
            match done {
                Ok(()) => outcome is Ok && after == (State { membership, ..s }).promoted(
                    who,
                    status,
                    from_rank,
                    to_rank,
                ),
                Err(error) => outcome == Err::<(), DispatchError<T::MembersError>>(
                    DispatchError::Members(error),
                ) && after == (State { membership, ..s }),
            }
        }),
{
    reveal_with_fuel(State::fast_promoted, 2);
}

/// A fast promotion is the fast promotion to any rank on the way, followed by that to the rest of
/// it; it ends on the way where the first part fails.
pub proof fn law_fast_promotion_goes_by_way_of_every_rank<T: Config>(
    s: State<T>,
    who: AccountId,
    status: MemberStatusOf,
    from_rank: Rank,
    mid_rank: Rank,
    to_rank: Rank,
)
    requires
        from_rank <= mid_rank <= to_rank,
    ensures
        ({
            let (middle, reached) = s.fast_promoted(who, status, from_rank, mid_rank);
            s.fast_promoted(who, status, from_rank, to_rank) == match reached {
                Ok(()) => middle.fast_promoted(who, status, mid_rank, to_rank),
                Err(error) => (middle, Err(error)),
            }
        }),
    decreases mid_rank - from_rank,
{
    if from_rank < mid_rank {
        let (membership, done) = T::spec_promote(s.membership, who);
        if done is Ok {
            let next = (from_rank + 1) as Rank;
            law_fast_promotion_goes_by_way_of_every_rank(
                (State { membership, ..s }).promoted(who, status, from_rank, next),
                who,
                status,
                next,
                mid_rank,
                to_rank,
            );
        }
    }
}

/// An offboarding is granted to any signer, of accounts that are tracked but not ranked; each
/// refusal has its own reason.
pub proof fn law_offboarding_is_granted_of_the_unranked<T: Config>(
    s: State<T>,
    origin: Origin,
    who: AccountId,
    rank: Option<Rank>,
)
    ensures
        ({
            let refusal = s.offboard_refusal(origin, who, rank);
            let signed = origin is Signed;
            let known = s.member.contains_key(who);
            &&& refusal is None <==> signed && rank is None && known
            &&& refusal == bad_origin::<T::MembersError>() <==> !signed
            &&& refusal == module_error::<T::MembersError>(Error::Ranked) <==> signed
                && rank is Some
            &&& refusal == module_error::<T::MembersError>(Error::NotTracked) <==> signed
                && rank is None && !known
        }),
{
}

/// An offboarding removes the record and the evidence without a judgement.
pub proof fn law_offboarding_removes_everything<T: Config>(s: State<T>, who: AccountId)
    ensures
        ({
            let after = s.offboarded(who);
            &&& keeps_the_rest(s, after, who)
            &&& !after.member.contains_key(who)
            &&& !after.evidence.contains_key(who)
            &&& after.events == s.events.push(Event::Offboarded { who })
        }),
{
}

/// Evidence is taken from signers who are tracked and ranked; each refusal has its own reason.
pub proof fn law_evidence_is_taken_from_the_tracked_and_ranked<T: Config>(
    s: State<T>,
    origin: Origin,
    rank: Option<Rank>,
)
    ensures
        ({
            let refusal = s.submit_refusal(origin, rank);
            let known = origin matches Origin::Signed(who) && s.member.contains_key(who);
            &&& refusal is None <==> known && rank is Some
            &&& refusal == bad_origin::<T::MembersError>() <==> origin !is Signed
            &&& refusal == module_error::<T::MembersError>(Error::NotTracked) <==> origin is Signed
                && !known
            &&& refusal == module_error::<T::MembersError>(Error::Unranked) <==> known
                && rank is None
        }),
{
}

/// Submitted evidence replaces what was there, and leaves the status as it was.
pub proof fn law_submission_keeps_the_evidence<T: Config>(
    s: State<T>,
    who: AccountId,
    wish: Wish,
    evidence: Evidence<T::EvidenceSize>,
)
    ensures
        ({
            let after = s.submitted(who, wish, evidence);
            &&& keeps_the_rest(s, after, who)
            &&& after.member.contains_key(who) == s.member.contains_key(who)
            &&& after.member[who] == s.member[who]
            &&& after.evidence.contains_key(who)
            &&& after.evidence[who].0 == wish
            &&& after.evidence[who].1 == evidence
            &&& after.events == s.events.push(Event::Requested { who, wish })
        }),
{
}

/// An import is granted of accounts that are ranked but not tracked; each refusal has its own
/// reason.
pub proof fn law_import_is_granted_of_the_ranked<T: Config>(
    s: State<T>,
    who: AccountId,
    rank: Option<Rank>,
)
    ensures
        ({
            let refusal = s.import_refusal(who, rank);
            let known = s.member.contains_key(who);
            &&& refusal is None <==> !known && rank is Some
            &&& refusal == module_error::<T::MembersError>(Error::AlreadyInducted) <==> known
            &&& refusal == module_error::<T::MembersError>(Error::Unranked) <==> !known
                && rank is None
        }),
{
}

/// A judgement removes the evidence and reports it, if there is any, and does nothing else.
pub proof fn law_judgement_settles_the_evidence<T: Config>(
    s: State<T>,
    who: AccountId,
    old_rank: Rank,
    new_rank: Option<Rank>,
)
    ensures
        ({
            let after = s.judged(who, old_rank, new_rank);
            &&& keeps_the_rest(s, after, who)
            &&& after.member == s.member
            &&& !after.evidence.contains_key(who)
            &&& after.events.len() == s.events.len() + if s.evidence.contains_key(who) {
                1nat
            } else {
                0
            }
            &&& s.events.is_prefix_of(after.events)
            &&& s.evidence.contains_key(who) ==> after.events.last() == (Event::<
                ParamsView,
                T::EvidenceSize,
            >::EvidenceJudged {
                who,
                wish: s.evidence[who].0,
                evidence: s.evidence[who].1,
                old_rank,
                new_rank,
            })
        }),
{
}

/// New parameters replace all the old ones, are reported, and change nothing else.
pub proof fn law_new_parameters_replace_the_old<T: Config>(s: State<T>, params: ParamsView)
    ensures
        ({
            let after = s.with_params(params);
            &&& after.params == params
            &&& after.member == s.member
            &&& after.evidence == s.evidence
            &&& after.now == s.now
            &&& after.membership == s.membership
            &&& after.events == s.events.push(Event::ParamsChanged { params })
        }),
{
}

/// Whether a list is the old one with the entries replaced for which the update has a value.
pub open spec fn is_update_of<S>(old: Seq<S>, update: Seq<Option<S>>, new: Seq<S>) -> bool {
    &&& new.len() == old.len()
    &&& forall|i: int|
        #![trigger new[i]]
        #![trigger old[i]]
        0 <= i < old.len() ==> if i < update.len() && update[i] is Some {
            Some(new[i]) == update[i]
        } else {
            new[i] == old[i]
        }
}

/// A partial update takes each of the four lists, and the timeout, from the update where it has a
/// value and leaves the rest; what comes of it is reported, and nothing else changes.
pub proof fn law_partial_update_takes_every_value<T: Config>(s: State<T>, update: PartialParamsView)
    ensures
        ({
            let after = s.with_partial_params(update);
            let new = after.params;
            &&& is_update_of(s.params.active_salary, update.active_salary, new.active_salary)
            &&& is_update_of(s.params.passive_salary, update.passive_salary, new.passive_salary)
            &&& is_update_of(s.params.demotion_period, update.demotion_period, new.demotion_period)
            &&& is_update_of(
                s.params.min_promotion_period,
                update.min_promotion_period,
                new.min_promotion_period,
            )
            &&& update.offboard_timeout matches Some(timeout) ==> new.offboard_timeout == timeout
            &&& update.offboard_timeout is None ==> new.offboard_timeout
                == s.params.offboard_timeout
            &&& s.params.updated(update) == new
            &&& after.member == s.member
            &&& after.evidence == s.evidence
            &&& after.now == s.now
            &&& after.membership == s.membership
            &&& after.events == s.events.push(Event::ParamsChanged { params: new })
        }),
{
}

/// A partial update of any list has a value for exactly the entries that it replaces.
pub proof fn law_partial_update_of_a_list<S>(old: Seq<S>, update: Seq<Option<S>>)
    ensures
        is_update_of(old, update, partially_updated(old, update)),
{
}

/// The salary of a tracked account is the entry of its rank in the list of its activity, and
/// nothing is paid outside of the ranks or to the untracked.
pub proof fn law_salary_is_that_of_rank_and_activity<T: Config>(
    s: State<T>,
    rank: Rank,
    who: AccountId,
)
    ensures
        ({
            let paid = s.member.contains_key(who) && 1 <= rank <= T::spec_max_rank();
            &&& paid && s.member[who].is_active ==> s.salary(rank, who)
                == s.params.active_salary[rank - 1]
            &&& paid && !s.member[who].is_active ==> s.salary(rank, who)
                == s.params.passive_salary[rank - 1]
            &&& !paid ==> s.salary(rank, who) == 0
        }),
{
}

/// The parameters have what a call looks up exactly where the list goes as far as the rank.
pub proof fn law_lists_reach_the_ranks_looked_up<T: Config>(
    s: State<T>,
    rank: Rank,
    who: AccountId,
)
    ensures
        s.has_demotion_period(None),
        s.has_demotion_period(Some(rank)) <==> rank <= s.params.demotion_period.len() || rank
            > T::spec_max_rank(),
        s.has_promotion_period(rank) <==> rank <= s.params.min_promotion_period.len() || rank
            > T::spec_max_rank(),
        s.member.contains_key(who) && s.member[who].is_active ==> (s.has_salary(rank, who) <==> rank
            <= s.params.active_salary.len() || rank > T::spec_max_rank()),
        s.member.contains_key(who) && !s.member[who].is_active ==> (s.has_salary(rank, who)
            <==> rank <= s.params.passive_salary.len() || rank > T::spec_max_rank()),
        !s.member.contains_key(who) ==> s.has_salary(rank, who),
        rank == 0 ==> s.demotion_period(rank) == Some(s.params.offboard_timeout),
        1 <= rank <= T::spec_max_rank() ==> s.demotion_period(rank) == Some(
            s.params.demotion_period[rank - 1],
        ),
        rank > T::spec_max_rank() && rank > 0 ==> s.demotion_period(rank) is None,
{
}

/// A record moves exactly where there is one, the two accounts differ, and none is in the way;
/// whether evidence awaits a judgement does not matter.
pub proof fn law_swap_is_granted_of_the_tracked<T: Config>(
    s: State<T>,
    old_who: AccountId,
    new_who: AccountId,
)
    ensures
        s.can_swap(old_who, new_who) <==> old_who != new_who && s.member.contains_key(old_who)
            && !s.member.contains_key(new_who),
{
}

/// A swap moves the status as it is and the evidence if there is any, reports itself, and leaves
/// all other accounts alone.
pub proof fn law_swap_moves_the_record<T: Config>(
    s: State<T>,
    old_who: AccountId,
    new_who: AccountId,
    other: AccountId,
)
    requires
        old_who != new_who,
        s.member.contains_key(old_who),
        !s.member.contains_key(new_who),
    ensures
        ({
            let after = if s.can_swap(old_who, new_who) {
                s.swapped(old_who, new_who)
            } else {
                s
            };
            &&& !after.member.contains_key(old_who)
            &&& after.member.contains_key(new_who)
            &&& after.member[new_who].is_active == s.member[old_who].is_active
            &&& after.member[new_who].last_promotion == s.member[old_who].last_promotion
            &&& after.member[new_who].last_proof == s.member[old_who].last_proof
            &&& !after.evidence.contains_key(old_who)
            &&& s.evidence.contains_key(old_who) ==> after.evidence.contains_key(new_who)
                && after.evidence[new_who] == s.evidence[old_who]
            &&& !s.evidence.contains_key(old_who) ==> keeps_evidence(s, after, new_who)
            &&& other != old_who && other != new_who ==> {
                &&& after.member.contains_key(other) == s.member.contains_key(other)
                &&& after.member[other] == s.member[other]
                &&& keeps_evidence(s, after, other)
            }
            &&& after.params == s.params
            &&& after.now == s.now
            &&& after.membership == s.membership
            &&& after.events == s.events.push(Event::Swapped { who: old_who, new_who })
        }),
{
}

/// A member who takes over an account takes over its obligations: the new account is due to be
/// bumped, and ready to be promoted, exactly when the old one would have been.
pub proof fn law_swap_moves_no_clock<T: Config>(
    s: State<T>,
    old_who: AccountId,
    new_who: AccountId,
    later: BlockNumber,
    origin: Origin,
    tried: Result<Rank, Origin>,
    rank: Option<Rank>,
    to_rank: Rank,
)
    requires
        old_who != new_who,
        s.member.contains_key(old_who),
        !s.member.contains_key(new_who),
    ensures
        ({
            let before = State { now: later, ..s };
            let after = State { now: later, ..s.swapped(old_who, new_who) };
            &&& after.bump_refusal(origin, new_who, rank) == before.bump_refusal(
                origin,
                old_who,
                rank,
            )
            &&& after.promote_refusal(tried, new_who, to_rank, rank) == before.promote_refusal(
                tried,
                old_who,
                to_rank,
                rank,
            )
            &&& after.salary(to_rank, new_who) == before.salary(to_rank, old_who)
        }),
{
}

/// The guard passes exactly the tracked accounts that hold the minimum rank or more.
pub proof fn law_guard_passes_the_tracked_of_sufficient_rank<T: Config>(
    s: State<T>,
    who: AccountId,
    rank: Option<Rank>,
    min_rank: Rank,
)
    ensures
        s.inducted_at(who, rank, min_rank) <==> s.member.contains_key(who) && rank is Some
            && rank->Some_0 >= min_rank,
{
}

/// Whoever holds the rank already is raised no further, in any number of rounds; whoever is no
/// member is not raised; and a round raises by one promotion whoever is below the rank.
pub proof fn law_raising_stops_at_the_rank<T: Config>(
    membership: T::Membership,
    who: AccountId,
    min_rank: Rank,
    rounds: nat,
)
    ensures
        raised::<T>(membership, who, min_rank, 0) == (membership, Ok::<(), ()>(())),
        (T::spec_rank_of(membership, who) matches Some(rank) && rank >= min_rank) ==> raised::<T>(
            membership,
            who,
            min_rank,
            rounds,
        ) == (membership, Ok::<(), ()>(())),
        T::spec_rank_of(membership, who) is None && rounds > 0 ==> raised::<T>(
            membership,
            who,
            min_rank,
            rounds,
        ) == (membership, Err::<(), ()>(())),
        (T::spec_rank_of(membership, who) matches Some(rank) && rank < min_rank) && rounds > 0
            ==> ({
            let (next, done) = T::spec_promote(membership, who);
            raised::<T>(membership, who, min_rank, rounds) == match done {
                Ok(()) => raised::<T>(next, who, min_rank, (rounds - 1) as nat),
                Err(_) => (next, Err::<(), ()>(())),
            }
        }),
    decreases rounds,
{
    if rounds > 0 {
        law_raising_stops_at_the_rank::<T>(membership, who, min_rank, (rounds - 1) as nat);
    }
}

/// Whoever is a member is raised from the rank held; whoever is not is added first, and raised
/// only where that succeeds. There are as many rounds as the rank has steps.
pub proof fn law_bringing_up_begins_where_an_account_stands<T: Config>(
    membership: T::Membership,
    who: AccountId,
    min_rank: Rank,
)
    ensures
        T::spec_rank_of(membership, who) is Some ==> brought_up::<T>(membership, who, min_rank)
            == raised::<T>(membership, who, min_rank, min_rank as nat),
        T::spec_rank_of(membership, who) is None ==> ({
            let (next, done) = T::spec_induct(membership, who);
            brought_up::<T>(membership, who, min_rank) == match done {
                Ok(()) => raised::<T>(next, who, min_rank, min_rank as nat),
                Err(_) => (next, Err::<(), ()>(())),
            }
        }),
{
}

/// What the fellowship keeps is what its contracts speak of, part by part.
pub proof fn law_fellowship_is_taken_whole<T: Config>(
    pallet: Pallet<T>,
    who: AccountId,
    i: int,
)
    ensures
        pallet@.membership == pallet.runtime.membership(),
        pallet@.now == pallet.block_number,
        pallet@.params == pallet.params@,
        pallet@.member == pallet.member@,
        pallet@.evidence == pallet.member_evidence@,
        pallet@.events.len() == pallet.events@.len(),
        0 <= i < pallet.events@.len() ==> pallet@.events[i] == pallet.events@[i]@,
        pallet@.rank_of(who) == T::spec_rank_of(pallet.runtime.membership(), who),
        pallet@.tracks(who) <==> pallet.member@.contains_key(who),
{
}

/// What the parameters hold is what its contracts speak of, list by list.
pub proof fn law_parameters_are_taken_whole(params: ParamsOf, update: PartialParamsOf)
    ensures
        params@.active_salary == salary_list(params.active_salary),
        params@.passive_salary == salary_list(params.passive_salary),
        params@.demotion_period == period_list(params.demotion_period),
        params@.min_promotion_period == period_list(params.min_promotion_period),
        params@.offboard_timeout == params.offboard_timeout,
        update@.active_salary == partial_salary_list(update.active_salary),
        update@.passive_salary == partial_salary_list(update.passive_salary),
        update@.demotion_period == partial_period_list(update.demotion_period),
        update@.min_promotion_period == partial_period_list(update.min_promotion_period),
        update@.offboard_timeout == update.offboard_timeout,
{
}

/// Parameters without any entry have no list and no timeout, fit any ranks, and an update without
/// any value names nothing. Lists fit the ranks where none has more entries.
pub proof fn law_parameters_fit_by_length(params: ParamsView, max_rank: Rank)
    ensures
        ParamsView::none().active_salary.len() == 0,
        ParamsView::none().passive_salary.len() == 0,
        ParamsView::none().demotion_period.len() == 0,
        ParamsView::none().min_promotion_period.len() == 0,
        ParamsView::none().offboard_timeout == 0,
        ParamsView::none().fits(max_rank),
        params.updated(PartialParamsView::none()) == params,
        params.fits(max_rank) <==> params.active_salary.len() <= max_rank
            && params.passive_salary.len() <= max_rank && params.demotion_period.len() <= max_rank
            && params.min_promotion_period.len() <= max_rank,
{
    assert(params.updated(PartialParamsView::none()) =~= params);
}

/// Every event says what it says about the accounts, ranks, wishes and evidence that it names.
pub proof fn law_events_are_taken_whole<Size>(
    params: ParamsOf,
    who: AccountId,
    new_who: AccountId,
    rank: Rank,
    new_rank: Option<Rank>,
    is_active: bool,
    wish: Wish,
    evidence: Evidence<Size>,
)
    ensures
        (EventOf::<Size>::ParamsChanged { params })@ == (Event::<
            ParamsView,
            Size,
        >::ParamsChanged { params: params@ }),
        (EventOf::<Size>::ActiveChanged { who, is_active })@ == (Event::<
            ParamsView,
            Size,
        >::ActiveChanged { who, is_active }),
        (EventOf::<Size>::Inducted { who })@ == (Event::<ParamsView, Size>::Inducted { who }),
        (EventOf::<Size>::Offboarded { who })@ == (Event::<ParamsView, Size>::Offboarded { who }),
        (EventOf::<Size>::Promoted { who, to_rank: rank })@ == (Event::<
            ParamsView,
            Size,
        >::Promoted { who, to_rank: rank }),
        (EventOf::<Size>::Demoted { who, to_rank: rank })@ == (Event::<
            ParamsView,
            Size,
        >::Demoted { who, to_rank: rank }),
        (EventOf::<Size>::Proven { who, at_rank: rank })@ == (Event::<
            ParamsView,
            Size,
        >::Proven { who, at_rank: rank }),
        (EventOf::<Size>::Requested { who, wish })@ == (Event::<
            ParamsView,
            Size,
        >::Requested { who, wish }),
        (EventOf::<Size>::EvidenceJudged { who, wish, evidence, old_rank: rank, new_rank })@ == (
        Event::<ParamsView, Size>::EvidenceJudged {
            who,
            wish,
            evidence,
            old_rank: rank,
            new_rank,
        }),
        (EventOf::<Size>::Imported { who, rank })@ == (Event::<
            ParamsView,
            Size,
        >::Imported { who, rank }),
        (EventOf::<Size>::Swapped { who, new_who })@ == (Event::<
            ParamsView,
            Size,
        >::Swapped { who, new_who }),
{
}

/// What holds at all times is that evidence belongs to tracked accounts, that no record lies in
/// the future, and that the lists of parameters fit the ranks.
pub proof fn law_what_holds_at_all_times<T: Config>(s: State<T>, who: AccountId)
    requires
        s.wf(),
    ensures
        s.evidence.contains_key(who) ==> s.member.contains_key(who),
        s.member.contains_key(who) ==> s.member[who].last_promotion <= s.now
            && s.member[who].last_proof <= s.now,
        s.params.active_salary.len() <= T::spec_max_rank(),
        s.params.passive_salary.len() <= T::spec_max_rank(),
        s.params.demotion_period.len() <= T::spec_max_rank(),
        s.params.min_promotion_period.len() <= T::spec_max_rank(),
{
}

} // verus!
