//! What the rules of the fellowship come to over more than one call.

use crate::fellowship::model::{not_permitted, rank_index, saturated, State};
use crate::fellowship::params::{
    partially_updated, BlockNumber, ParamsView, PartialParamsView,
};
use crate::fellowship::types::{
    AccountId, Config, DispatchError, Error, Event, Evidence, MemberStatusOf, Origin, Rank, Wish,
};
use vstd::prelude::*;

verus! {

impl<T: Config> State<T> {
    /// This state in another block.
    pub open spec fn at_block(self, now: BlockNumber) -> State<T> {
        State { now, ..self }
    }

    /// Whether `after` differs from this state in nothing but the records of `who`, the
    /// membership, and further events.
    pub open spec fn touches_only(self, who: AccountId, after: State<T>) -> bool {
        &&& after.now == self.now
        &&& after.params == self.params
        &&& self.member.remove(who) =~= after.member.remove(who)
        &&& self.evidence.remove(who) =~= after.evidence.remove(who)
        &&& self.events.is_prefix_of(after.events)
    }
}

/// Every change that a call makes keeps what holds at all times.
pub proof fn law_calls_keep_what_holds<T: Config>(
    s: State<T>,
    who: AccountId,
    rank: Rank,
    to_rank: Rank,
    new_rank: Option<Rank>,
    is_active: bool,
    wish: Wish,
    evidence: Evidence<T::EvidenceSize>,
    new_who: AccountId,
    membership: T::Membership,
    params: ParamsView,
    new_params: PartialParamsView,
    now: BlockNumber,
)
    requires
        s.wf(),
    ensures
        s.with_membership(membership).wf(),
        params.fits(T::spec_max_rank()) ==> s.with_params(params).wf(),
        s.with_partial_params(new_params).wf(),
        s.inducted(who).wf(),
        s.imported(who, rank).wf(),
        s.offboarded(who).wf(),
        s.tracks(who) ==> s.demoted(who, rank, new_rank).wf(),
        s.tracks(who) ==> s.active_set(who, is_active).wf(),
        s.tracks(who) ==> s.approved(who, rank).wf(),
        s.tracks(who) ==> s.promoted(who, s.promoted_status(who), rank, to_rank).wf(),
        s.tracks(who) ==> s.submitted(who, wish, evidence).wf(),
        s.can_swap(who, new_who) ==> s.swapped(who, new_who).wf(),
        now >= s.now ==> s.at_block(now).wf(),
{
}

/// A call about an account leaves the records of all others, the parameters and the past events
/// as they were.
pub proof fn law_calls_touch_one_account<T: Config>(
    s: State<T>,
    who: AccountId,
    rank: Rank,
    to_rank: Rank,
    new_rank: Option<Rank>,
    is_active: bool,
    wish: Wish,
    evidence: Evidence<T::EvidenceSize>,
    status: MemberStatusOf,
)
    ensures
        s.touches_only(who, s.inducted(who)),
        s.touches_only(who, s.imported(who, rank)),
        s.touches_only(who, s.offboarded(who)),
        s.touches_only(who, s.demoted(who, rank, new_rank)),
        s.touches_only(who, s.active_set(who, is_active)),
        s.touches_only(who, s.approved(who, rank)),
        s.touches_only(who, s.promoted(who, status, rank, to_rank)),
        s.touches_only(who, s.submitted(who, wish, evidence)),
{
}

/// Evidence is cleared by every outcome: demotion, promotion, approval and offboarding.
pub proof fn law_outcome_clears_evidence<T: Config>(
    s: State<T>,
    who: AccountId,
    rank: Rank,
    to_rank: Rank,
    new_rank: Option<Rank>,
    status: MemberStatusOf,
)
    ensures
        !s.demoted(who, rank, new_rank).evidence.contains_key(who),
        !s.promoted(who, status, rank, to_rank).evidence.contains_key(who),
        !s.approved(who, rank).evidence.contains_key(who),
        !s.offboarded(who).evidence.contains_key(who),
{
}

/// Evidence that was submitted stays until a judgement, which reports exactly that evidence and
/// wish with the old and the new rank.
pub proof fn law_judgement_reports_evidence<T: Config>(
    s: State<T>,
    who: AccountId,
    wish: Wish,
    evidence: Evidence<T::EvidenceSize>,
    old_rank: Rank,
    new_rank: Option<Rank>,
)
    ensures
        s.submitted(who, wish, evidence).judged(who, old_rank, new_rank).events.last()
            == (Event::EvidenceJudged::<ParamsView, T::EvidenceSize> {
            who,
            wish,
            evidence,
            old_rank,
            new_rank,
        }),
        !s.evidence.contains_key(who) ==> s.judged(who, old_rank, new_rank) == s,
{
}

/// Nothing can be done about an account that is not tracked but to let it in: it neither gains
/// nor loses a rank here, is not approved, and hands in no evidence.
pub proof fn law_untracked_accounts_stay_out<T: Config>(
    s: State<T>,
    origin: Origin,
    tried: Result<Rank, Origin>,
    who: AccountId,
    rank: Option<Rank>,
    to_rank: Rank,
)
    requires
        !s.tracks(who),
    ensures
        s.bump_refusal(origin, who, rank) is Some,
        s.set_active_refusal(who, rank) is Some,
        s.approve_refusal(tried, who, to_rank, rank) is Some,
        s.promote_refusal(tried, who, to_rank, rank) is Some,
        s.promote_fast_refusal(tried, who, to_rank, rank) is Some,
        s.offboard_refusal(origin, who, rank) is Some,
        s.submit_refusal(Origin::Signed(who), rank) is Some,
{
}

/// Who was inducted or imported may hand in evidence at any rank, that of a candidate among them.
pub proof fn law_entrants_may_hand_in_evidence<T: Config>(s: State<T>, who: AccountId, rank: Rank)
    ensures
        s.inducted(who).submit_refusal(Origin::Signed(who), Some(rank)) is None,
        s.imported(who, rank).submit_refusal(Origin::Signed(who), Some(rank)) is None,
{
}

/// Only accounts that are both tracked and ranked may hand in evidence.
pub proof fn law_evidence_needs_a_rank<T: Config>(s: State<T>, who: AccountId, rank: Option<Rank>)
    ensures
        s.submit_refusal(Origin::Signed(who), rank) is None <==> s.tracks(who) && rank is Some,
{
}

/// Whatever the judgement, the last proof of an account that stays is the current block.
pub proof fn law_judgement_resets_last_proof<T: Config>(
    s: State<T>,
    who: AccountId,
    old_rank: Rank,
    new_rank: Rank,
)
    ensures
        s.approved(who, old_rank).member[who].last_proof == s.now,
        s.promoted(who, s.promoted_status(who), old_rank, new_rank).member[who].last_proof == s.now,
        s.demoted(who, old_rank, Some(new_rank)).member[who].last_proof == s.now,
{
}

/// A candidate may be bumped out by anyone once the offboard timeout has passed since the
/// induction, and not before.
pub proof fn law_candidates_time_out<T: Config>(
    s: State<T>,
    caller: AccountId,
    who: AccountId,
    later: BlockNumber,
)
    requires
        s.params.offboard_timeout != 0,
    ensures
        s.inducted(who).at_block(later).bump_refusal(Origin::Signed(caller), who, Some(0)) == (
        if later >= saturated(s.now, s.params.offboard_timeout) {
            None
        } else {
            Some(DispatchError::<T::MembersError>::Module(Error::NothingDoing))
        }),
{
}

/// Anyone may offboard a tracked account that is not ranked, and nobody one that is.
pub proof fn law_anyone_may_offboard_the_unranked<T: Config>(
    s: State<T>,
    caller: AccountId,
    who: AccountId,
    rank: Rank,
)
    requires
        s.tracks(who),
    ensures
        s.offboard_refusal(Origin::Signed(caller), who, None) is None,
        s.offboard_refusal(Origin::Signed(caller), who, Some(rank)) == Some(
            DispatchError::<T::MembersError>::Module(Error::Ranked),
        ),
{
}

/// Candidates cannot be approved, whoever asks and at whatever rank.
pub proof fn law_candidates_cannot_be_approved<T: Config>(
    s: State<T>,
    tried: Result<Rank, Origin>,
    who: AccountId,
    at_rank: Rank,
)
    ensures
        s.approve_refusal(tried, who, at_rank, Some(0)) is Some,
{
}

/// Whether an account is due to be bumped does not depend on who asks: anyone may, once the
/// demotion period has passed since the last proof, and nobody before.
pub proof fn law_anyone_may_bump_the_overdue<T: Config>(
    s: State<T>,
    caller: AccountId,
    who: AccountId,
    rank: Rank,
)
    requires
        s.tracks(who),
        s.demotion_period(rank) is Some,
    ensures
        s.bump_refusal(Origin::Signed(caller), who, Some(rank)) == (if s.demotion_period(rank)
            != Some(0u64) && s.now >= saturated(
            s.member[who].last_proof,
            s.demotion_period(rank)->Some_0,
        ) {
            None
        } else {
            Some(DispatchError::<T::MembersError>::Module(Error::NothingDoing))
        }),
{
}

/// An approval delays the demotion: the member is not due again before a whole demotion period
/// has passed, and is due from then on.
pub proof fn law_approval_delays_demotion<T: Config>(
    s: State<T>,
    caller: AccountId,
    who: AccountId,
    rank: Rank,
    later: BlockNumber,
)
    requires
        s.tracks(who),
        s.demotion_period(rank) matches Some(period) && period != 0,
    ensures
        later < saturated(s.now, s.demotion_period(rank)->Some_0) ==> s.approved(
            who,
            rank,
        ).at_block(later).bump_refusal(Origin::Signed(caller), who, Some(rank)) == Some(
            DispatchError::<T::MembersError>::Module(Error::NothingDoing),
        ),
        later >= saturated(s.now, s.demotion_period(rank)->Some_0) ==> s.approved(
            who,
            rank,
        ).at_block(later).bump_refusal(Origin::Signed(caller), who, Some(rank)) is None,
{
}

/// A promotion restarts both clocks: the member is neither due to be demoted from the new rank
/// nor ready for the next promotion before the periods of these ranks have passed.
pub proof fn law_promotion_restarts_the_clocks<T: Config>(
    s: State<T>,
    caller: AccountId,
    who: AccountId,
    rank: Rank,
    later: BlockNumber,
)
    requires
        s.tracks(who),
        0 < rank,
        rank + 1 <= T::spec_max_rank(),
    ensures
        ({
            let after = s.promoted(
                who,
                s.promoted_status(who),
                (rank - 1) as Rank,
                rank,
            ).at_block(later);
            let min_period = s.params.min_promotion_period[rank as int];
            &&& later < saturated(s.now, s.demotion_period(rank)->Some_0) ==> after.bump_refusal(
                Origin::Signed(caller),
                who,
                Some(rank),
            ) == Some(DispatchError::<T::MembersError>::Module(Error::NothingDoing))
            &&& after.promote_refusal(
                Err(Origin::Root),
                who,
                (rank + 1) as Rank,
                Some(rank),
            ) == (if later < saturated(s.now, min_period) {
                Some(DispatchError::<T::MembersError>::Module(Error::TooSoon))
            } else {
                None
            })
        }),
{
}

/// An account that was just imported may be promoted at once by whoever may promote to the next
/// rank, where the chain is older than the promotion period, and is not demoted before a whole
/// period has passed.
pub proof fn law_import_allows_immediate_promotion<T: Config>(
    s: State<T>,
    caller: AccountId,
    who: AccountId,
    rank: Rank,
)
    requires
        rank + 1 <= T::spec_max_rank(),
        s.params.min_promotion_period[rank as int] <= s.now,
    ensures
        forall|tried: Result<Rank, Origin>|
            not_permitted::<T::MembersError>(tried, (rank + 1) as Rank) is None
                ==> #[trigger] s.imported(who, rank).promote_refusal(
                tried,
                who,
                (rank + 1) as Rank,
                Some(rank),
            ) is None,
        s.now < BlockNumber::MAX ==> s.imported(who, rank).bump_refusal(
            Origin::Signed(caller),
            who,
            Some(rank),
        ) == Some(DispatchError::<T::MembersError>::Module(Error::NothingDoing)),
{
}

/// Nobody is inducted or imported twice.
pub proof fn law_nobody_enters_twice<T: Config>(
    s: State<T>,
    who: AccountId,
    rank: Option<Rank>,
    imported_rank: Rank,
)
    ensures
        s.inducted(who).induct_refusal(Ok(()), who, rank) == Some(
            DispatchError::<T::MembersError>::Module(Error::AlreadyInducted),
        ),
        s.inducted(who).import_refusal(who, rank) == Some(
            DispatchError::<T::MembersError>::Module(Error::AlreadyInducted),
        ),
        s.imported(who, imported_rank).induct_refusal(Ok(()), who, rank) == Some(
            DispatchError::<T::MembersError>::Module(Error::AlreadyInducted),
        ),
        s.imported(who, imported_rank).import_refusal(who, rank) == Some(
            DispatchError::<T::MembersError>::Module(Error::AlreadyInducted),
        ),
{
}

/// Who was offboarded is not tracked any more and may enter again as a new candidate.
pub proof fn law_offboarded_may_enter_again<T: Config>(
    s: State<T>,
    who: AccountId,
    rank: Option<Rank>,
)
    ensures
        !s.offboarded(who).tracks(who),
        s.offboarded(who).induct_refusal(Ok(()), who, None) is None,
        s.offboarded(who).submit_refusal(Origin::Signed(who), rank) == Some(
            DispatchError::<T::MembersError>::Module(Error::NotTracked),
        ),
{
}

/// Swapping an account with another and back again restores all records.
pub proof fn law_swap_is_undone_by_swapping_back<T: Config>(
    s: State<T>,
    old_who: AccountId,
    new_who: AccountId,
)
    requires
        s.can_swap(old_who, new_who),
        !s.evidence.contains_key(new_who),
    ensures
        s.swapped(old_who, new_who).can_swap(new_who, old_who),
        s.swapped(old_who, new_who).swapped(new_who, old_who).member == s.member,
        s.swapped(old_who, new_who).swapped(new_who, old_who).evidence == s.evidence,
{
    let back = s.swapped(old_who, new_who).swapped(new_who, old_who);
    assert(back.member =~= s.member);
    assert(back.evidence =~= s.evidence);
}

/// A swap hands on the record and the evidence as they are and leaves nothing behind.
pub proof fn law_swap_hands_on_everything<T: Config>(
    s: State<T>,
    old_who: AccountId,
    new_who: AccountId,
)
    requires
        s.can_swap(old_who, new_who),
        !s.evidence.contains_key(new_who),
    ensures
        ({
            let after = s.swapped(old_who, new_who);
            &&& !after.tracks(old_who)
            &&& after.tracks(new_who)
            &&& after.member[new_who] == s.member[old_who]
            &&& !after.evidence.contains_key(old_who)
            &&& after.evidence.contains_key(new_who) == s.evidence.contains_key(old_who)
            &&& s.evidence.contains_key(old_who) ==> after.evidence[new_who]
                == s.evidence[old_who]
        }),
{
}

/// The promotions of `who` from rank to rank, as events.
pub open spec fn promotion_events<Size>(who: AccountId, from_rank: Rank, to_rank: Rank) -> Seq<
    Event<ParamsView, Size>,
> {
    Seq::new(
        (to_rank - from_rank) as nat,
        |i: int| Event::Promoted { who, to_rank: (from_rank + 1 + i) as Rank },
    )
}

/// A fast promotion that passes gives the status once, judges the evidence at the first step and
/// reports every rank on the way.
pub proof fn law_fast_promotion_reports_every_rank<T: Config>(
    s: State<T>,
    who: AccountId,
    status: MemberStatusOf,
    from_rank: Rank,
    to_rank: Rank,
)
    requires
        from_rank < to_rank,
        s.fast_promoted(who, status, from_rank, to_rank).1 is Ok,
    ensures
        ({
            let after = s.fast_promoted(who, status, from_rank, to_rank).0;
            &&& after.member == s.member.insert(who, status)
            &&& after.evidence == s.evidence.remove(who)
            &&& after.events == s.judged(
                who,
                from_rank,
                Some((from_rank + 1) as Rank),
            ).events + promotion_events(who, from_rank, to_rank)
            &&& after.params == s.params
            &&& after.now == s.now
        }),
    decreases to_rank - from_rank,
{
    let next_rank = (from_rank + 1) as Rank;
    let (membership, done) = T::spec_promote(s.membership, who);
    let step = s.with_membership(membership).promoted(who, status, from_rank, next_rank);
    let after = s.fast_promoted(who, status, from_rank, to_rank).0;
    assert(step.evidence =~= s.evidence.remove(who));
    if next_rank < to_rank {
        law_fast_promotion_reports_every_rank(step, who, status, next_rank, to_rank);
        assert(after.member =~= s.member.insert(who, status));
        assert(after.evidence =~= s.evidence.remove(who));
        assert(step.judged(who, next_rank, Some((next_rank + 1) as Rank)) == step);
    } else {
        assert(step.fast_promoted(who, status, next_rank, to_rank).0 == step);
    }
    assert(after.events =~= s.judged(who, from_rank, Some(next_rank)).events + promotion_events(
        who,
        from_rank,
        to_rank,
    ));
}

/// A fast promotion that stops half-way keeps the ranks gained so far and what holds at all
/// times.
pub proof fn law_fast_promotion_keeps_what_holds<T: Config>(
    s: State<T>,
    who: AccountId,
    status: MemberStatusOf,
    from_rank: Rank,
    to_rank: Rank,
)
    requires
        s.wf(),
        s.tracks(who),
        status.last_promotion <= s.now,
        status.last_proof <= s.now,
    ensures
        s.fast_promoted(who, status, from_rank, to_rank).0.wf(),
        s.touches_only(who, s.fast_promoted(who, status, from_rank, to_rank).0),
    decreases to_rank - from_rank,
{
    if from_rank < to_rank {
        let next_rank = (from_rank + 1) as Rank;
        let (membership, done) = T::spec_promote(s.membership, who);
        if done is Ok {
            let step = s.with_membership(membership).promoted(who, status, from_rank, next_rank);
            assert(s.touches_only(who, step));
            law_fast_promotion_keeps_what_holds(step, who, status, next_rank, to_rank);
        }
    }
}

/// Only tracked accounts of a valid rank are paid; a candidate never is.
pub proof fn law_only_members_are_paid<T: Config>(s: State<T>, rank: Rank, who: AccountId)
    ensures
        !s.tracks(who) || rank == 0 || rank > T::spec_max_rank() ==> s.salary(rank, who) == 0,
{
}

/// The activity of a member decides between the two salaries of the rank, and nothing else does.
pub proof fn law_activity_decides_salary<T: Config>(
    s: State<T>,
    rank: Rank,
    who: AccountId,
    is_active: bool,
)
    requires
        0 < rank <= T::spec_max_rank(),
    ensures
        s.active_set(who, is_active).salary(rank, who) == (if is_active {
            s.params.active_salary[rank - 1]
        } else {
            s.params.passive_salary[rank - 1]
        }),
{
}

/// Ranks from one to the highest fill the places from zero on, each its own.
pub proof fn law_ranks_fill_the_lists(a: Rank, b: Rank, max_rank: Rank)
    ensures
        rank_index(a, max_rank) matches Some(index) ==> index < max_rank,
        rank_index(a, max_rank) is Some && rank_index(a, max_rank) == rank_index(b, max_rank) ==> a
            == b,
        rank_index(a, max_rank) is None <==> a == 0 || a > max_rank,
{
}

/// A partial update without any value changes nothing.
pub proof fn law_empty_update_changes_nothing(params: ParamsView, new: PartialParamsView)
    requires
        forall|i: int| 0 <= i < new.active_salary.len() ==> new.active_salary[i] is None,
        forall|i: int| 0 <= i < new.passive_salary.len() ==> new.passive_salary[i] is None,
        forall|i: int| 0 <= i < new.demotion_period.len() ==> new.demotion_period[i] is None,
        forall|i: int|
            0 <= i < new.min_promotion_period.len() ==> new.min_promotion_period[i] is None,
        new.offboard_timeout is None,
    ensures
        params.updated(new) == params,
{
    assert(params.updated(new) =~= params);
}

/// A partial update sets exactly the entries it has a value for, and never the number of entries.
pub proof fn law_update_sets_what_it_names<S>(base: Seq<S>, new: Seq<Option<S>>, i: int)
    requires
        0 <= i < base.len(),
    ensures
        partially_updated(base, new).len() == base.len(),
        i < new.len() && new[i] is Some ==> partially_updated(base, new)[i] == new[i]->Some_0,
        i >= new.len() || new[i] is None ==> partially_updated(base, new)[i] == base[i],
{
}

/// The lists of parameters that fit the ranks still do after a partial update.
pub proof fn law_update_keeps_the_bound(
    params: ParamsView,
    new: PartialParamsView,
    max_rank: Rank,
)
    requires
        params.fits(max_rank),
    ensures
        params.updated(new).fits(max_rank),
{
}

} // verus!
