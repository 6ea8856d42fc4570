use frame_support::traits::ConstU32;
use frame_support::BoundedVec;
use polkadot_kit::fellowship::pallet::{ensure_permitted, EnsureInducted, Pallet};
use polkadot_kit::fellowship::params::{
    set_partial_params_slice, ParamsOf, ParamsType, PartialParamsOf,
};
use polkadot_kit::fellowship::types::{
    BadOrigin, Config, ConvertU16ToU32, DispatchError, Error, Event, EventOf, Evidence,
    MemberStatus, Origin, Pays, Wish,
};
use std::collections::BTreeMap;

type Ranks = BTreeMap<u64, u16>;

/// A membership organisation with ranks from zero to nine.
struct Club {
    ranks: Ranks,
    closed: bool,
    top: u16,
}

impl Club {
    fn new() -> Club {
        Club { ranks: BTreeMap::new(), closed: false, top: u16::MAX }
    }
}

#[derive(Debug, Clone, Copy, PartialEq, Eq)]
enum ClubError {
    Closed,
    NotAMember,
    AtTheTop,
}

impl Config for Club {
    type EvidenceSize = ConstU32<8>;
    type MembersError = ClubError;
    type Membership = Ranks;

    // Ghost functions: contracts speak of them, and nothing runs them.
    fn spec_max_rank() -> u16 {
        unreachable!()
    }

    fn spec_min_rank() -> u16 {
        unreachable!()
    }

    fn membership(self) -> Ranks {
        unreachable!()
    }

    fn spec_rank_of(_: Ranks, _: u64) -> Option<u16> {
        unreachable!()
    }

    fn spec_induct(_: Ranks, _: u64) -> (Ranks, Result<(), ClubError>) {
        unreachable!()
    }

    fn spec_promote(_: Ranks, _: u64) -> (Ranks, Result<(), ClubError>) {
        unreachable!()
    }

    fn spec_demote(_: Ranks, _: u64) -> (Ranks, Result<(), ClubError>) {
        unreachable!()
    }

    fn max_rank() -> u16 {
        9
    }

    fn rank_of(&self, who: u64) -> Option<u16> {
        self.ranks.get(&who).copied()
    }

    fn induct(&mut self, who: u64) -> Result<(), ClubError> {
        if self.closed {
            return Err(ClubError::Closed);
        }
        self.ranks.insert(who, 0);
        Ok(())
    }

    fn promote(&mut self, who: u64) -> Result<(), ClubError> {
        if self.closed {
            return Err(ClubError::Closed);
        }
        let rank = self.ranks.get_mut(&who).ok_or(ClubError::NotAMember)?;
        if *rank >= self.top {
            return Err(ClubError::AtTheTop);
        }
        *rank += 1;
        Ok(())
    }

    fn demote(&mut self, who: u64) -> Result<(), ClubError> {
        if self.closed {
            return Err(ClubError::Closed);
        }
        let rank = self.ranks.get(&who).copied().ok_or(ClubError::NotAMember)?;
        if rank == 0 {
            self.ranks.remove(&who);
        } else {
            self.ranks.insert(who, rank - 1);
        }
        Ok(())
    }
}

type Size = ConstU32<8>;
type Failure = DispatchError<ClubError>;

fn module(error: Error) -> Failure {
    DispatchError::Module(error)
}

fn signed(who: u64) -> Origin {
    Origin::Signed(who)
}

const ROOT: Result<u16, Origin> = Err(Origin::Root);

fn params() -> ParamsOf {
    ParamsType {
        active_salary: BoundedVec::try_from(vec![10, 20, 30, 40, 50, 60, 70, 80, 90]).unwrap(),
        passive_salary: BoundedVec::try_from(vec![1, 2, 3, 4, 5, 6, 7, 8, 9]).unwrap(),
        demotion_period: BoundedVec::try_from(vec![2, 4, 6, 8, 10, 12, 14, 16, 18]).unwrap(),
        min_promotion_period: BoundedVec::try_from(vec![3, 6, 9, 12, 15, 18, 21, 24, 27]).unwrap(),
        offboard_timeout: 1,
    }
}

fn no_change() -> PartialParamsOf {
    PartialParamsOf::default()
}

fn fellowship() -> Pallet<Club> {
    let mut pallet = Pallet::new(Club::new(), 1);
    assert_eq!(pallet.set_params(Ok(()), params()), Ok(()));
    pallet.events.clear();
    pallet
}

/// A fellowship at block 100 with a member of the given rank, tracked since then.
fn fellowship_with(who: u64, rank: u16) -> Pallet<Club> {
    let mut pallet = fellowship();
    pallet.block_number = 100;
    pallet.runtime.ranks.insert(who, rank);
    assert_eq!(pallet.import_member(signed(who), who), Ok(Pays::No));
    pallet.events.clear();
    pallet
}

fn evidence(bytes: &[u8]) -> Evidence<Size> {
    BoundedVec::try_from(bytes.to_vec()).unwrap()
}

/// An event in a form that compares.
fn show(event: &EventOf<Size>) -> String {
    match event {
        Event::ParamsChanged { params } => format!("params {:?}", lists(params)),
        Event::ActiveChanged { who, is_active } => format!("active {} {}", who, is_active),
        Event::Inducted { who } => format!("inducted {}", who),
        Event::Offboarded { who } => format!("offboarded {}", who),
        Event::Promoted { who, to_rank } => format!("promoted {} {}", who, to_rank),
        Event::Demoted { who, to_rank } => format!("demoted {} {}", who, to_rank),
        Event::Proven { who, at_rank } => format!("proven {} {}", who, at_rank),
        Event::Requested { who, wish } => format!("requested {} {:?}", who, wish),
        Event::EvidenceJudged { who, wish, evidence, old_rank, new_rank } => {
            format!("judged {} {:?} {:?} {} {:?}", who, wish, evidence.to_vec(), old_rank, new_rank)
        },
        Event::Imported { who, rank } => format!("imported {} {}", who, rank),
        Event::Swapped { who, new_who } => format!("swapped {} {}", who, new_who),
    }
}

fn take_events(pallet: &mut Pallet<Club>) -> Vec<String> {
    let shown = pallet.events.iter().map(show).collect();
    pallet.events.clear();
    shown
}

fn lists(params: &ParamsOf) -> (Vec<u128>, Vec<u128>, Vec<u64>, Vec<u64>, u64) {
    (
        params.active_salary.to_vec(),
        params.passive_salary.to_vec(),
        params.demotion_period.to_vec(),
        params.min_promotion_period.to_vec(),
        params.offboard_timeout,
    )
}

fn status(is_active: bool, last_promotion: u64, last_proof: u64) -> MemberStatus<u64> {
    MemberStatus { is_active, last_promotion, last_proof }
}

#[test]
fn a_new_fellowship_has_no_parameters_and_tracks_nobody() {
    let pallet = Pallet::new(Club::new(), 7);
    assert_eq!(lists(&pallet.params), (vec![], vec![], vec![], vec![], 0));
    assert!(pallet.member.is_empty());
    assert!(pallet.member_evidence.is_empty());
    assert!(pallet.events.is_empty());
    assert_eq!(pallet.block_number, 7);
}

#[test]
fn the_process_flows_from_candidate_to_member_and_back() {
    let mut pallet = fellowship();
    pallet.params.offboard_timeout = 10;
    // A candidate enters and applies.
    assert_eq!(pallet.induct(Ok(()), 1), Ok(()));
    assert_eq!(pallet.member[&1], status(true, 1, 1));
    assert_eq!(pallet.runtime.rank_of(1), Some(0));
    assert_eq!(
        pallet.submit_evidence(signed(1), Wish::Promotion, evidence(b"first")),
        Ok(Pays::No)
    );
    // Too soon: rank one takes three blocks.
    pallet.block_number = 3;
    assert_eq!(pallet.promote(Ok(1), 1, 1), Err(module(Error::TooSoon)));
    pallet.block_number = 4;
    assert_eq!(pallet.promote(Ok(1), 1, 1), Ok(()));
    assert_eq!(pallet.member[&1], status(true, 4, 4));
    assert!(pallet.member_evidence.is_empty());
    // The member applies to stay and is approved in time.
    assert_eq!(
        pallet.submit_evidence(signed(1), Wish::Retention, evidence(b"second")),
        Ok(Pays::No)
    );
    pallet.block_number = 5;
    assert_eq!(pallet.bump(signed(9), 1), Err(module(Error::NothingDoing)));
    assert_eq!(pallet.approve(Ok(1), 1, 1), Ok(()));
    assert_eq!(pallet.member[&1], status(true, 4, 5));
    // Then nobody approves, and anyone may bump.
    pallet.block_number = 6;
    assert_eq!(pallet.bump(signed(9), 1), Err(module(Error::NothingDoing)));
    pallet.block_number = 7;
    assert_eq!(pallet.bump(signed(9), 1), Ok(Pays::No));
    assert_eq!(pallet.runtime.rank_of(1), Some(0));
    assert_eq!(pallet.member[&1], status(true, 4, 7));
    // A candidate again, who fails to be promoted within the timeout.
    pallet.block_number = 16;
    assert_eq!(pallet.bump(signed(9), 1), Err(module(Error::NothingDoing)));
    pallet.block_number = 17;
    assert_eq!(pallet.bump(signed(9), 1), Ok(Pays::No));
    assert_eq!(pallet.runtime.rank_of(1), None);
    assert!(pallet.member.is_empty());
    assert_eq!(
        take_events(&mut pallet),
        vec![
            "inducted 1".to_string(),
            "requested 1 Promotion".to_string(),
            format!("judged 1 Promotion {:?} 0 Some(1)", b"first"),
            "promoted 1 1".to_string(),
            "requested 1 Retention".to_string(),
            format!("judged 1 Retention {:?} 1 Some(1)", b"second"),
            "proven 1 1".to_string(),
            "demoted 1 0".to_string(),
            "offboarded 1".to_string(),
        ]
    );
}

#[test]
fn bump_refuses_in_order() {
    let mut pallet = fellowship();
    assert_eq!(pallet.bump(Origin::Root, 1), Err(DispatchError::BadOrigin));
    assert_eq!(pallet.bump(Origin::Other, 1), Err(DispatchError::BadOrigin));
    assert_eq!(pallet.bump(signed(2), 1), Err(module(Error::NotTracked)));
    let mut pallet = fellowship_with(1, 2);
    pallet.runtime.ranks.remove(&1);
    assert_eq!(pallet.bump(signed(2), 1), Err(module(Error::Unranked)));
    pallet.runtime.ranks.insert(1, 10);
    assert_eq!(pallet.bump(signed(2), 1), Err(module(Error::InvalidRank)));
    pallet.runtime.ranks.insert(1, 2);
    assert_eq!(pallet.bump(signed(2), 1), Err(module(Error::NothingDoing)));
    pallet.block_number = 104;
    pallet.runtime.closed = true;
    assert_eq!(pallet.bump(signed(2), 1), Err(DispatchError::Members(ClubError::Closed)));
    assert!(pallet.events.is_empty());
    pallet.runtime.closed = false;
    assert_eq!(pallet.bump(signed(2), 1), Ok(Pays::No));
    assert_eq!(take_events(&mut pallet), vec!["demoted 1 1"]);
}

#[test]
fn a_period_of_zero_never_ends() {
    let mut pallet = fellowship_with(1, 0);
    pallet.params.offboard_timeout = 0;
    pallet.block_number = u64::MAX;
    assert_eq!(pallet.bump(signed(2), 1), Err(module(Error::NothingDoing)));
}

#[test]
fn demotion_blocks_saturate() {
    let mut pallet = fellowship_with(1, 1);
    pallet.member.insert(1, status(true, 0, u64::MAX - 1));
    // The last block stands in for the one behind it.
    pallet.block_number = u64::MAX - 1;
    assert_eq!(pallet.bump(signed(2), 1), Err(module(Error::NothingDoing)));
    pallet.block_number = u64::MAX;
    assert_eq!(pallet.bump(signed(2), 1), Ok(Pays::No));
}

#[test]
fn bump_disposes_of_evidence() {
    let mut pallet = fellowship_with(1, 1);
    pallet.submit_evidence(signed(1), Wish::Retention, evidence(&[4, 2])).unwrap();
    pallet.block_number = 102;
    assert_eq!(pallet.bump(signed(1), 1), Ok(Pays::No));
    assert_eq!(
        take_events(&mut pallet),
        vec!["requested 1 Retention", "judged 1 Retention [4, 2] 1 Some(0)", "demoted 1 0"]
    );
    pallet.submit_evidence(signed(1), Wish::Promotion, evidence(&[7])).unwrap();
    pallet.block_number = 103;
    assert_eq!(pallet.bump(signed(1), 1), Ok(Pays::No));
    assert_eq!(
        take_events(&mut pallet),
        vec!["requested 1 Promotion", "judged 1 Promotion [7] 0 None", "offboarded 1"]
    );
}

#[test]
fn params_are_set_by_who_may() {
    let mut pallet = Pallet::new(Club::new(), 1);
    assert_eq!(pallet.set_params(Err(BadOrigin), params()), Err(DispatchError::BadOrigin));
    assert_eq!(lists(&pallet.params), (vec![], vec![], vec![], vec![], 0));
    assert!(pallet.events.is_empty());
    assert_eq!(pallet.set_params(Ok(()), params()), Ok(()));
    assert_eq!(lists(&pallet.params), lists(&params()));
    assert_eq!(take_events(&mut pallet), vec![format!("params {:?}", lists(&params()))]);
}

#[test]
fn parameters_fit_the_ranks_they_have_entries_for() {
    assert!(params().fits_ranks(9));
    assert!(params().fits_ranks(10));
    assert!(!params().fits_ranks(8));
    assert!(ParamsOf::default().fits_ranks(0));
    let mut longer = params();
    longer.min_promotion_period = BoundedVec::try_from(vec![1; 10]).unwrap();
    assert!(!longer.fits_ranks(9));
}

#[test]
fn partial_params_replace_what_they_name() {
    let mut pallet = fellowship();
    let new = ParamsType {
        active_salary: BoundedVec::try_from(vec![None, Some(25), None]).unwrap(),
        passive_salary: BoundedVec::try_from(vec![Some(11)]).unwrap(),
        demotion_period: BoundedVec::try_from(vec![None; 9]).unwrap(),
        min_promotion_period: BoundedVec::try_from(vec![Some(1); 9]).unwrap(),
        offboard_timeout: Some(5),
    };
    assert_eq!(pallet.set_partial_params(Ok(()), new), Ok(()));
    let wanted = (
        vec![10, 25, 30, 40, 50, 60, 70, 80, 90],
        vec![11, 2, 3, 4, 5, 6, 7, 8, 9],
        vec![2, 4, 6, 8, 10, 12, 14, 16, 18],
        vec![1; 9],
        5,
    );
    assert_eq!(lists(&pallet.params), wanted);
    assert_eq!(take_events(&mut pallet), vec![format!("params {:?}", wanted)]);
    assert_eq!(
        pallet.set_partial_params(Err(BadOrigin), no_change()),
        Err(DispatchError::BadOrigin)
    );
    assert!(pallet.events.is_empty());
    assert_eq!(pallet.set_partial_params(Ok(()), no_change()), Ok(()));
    assert_eq!(lists(&pallet.params), wanted);
}

#[test]
fn partial_slices_never_grow() {
    let mut base = vec![1, 2];
    set_partial_params_slice(&mut base, &vec![None, Some(9), Some(8)]);
    assert_eq!(base, vec![1, 9]);
    let mut empty: Vec<u64> = vec![];
    set_partial_params_slice(&mut empty, &vec![Some(9)]);
    assert!(empty.is_empty());
}

#[test]
fn default_partial_parameters_name_nothing() {
    let none = PartialParamsOf::default();
    assert!(none.active_salary.is_empty());
    assert!(none.passive_salary.is_empty());
    assert!(none.demotion_period.is_empty());
    assert!(none.min_promotion_period.is_empty());
    assert_eq!(none.offboard_timeout, None);
    let mut changed = params();
    changed.update(&none);
    assert_eq!(lists(&changed), lists(&params()));
}

#[test]
fn a_copy_of_the_parameters_holds_the_same() {
    assert_eq!(lists(&params().duplicate()), lists(&params()));
    assert_eq!(lists(&ParamsOf::default()), (vec![], vec![], vec![], vec![], 0));
}

#[test]
fn activity_decides_the_salary() {
    let mut pallet = fellowship_with(1, 2);
    assert_eq!(pallet.get_salary(2, 1), 20);
    assert_eq!(pallet.set_active(signed(1), false), Ok(()));
    assert_eq!(pallet.member[&1], status(false, 0, 100));
    assert_eq!(pallet.get_salary(2, 1), 2);
    assert_eq!(pallet.get_salary(9, 1), 9);
    assert_eq!(pallet.set_active(signed(1), true), Ok(()));
    assert_eq!(pallet.get_salary(9, 1), 90);
    assert_eq!(take_events(&mut pallet), vec!["active 1 false", "active 1 true"]);
    // Outside of the ranks, or untracked, there is no salary.
    assert_eq!(pallet.get_salary(0, 1), 0);
    assert_eq!(pallet.get_salary(10, 1), 0);
    assert_eq!(pallet.get_salary(2, 3), 0);
}

#[test]
fn set_active_refuses_candidates_and_strangers() {
    let mut pallet = fellowship_with(1, 0);
    assert_eq!(pallet.set_active(Origin::Root, true), Err(DispatchError::BadOrigin));
    assert_eq!(pallet.set_active(signed(1), true), Err(module(Error::Unranked)));
    assert_eq!(pallet.set_active(signed(2), true), Err(module(Error::Unranked)));
    pallet.runtime.ranks.insert(2, 1);
    assert_eq!(pallet.set_active(signed(2), true), Err(module(Error::NotTracked)));
    assert!(pallet.events.is_empty());
}

#[test]
fn approval_refuses_in_order() {
    let mut pallet = fellowship_with(1, 3);
    assert_eq!(pallet.approve(Err(signed(5)), 1, 3), Err(DispatchError::BadOrigin));
    assert_eq!(pallet.approve(Ok(2), 1, 3), Err(module(Error::NoPermission)));
    assert_eq!(pallet.approve(ROOT, 1, 0), Err(module(Error::InvalidRank)));
    assert_eq!(pallet.approve(Ok(9), 2, 3), Err(module(Error::Unranked)));
    assert_eq!(pallet.approve(Ok(9), 1, 2), Err(module(Error::UnexpectedRank)));
    pallet.runtime.ranks.insert(2, 3);
    assert_eq!(pallet.approve(ROOT, 2, 3), Err(module(Error::NotTracked)));
    assert!(pallet.events.is_empty());
    pallet.block_number = 105;
    assert_eq!(pallet.approve(Ok(3), 1, 3), Ok(()));
    assert_eq!(pallet.member[&1], status(true, 0, 105));
    // The approval postpones the demotion by a whole period.
    pallet.block_number = 110;
    assert_eq!(pallet.bump(signed(2), 1), Err(module(Error::NothingDoing)));
    pallet.block_number = 111;
    assert_eq!(pallet.bump(signed(2), 1), Ok(Pays::No));
    assert_eq!(take_events(&mut pallet), vec!["proven 1 3", "demoted 1 2"]);
}

#[test]
fn candidates_are_never_approved() {
    let mut pallet = fellowship_with(1, 0);
    for at_rank in 0..12 {
        assert!(pallet.approve(ROOT, 1, at_rank).is_err());
        assert!(pallet.approve(Ok(9), 1, at_rank).is_err());
    }
}

#[test]
fn induction_refuses_in_order() {
    let mut pallet = fellowship();
    assert_eq!(pallet.induct(Err(signed(2)), 1), Err(DispatchError::BadOrigin));
    pallet.runtime.ranks.insert(3, 0);
    assert_eq!(pallet.induct(Err(Origin::Root), 3), Err(module(Error::Ranked)));
    pallet.runtime.closed = true;
    assert_eq!(pallet.induct(Ok(()), 1), Err(DispatchError::Members(ClubError::Closed)));
    assert!(pallet.member.is_empty());
    pallet.runtime.closed = false;
    assert_eq!(pallet.induct(Err(Origin::Root), 1), Ok(()));
    assert_eq!(pallet.induct(Ok(()), 1), Err(module(Error::AlreadyInducted)));
    assert_eq!(pallet.import(signed(1)), Err(module(Error::AlreadyInducted)));
    assert_eq!(take_events(&mut pallet), vec!["inducted 1"]);
}

#[test]
fn promotion_refuses_in_order() {
    let mut pallet = fellowship_with(1, 1);
    assert_eq!(pallet.promote(Err(Origin::Other), 1, 2), Err(DispatchError::BadOrigin));
    assert_eq!(pallet.promote(Ok(1), 1, 2), Err(module(Error::NoPermission)));
    assert_eq!(pallet.promote(ROOT, 2, 2), Err(module(Error::Unranked)));
    assert_eq!(pallet.promote(ROOT, 1, 3), Err(module(Error::UnexpectedRank)));
    assert_eq!(pallet.promote(ROOT, 1, 1), Err(module(Error::UnexpectedRank)));
    pallet.runtime.ranks.insert(2, u16::MAX);
    assert_eq!(pallet.promote(ROOT, 2, 0), Err(module(Error::UnexpectedRank)));
    pallet.runtime.ranks.insert(2, 1);
    assert_eq!(pallet.promote(ROOT, 2, 2), Err(module(Error::NotTracked)));
    pallet.runtime.closed = true;
    assert_eq!(pallet.promote(ROOT, 1, 2), Err(DispatchError::Members(ClubError::Closed)));
    assert_eq!(pallet.member[&1], status(true, 0, 100));
    pallet.runtime.closed = false;
    // An imported member may be promoted at once; then the period of the next rank runs.
    assert_eq!(pallet.promote(Ok(2), 1, 2), Ok(()));
    assert_eq!(pallet.member[&1], status(true, 100, 100));
    pallet.block_number = 108;
    assert_eq!(pallet.promote(ROOT, 1, 3), Err(module(Error::TooSoon)));
    pallet.block_number = 109;
    assert_eq!(pallet.promote(ROOT, 1, 3), Ok(()));
    pallet.runtime.ranks.insert(1, 9);
    assert_eq!(pallet.promote(ROOT, 1, 10), Err(module(Error::InvalidRank)));
    assert_eq!(take_events(&mut pallet), vec!["promoted 1 2", "promoted 1 3"]);
}

#[test]
fn promotion_blocks_saturate() {
    let mut pallet = fellowship_with(1, 0);
    pallet.member.insert(1, status(true, u64::MAX - 1, 0));
    pallet.block_number = u64::MAX - 1;
    assert_eq!(pallet.promote(ROOT, 1, 1), Err(module(Error::TooSoon)));
    pallet.block_number = u64::MAX;
    assert_eq!(pallet.promote(ROOT, 1, 1), Ok(()));
}

#[test]
fn fast_promotion_takes_every_rank_on_the_way() {
    let mut pallet = fellowship_with(1, 1);
    pallet.submit_evidence(signed(1), Wish::Promotion, evidence(&[1])).unwrap();
    pallet.block_number = 101;
    assert_eq!(pallet.promote_fast(Ok(4), 1, 4), Ok(()));
    assert_eq!(pallet.runtime.rank_of(1), Some(4));
    assert_eq!(pallet.member[&1], status(true, 101, 101));
    assert!(pallet.member_evidence.is_empty());
    assert_eq!(
        take_events(&mut pallet),
        vec![
            "requested 1 Promotion",
            "judged 1 Promotion [1] 1 Some(2)",
            "promoted 1 2",
            "promoted 1 3",
            "promoted 1 4",
        ]
    );
}

#[test]
fn fast_promotion_refuses_in_order() {
    let mut pallet = fellowship_with(1, 1);
    assert_eq!(pallet.promote_fast(Err(signed(1)), 1, 3), Err(DispatchError::BadOrigin));
    assert_eq!(pallet.promote_fast(Ok(2), 1, 3), Err(module(Error::NoPermission)));
    assert_eq!(pallet.promote_fast(ROOT, 1, 10), Err(module(Error::InvalidRank)));
    assert_eq!(pallet.promote_fast(ROOT, 2, 3), Err(module(Error::Unranked)));
    assert_eq!(pallet.promote_fast(ROOT, 1, 1), Err(module(Error::UnexpectedRank)));
    assert_eq!(pallet.promote_fast(ROOT, 1, 0), Err(module(Error::UnexpectedRank)));
    pallet.runtime.ranks.insert(2, 1);
    assert_eq!(pallet.promote_fast(ROOT, 2, 3), Err(module(Error::NotTracked)));
    assert!(pallet.events.is_empty());
    assert_eq!(pallet.promote_fast(ROOT, 1, 9), Ok(()));
    assert_eq!(pallet.runtime.rank_of(1), Some(9));
}

#[test]
fn fast_promotion_ends_at_the_first_refusal() {
    let mut pallet = fellowship_with(1, 1);
    pallet.runtime.top = 3;
    pallet.block_number = 103;
    assert_eq!(
        pallet.promote_fast(ROOT, 1, 5),
        Err(DispatchError::Members(ClubError::AtTheTop))
    );
    assert_eq!(pallet.runtime.rank_of(1), Some(3));
    assert_eq!(pallet.member[&1], status(true, 103, 103));
    assert_eq!(take_events(&mut pallet), vec!["promoted 1 2", "promoted 1 3"]);
}

#[test]
fn offboarding_needs_an_unranked_tracked_account() {
    let mut pallet = fellowship_with(1, 2);
    pallet.submit_evidence(signed(1), Wish::Retention, evidence(&[3])).unwrap();
    pallet.events.clear();
    assert_eq!(pallet.offboard(Origin::Root, 1), Err(DispatchError::BadOrigin));
    assert_eq!(pallet.offboard(signed(5), 1), Err(module(Error::Ranked)));
    assert_eq!(pallet.offboard(signed(5), 2), Err(module(Error::NotTracked)));
    pallet.runtime.ranks.remove(&1);
    assert_eq!(pallet.offboard(signed(5), 1), Ok(Pays::No));
    assert!(pallet.member.is_empty());
    assert!(pallet.member_evidence.is_empty());
    assert_eq!(take_events(&mut pallet), vec!["offboarded 1"]);
    assert_eq!(
        pallet.submit_evidence(signed(1), Wish::Retention, evidence(&[3])),
        Err(module(Error::NotTracked))
    );
    // The account may enter again.
    assert_eq!(pallet.induct(Ok(()), 1), Ok(()));
}

#[test]
fn evidence_is_free_until_it_is_replaced() {
    let mut pallet = fellowship_with(1, 1);
    assert_eq!(
        pallet.submit_evidence(Origin::Root, Wish::Promotion, evidence(&[])),
        Err(DispatchError::BadOrigin)
    );
    assert_eq!(
        pallet.submit_evidence(signed(2), Wish::Promotion, evidence(&[])),
        Err(module(Error::NotTracked))
    );
    // A tracked account that has lost its rank hands in nothing.
    pallet.runtime.ranks.remove(&1);
    assert_eq!(
        pallet.submit_evidence(signed(1), Wish::Promotion, evidence(&[1])),
        Err(module(Error::Unranked))
    );
    assert!(pallet.member_evidence.is_empty());
    assert!(pallet.events.is_empty());
    pallet.runtime.ranks.insert(1, 1);
    assert_eq!(
        pallet.submit_evidence(signed(1), Wish::Promotion, evidence(&[1])),
        Ok(Pays::No)
    );
    assert_eq!(
        pallet.submit_evidence(signed(1), Wish::Retention, evidence(&[2])),
        Ok(Pays::Yes)
    );
    assert_eq!(pallet.member_evidence[&1], (Wish::Retention, evidence(&[2])));
    assert_eq!(pallet.approve(ROOT, 1, 1), Ok(()));
    assert_eq!(
        pallet.submit_evidence(signed(1), Wish::Promotion, evidence(&[3])),
        Ok(Pays::No)
    );
    assert_eq!(
        take_events(&mut pallet),
        vec![
            "requested 1 Promotion",
            "requested 1 Retention",
            "judged 1 Retention [2] 1 Some(1)",
            "proven 1 1",
            "requested 1 Promotion",
        ]
    );
}

#[test]
fn an_imported_member_may_be_promoted_once_the_chain_is_old_enough() {
    let mut pallet = fellowship();
    pallet.runtime.ranks.insert(1, 0);
    assert_eq!(pallet.import(signed(1)), Ok(Pays::No));
    pallet.block_number = 2;
    assert_eq!(pallet.promote(Ok(1), 1, 1), Err(module(Error::TooSoon)));
    pallet.block_number = 3;
    assert_eq!(pallet.promote(Ok(1), 1, 1), Ok(()));
}

#[test]
fn imports_take_ranked_untracked_accounts() {
    let mut pallet = fellowship();
    pallet.block_number = 42;
    pallet.runtime.ranks.insert(1, 0);
    pallet.runtime.ranks.insert(2, 5);
    assert_eq!(pallet.import(Origin::Root), Err(DispatchError::BadOrigin));
    assert_eq!(pallet.import_member(Origin::Other, 2), Err(DispatchError::BadOrigin));
    assert_eq!(pallet.import(signed(3)), Err(module(Error::Unranked)));
    assert_eq!(pallet.import_member(signed(3), 4), Err(module(Error::Unranked)));
    assert_eq!(pallet.import(signed(1)), Ok(Pays::No));
    assert_eq!(pallet.import_member(signed(3), 2), Ok(Pays::No));
    assert_eq!(pallet.member[&1], status(true, 0, 42));
    assert_eq!(pallet.member[&2], status(true, 0, 42));
    assert_eq!(pallet.import_member(signed(3), 2), Err(module(Error::AlreadyInducted)));
    assert_eq!(pallet.induct(Ok(()), 2), Err(module(Error::AlreadyInducted)));
    assert_eq!(take_events(&mut pallet), vec!["imported 1 0", "imported 2 5"]);
    pallet.runtime.ranks.insert(6, 1);
    pallet.ensure_member(6);
    assert!(pallet.member.contains_key(&6));
    assert_eq!(pallet.do_import(6), Err(module(Error::AlreadyInducted)));
}

#[test]
fn a_swap_hands_on_record_and_evidence() {
    let mut pallet = fellowship_with(1, 2);
    pallet.submit_evidence(signed(1), Wish::Retention, evidence(&[9])).unwrap();
    pallet.events.clear();
    pallet.swapped(1, 1, 2);
    pallet.swapped(5, 6, 2);
    assert!(pallet.events.is_empty());
    pallet.swapped(1, 2, 2);
    assert!(!pallet.member.contains_key(&1));
    assert_eq!(pallet.member[&2], status(true, 0, 100));
    assert!(!pallet.member_evidence.contains_key(&1));
    assert_eq!(pallet.member_evidence[&2], (Wish::Retention, evidence(&[9])));
    // There and back again.
    pallet.swapped(2, 1, 2);
    assert_eq!(pallet.member[&1], status(true, 0, 100));
    assert_eq!(pallet.member_evidence[&1], (Wish::Retention, evidence(&[9])));
    assert_eq!(pallet.member.len(), 1);
    assert_eq!(take_events(&mut pallet), vec!["swapped 1 2", "swapped 2 1"]);
    // A record in the way stops the swap.
    pallet.runtime.ranks.insert(3, 1);
    pallet.do_import(3).unwrap();
    pallet.events.clear();
    pallet.swapped(1, 3, 2);
    assert!(pallet.member.contains_key(&1));
    assert!(pallet.events.is_empty());
}

#[test]
fn ranks_become_places_in_the_lists() {
    assert_eq!(Pallet::<Club>::rank_to_index(0), None);
    assert_eq!(Pallet::<Club>::rank_to_index(1), Some(0));
    assert_eq!(Pallet::<Club>::rank_to_index(9), Some(8));
    assert_eq!(Pallet::<Club>::rank_to_index(10), None);
    assert_eq!(ConvertU16ToU32 { inner: 65535 }.get(), 65535);
}

#[test]
fn permission_reaches_up_to_a_rank() {
    let passed: Result<(), Failure> = ensure_permitted(Ok(3), 3);
    assert_eq!(passed, Ok(()));
    let passed: Result<(), Failure> = ensure_permitted(Ok(3), 4);
    assert_eq!(passed, Err(module(Error::NoPermission)));
    let passed: Result<(), Failure> = ensure_permitted(ROOT, 9);
    assert_eq!(passed, Ok(()));
    let passed: Result<(), Failure> = ensure_permitted(Err(Origin::Other), 0);
    assert_eq!(passed, Err(DispatchError::BadOrigin));
}

#[test]
fn the_guard_passes_the_inducted_of_sufficient_rank() {
    let mut pallet = fellowship_with(1, 3);
    pallet.runtime.ranks.insert(2, 5);
    assert_eq!(EnsureInducted::<3>::try_origin(&pallet, signed(1)), Ok(1));
    assert_eq!(EnsureInducted::<0>::try_origin(&pallet, signed(1)), Ok(1));
    assert_eq!(EnsureInducted::<4>::try_origin(&pallet, signed(1)), Err(signed(1)));
    assert_eq!(EnsureInducted::<3>::try_origin(&pallet, signed(2)), Err(signed(2)));
    assert_eq!(EnsureInducted::<0>::try_origin(&pallet, signed(7)), Err(signed(7)));
    assert_eq!(EnsureInducted::<0>::try_origin(&pallet, Origin::Root), Err(Origin::Root));
}

#[test]
fn an_account_is_brought_up_to_the_guarded_rank() {
    let mut pallet = fellowship();
    assert_eq!(EnsureInducted::<4>::try_successful_origin(&mut pallet, 8), Ok(signed(8)));
    assert_eq!(pallet.runtime.rank_of(8), Some(4));
    assert_eq!(EnsureInducted::<2>::try_successful_origin(&mut pallet, 8), Ok(signed(8)));
    assert_eq!(pallet.runtime.rank_of(8), Some(4));
    pallet.runtime.top = 4;
    assert_eq!(EnsureInducted::<6>::try_successful_origin(&mut pallet, 8), Err(()));
    pallet.runtime.closed = true;
    assert_eq!(EnsureInducted::<0>::try_successful_origin(&mut pallet, 9), Err(()));
}

#[test]
fn results_of_the_membership_can_be_recorded_on_their_own() {
    let mut pallet = fellowship();
    assert_eq!(pallet.check_induct(Ok(()), 1, None), Ok(()));
    pallet.record_induction(1);
    pallet.block_number = 4;
    assert_eq!(pallet.check_promote(ROOT, 1, 1, Some(0)), Ok((status(true, 4, 4), 0)));
    pallet.record_promotion(1, status(true, 4, 4), 0, 1);
    pallet.block_number = 6;
    assert_eq!(pallet.check_bump(signed(2), 1, Some(1)), Ok(1));
    pallet.record_demotion(1, 1, Some(0));
    assert_eq!(pallet.check_promote_fast(ROOT, 1, 3, Some(0)), Ok((status(true, 6, 6), 0)));
    assert_eq!(pallet.set_active_at(1, Some(1), false), Ok(()));
    assert_eq!(pallet.approve_at(ROOT, 1, 1, Some(1)), Ok(()));
    assert_eq!(pallet.import_at(2, Some(3)), Ok(()));
    assert_eq!(
        pallet.submit_evidence_at(signed(2), None, Wish::Promotion, evidence(&[5])),
        Err(module(Error::Unranked))
    );
    assert_eq!(
        pallet.submit_evidence_at(signed(2), Some(0), Wish::Promotion, evidence(&[5])),
        Ok(Pays::No)
    );
    assert_eq!(EnsureInducted::<3>::try_origin_at(&pallet, signed(2), Some(3)), Ok(2));
    assert_eq!(pallet.offboard_at(signed(1), 2, None), Ok(Pays::No));
    assert_eq!(
        take_events(&mut pallet),
        vec![
            "inducted 1",
            "promoted 1 1",
            "demoted 1 0",
            "active 1 false",
            "proven 1 1",
            "imported 2 3",
            "requested 2 Promotion",
            "offboarded 2",
        ]
    );
}
