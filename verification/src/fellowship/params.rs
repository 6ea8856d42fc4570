//! The parameters of the fellowship: salaries and periods, one entry for each rank above zero.

use frame_support::traits::ConstU32;
use frame_support::BoundedVec;
use vstd::prelude::*;

verus! {

/// The type in which salaries are measured.
pub type Balance = u128;

/// The number of a block.
pub type BlockNumber = u64;

/// The bound on the lists of parameters: one entry for each rank that a `u16` can hold, but zero.
pub type Ranks = ConstU32<65535>;

/// `frame_support::BoundedVec`, a vector that never outgrows the bound its type names.
#[verifier::external_type_specification]
#[verifier::external_body]
#[verifier::reject_recursive_types(T)]
#[verifier::reject_recursive_types(S)]
pub struct ExBoundedVec<T, S>(BoundedVec<T, S>);

/// `frame_support::traits::ConstU32`, a number as a type.
#[verifier::external_type_specification]
#[verifier::external_body]
pub struct ExConstU32<const T: u32>(ConstU32<T>);

/// The salaries that a bounded list holds, in order.
pub uninterp spec fn salary_list(list: BoundedVec<u128, ConstU32<65535>>) -> Seq<u128>;

/// The periods that a bounded list holds, in order.
pub uninterp spec fn period_list(list: BoundedVec<u64, ConstU32<65535>>) -> Seq<u64>;

/// The new salaries that a bounded list holds, in order.
pub uninterp spec fn partial_salary_list(list: BoundedVec<Option<u128>, ConstU32<65535>>) -> Seq<
    Option<u128>,
>;

/// The new periods that a bounded list holds, in order.
pub uninterp spec fn partial_period_list(list: BoundedVec<Option<u64>, ConstU32<65535>>) -> Seq<
    Option<u64>,
>;

/// `Deref::deref` of `BoundedVec`: the vector inside, which is no longer than the bound.
#[verifier::external_body]
pub(crate) fn salaries(list: &BoundedVec<u128, Ranks>) -> (items: &Vec<u128>)
    ensures
        items@ == salary_list(*list),
        items@.len() <= 65535,
{
    core::ops::Deref::deref(list)
}

/// `Deref::deref` of `BoundedVec`: the vector inside, which is no longer than the bound.
#[verifier::external_body]
pub(crate) fn periods(list: &BoundedVec<u64, Ranks>) -> (items: &Vec<u64>)
    ensures
        items@ == period_list(*list),
        items@.len() <= 65535,
{
    core::ops::Deref::deref(list)
}

/// `Deref::deref` of `BoundedVec`: the vector inside.
#[verifier::external_body]
pub(crate) fn partial_salaries(list: &BoundedVec<Option<u128>, Ranks>) -> (items: &Vec<
    Option<u128>,
>)
    ensures
        items@ == partial_salary_list(*list),
{
    core::ops::Deref::deref(list)
}

/// `Deref::deref` of `BoundedVec`: the vector inside.
#[verifier::external_body]
pub(crate) fn partial_periods(list: &BoundedVec<Option<u64>, Ranks>) -> (items: &Vec<Option<u64>>)
    ensures
        items@ == partial_period_list(*list),
{
    core::ops::Deref::deref(list)
}

/// `TryFrom<Vec<_>>::try_from` of `BoundedVec`: the bounded list of the same items where they fit
/// the bound, and the vector back where they do not.
#[verifier::external_body]
pub(crate) fn bound_salaries(items: Vec<u128>) -> (list: Result<
    BoundedVec<u128, Ranks>,
    Vec<u128>,
>)
    ensures
        list is Ok <==> items@.len() <= 65535,
        list matches Ok(bounded) ==> salary_list(bounded) == items@,
        list matches Err(rejected) ==> rejected == items,
{
    BoundedVec::try_from(items)
}

/// `TryFrom<Vec<_>>::try_from` of `BoundedVec`: the bounded list of the same items where they fit
/// the bound, and the vector back where they do not.
#[verifier::external_body]
pub(crate) fn bound_periods(items: Vec<u64>) -> (list: Result<BoundedVec<u64, Ranks>, Vec<u64>>)
    ensures
        list is Ok <==> items@.len() <= 65535,
        list matches Ok(bounded) ==> period_list(bounded) == items@,
        list matches Err(rejected) ==> rejected == items,
{
    BoundedVec::try_from(items)
}

/// `TryFrom<Vec<_>>::try_from` of `BoundedVec`: the bounded list of the same items where they fit
/// the bound, and the vector back where they do not.
#[verifier::external_body]
pub(crate) fn bound_partial_salaries(items: Vec<Option<u128>>) -> (list: Result<
    BoundedVec<Option<u128>, Ranks>,
    Vec<Option<u128>>,
>)
    ensures
        list is Ok <==> items@.len() <= 65535,
        list matches Ok(bounded) ==> partial_salary_list(bounded) == items@,
        list matches Err(rejected) ==> rejected == items,
{
    BoundedVec::try_from(items)
}

/// `TryFrom<Vec<_>>::try_from` of `BoundedVec`: the bounded list of the same items where they fit
/// the bound, and the vector back where they do not.
#[verifier::external_body]
pub(crate) fn bound_partial_periods(items: Vec<Option<u64>>) -> (list: Result<
    BoundedVec<Option<u64>, Ranks>,
    Vec<Option<u64>>,
>)
    ensures
        list is Ok <==> items@.len() <= 65535,
        list matches Ok(bounded) ==> partial_period_list(bounded) == items@,
        list matches Err(rejected) ==> rejected == items,
{
    BoundedVec::try_from(items)
}

/// The parameters of the fellowship.
#[verifier::reject_recursive_types(Bal)]
#[verifier::reject_recursive_types(Block)]
#[verifier::reject_recursive_types(Bound)]
pub struct ParamsType<Bal, Block, Bound> {
    /// The amounts to be paid when a member of a given rank (-1) is active.
    pub active_salary: BoundedVec<Bal, Bound>,
    /// The amounts to be paid when a member of a given rank (-1) is passive.
    pub passive_salary: BoundedVec<Bal, Bound>,
    /// The period between which unproven members become demoted.
    pub demotion_period: BoundedVec<Block, Bound>,
    /// The period between which members must wait before they may proceed to this rank.
    pub min_promotion_period: BoundedVec<Block, Bound>,
    /// Amount by which an account can remain at rank 0 (candidate before being offboard entirely).
    pub offboard_timeout: Block,
}

/// Complete parameters.
pub type ParamsOf = ParamsType<Balance, BlockNumber, Ranks>;

/// New values for some of the parameters.
pub type PartialParamsOf = ParamsType<Option<Balance>, Option<BlockNumber>, Ranks>;

/// What the parameters hold.
#[verifier::ext_equal]
pub struct ParamsView {
    pub active_salary: Seq<Balance>,
    pub passive_salary: Seq<Balance>,
    pub demotion_period: Seq<BlockNumber>,
    pub min_promotion_period: Seq<BlockNumber>,
    pub offboard_timeout: BlockNumber,
}

/// What a partial set of parameters holds.
#[verifier::ext_equal]
pub struct PartialParamsView {
    pub active_salary: Seq<Option<Balance>>,
    pub passive_salary: Seq<Option<Balance>>,
    pub demotion_period: Seq<Option<BlockNumber>>,
    pub min_promotion_period: Seq<Option<BlockNumber>>,
    pub offboard_timeout: Option<BlockNumber>,
}

impl View for ParamsType<Balance, BlockNumber, Ranks> {
    type V = ParamsView;

    open spec fn view(&self) -> ParamsView {
        ParamsView {
            active_salary: salary_list(self.active_salary),
            passive_salary: salary_list(self.passive_salary),
            demotion_period: period_list(self.demotion_period),
            min_promotion_period: period_list(self.min_promotion_period),
            offboard_timeout: self.offboard_timeout,
        }
    }
}

impl View for ParamsType<Option<Balance>, Option<BlockNumber>, Ranks> {
    type V = PartialParamsView;

    open spec fn view(&self) -> PartialParamsView {
        PartialParamsView {
            active_salary: partial_salary_list(self.active_salary),
            passive_salary: partial_salary_list(self.passive_salary),
            demotion_period: partial_period_list(self.demotion_period),
            min_promotion_period: partial_period_list(self.min_promotion_period),
            offboard_timeout: self.offboard_timeout,
        }
    }
}

/// `base` with every entry replaced for which `new` has a value at the same place.
pub open spec fn partially_updated<S>(base: Seq<S>, new: Seq<Option<S>>) -> Seq<S> {
    Seq::new(
        base.len(),
        |i: int|
            if i < new.len() && new[i] is Some {
                new[i]->Some_0
            } else {
                base[i]
            },
    )
}

impl ParamsView {
    /// Parameters without any entry.
    pub open spec fn none() -> ParamsView {
        ParamsView {
            active_salary: seq![],
            passive_salary: seq![],
            demotion_period: seq![],
            min_promotion_period: seq![],
            offboard_timeout: 0,
        }
    }

    /// These parameters with the values of `new` where it has one.
    pub open spec fn updated(self, new: PartialParamsView) -> ParamsView {
        ParamsView {
            active_salary: partially_updated(self.active_salary, new.active_salary),
            passive_salary: partially_updated(self.passive_salary, new.passive_salary),
            demotion_period: partially_updated(self.demotion_period, new.demotion_period),
            min_promotion_period: partially_updated(
                self.min_promotion_period,
                new.min_promotion_period,
            ),
            offboard_timeout: match new.offboard_timeout {
                Some(timeout) => timeout,
                None => self.offboard_timeout,
            },
        }
    }

    /// Whether no list is longer than there are ranks above zero.
    pub open spec fn fits(self, max_rank: u16) -> bool {
        &&& self.active_salary.len() <= max_rank
        &&& self.passive_salary.len() <= max_rank
        &&& self.demotion_period.len() <= max_rank
        &&& self.min_promotion_period.len() <= max_rank
    }
}

impl PartialParamsView {
    /// No new value at all.
    pub open spec fn none() -> PartialParamsView {
        PartialParamsView {
            active_salary: seq![],
            passive_salary: seq![],
            demotion_period: seq![],
            min_promotion_period: seq![],
            offboard_timeout: None,
        }
    }
}

/// Replaces the entries of `base` for which `new` has a value at the same place.
pub fn set_partial_params_slice<S: Copy>(base: &mut Vec<S>, new: &Vec<Option<S>>)
    ensures
        final(base)@ == partially_updated(old(base)@, new@),
{
    let ghost before = base@;
    let mut i: usize = 0;
    while i < base.len() && i < new.len()
        invariant
            base@.len() == before.len(),
            i <= base@.len(),
            i <= new@.len(),
            forall|j: int|
                0 <= j < before.len() ==> base@[j] == (if j < i {
                    partially_updated(before, new@)[j]
                } else {
                    before[j]
                }),
        decreases base@.len() - i,
    {
        if let Some(element) = new[i] {
            base.set(i, element);
        }
        i = i + 1;
    }
    assert(base@ =~= partially_updated(before, new@));
}

fn copy_items<S: Copy>(items: &Vec<S>) -> (copy: Vec<S>)
    ensures
        copy@ == items@,
{
    vstd::slice::slice_to_vec(items.as_slice())
}

fn copy_salaries(list: &BoundedVec<Balance, Ranks>) -> (copy: BoundedVec<Balance, Ranks>)
    ensures
        salary_list(copy) == salary_list(*list),
{
    bound_salaries(copy_items(salaries(list))).unwrap()
}

fn copy_periods(list: &BoundedVec<BlockNumber, Ranks>) -> (copy: BoundedVec<BlockNumber, Ranks>)
    ensures
        period_list(copy) == period_list(*list),
{
    bound_periods(copy_items(periods(list))).unwrap()
}

fn update_salaries(base: &mut BoundedVec<Balance, Ranks>, new: &BoundedVec<Option<Balance>, Ranks>)
    ensures
        salary_list(*final(base)) == partially_updated(
            salary_list(*old(base)),
            partial_salary_list(*new),
        ),
{
    let mut items: Vec<Balance> = copy_items(salaries(base));
    set_partial_params_slice(&mut items, partial_salaries(new));
    *base = bound_salaries(items).unwrap();
}

fn update_periods(
    base: &mut BoundedVec<BlockNumber, Ranks>,
    new: &BoundedVec<Option<BlockNumber>, Ranks>,
)
    ensures
        period_list(*final(base)) == partially_updated(
            period_list(*old(base)),
            partial_period_list(*new),
        ),
{
    let mut items: Vec<BlockNumber> = copy_items(periods(base));
    set_partial_params_slice(&mut items, partial_periods(new));
    *base = bound_periods(items).unwrap();
}

impl Default for ParamsType<Balance, BlockNumber, Ranks> {
    /// Parameters without any entry.
    fn default() -> (params: Self)
        ensures
            params@ == ParamsView::none(),
    {
        let params = ParamsType {
            active_salary: bound_salaries(Vec::new()).unwrap(),
            passive_salary: bound_salaries(Vec::new()).unwrap(),
            demotion_period: bound_periods(Vec::new()).unwrap(),
            min_promotion_period: bound_periods(Vec::new()).unwrap(),
            offboard_timeout: 0,
        };
        assert(params@ =~= ParamsView::none());
        params
    }
}

impl Default for ParamsType<Option<Balance>, Option<BlockNumber>, Ranks> {
    /// No new value at all.
    fn default() -> (params: Self)
        ensures
            params@ == PartialParamsView::none(),
    {
        let params = ParamsType {
            active_salary: bound_partial_salaries(Vec::new()).unwrap(),
            passive_salary: bound_partial_salaries(Vec::new()).unwrap(),
            demotion_period: bound_partial_periods(Vec::new()).unwrap(),
            min_promotion_period: bound_partial_periods(Vec::new()).unwrap(),
            offboard_timeout: None,
        };
        assert(params@ =~= PartialParamsView::none());
        params
    }
}

impl ParamsType<Balance, BlockNumber, Ranks> {
    /// Another copy of the parameters.
    pub fn duplicate(&self) -> (copy: Self)
        ensures
            copy@ == self@,
    {
        ParamsType {
            active_salary: copy_salaries(&self.active_salary),
            passive_salary: copy_salaries(&self.passive_salary),
            demotion_period: copy_periods(&self.demotion_period),
            min_promotion_period: copy_periods(&self.min_promotion_period),
            offboard_timeout: self.offboard_timeout,
        }
    }

    /// Whether no list is longer than there are ranks above zero.
    pub fn fits_ranks(&self, max_rank: u16) -> (fits: bool)
        ensures
            fits == self@.fits(max_rank),
    {
        let most: usize = max_rank as usize;
        salaries(&self.active_salary).len() <= most && salaries(&self.passive_salary).len() <= most
            && periods(&self.demotion_period).len() <= most && periods(
            &self.min_promotion_period,
        ).len() <= most
    }

    /// Takes over the values of `new` where it has one.
    pub fn update(&mut self, new: &PartialParamsOf)
        ensures
            final(self)@ == old(self)@.updated(new@),
    {
        update_salaries(&mut self.active_salary, &new.active_salary);
        update_salaries(&mut self.passive_salary, &new.passive_salary);
        update_periods(&mut self.demotion_period, &new.demotion_period);
        update_periods(&mut self.min_promotion_period, &new.min_promotion_period);
        if let Some(new_offboard_timeout) = new.offboard_timeout {
            self.offboard_timeout = new_offboard_timeout;
        }
    }
}

} // verus!
