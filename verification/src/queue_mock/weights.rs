//! Weights, their metering, and weight functions whose values a test sets.

use vstd::prelude::*;

verus! {

/// How much of each resource something takes.
#[derive(Debug, Clone, Copy, PartialEq, Eq, Structural)]
pub struct Weight {
    /// The weight of computational time used based on some reference hardware.
    pub ref_time: u64,
    /// The weight of storage space used by proof of validity.
    pub proof_size: u64,
}

impl Weight {
    /// The weight of the given parts.
    pub fn from_parts(ref_time: u64, proof_size: u64) -> (weight: Weight)
        ensures
            weight == (Weight { ref_time, proof_size }),
    {
        Weight { ref_time, proof_size }
    }

    /// No weight at all.
    pub fn zero() -> (weight: Weight)
        ensures
            weight == (Weight { ref_time: 0, proof_size: 0 }),
    {
        Weight { ref_time: 0, proof_size: 0 }
    }

    /// Whether no part is larger than that of `limit`.
    pub open spec fn within(self, limit: Weight) -> bool {
        self.ref_time <= limit.ref_time && self.proof_size <= limit.proof_size
    }
}

/// What is consumed once `required` is taken on top of `consumed`, if the limit allows it.
pub open spec fn after_consuming(consumed: Weight, limit: Weight, required: Weight) -> Option<
    Weight,
> {
    if consumed.ref_time + required.ref_time <= limit.ref_time && consumed.proof_size
        + required.proof_size <= limit.proof_size {
        Some(
            Weight {
                ref_time: (consumed.ref_time + required.ref_time) as u64,
                proof_size: (consumed.proof_size + required.proof_size) as u64,
            },
        )
    } else {
        None
    }
}

/// `frame_support::weights::WeightMeter::try_consume` on a meter of the given consumption and
/// limit: the consumption afterwards, where the meter lets `required` pass.
#[verifier::external_body]
fn meter_try_consume(consumed: Weight, limit: Weight, required: Weight) -> (after: Option<Weight>)
    ensures
        after == after_consuming(consumed, limit, required),
{
    let mut meter = frame_support::weights::WeightMeter::with_consumed_and_limit(
        frame_support::weights::Weight::from_parts(consumed.ref_time, consumed.proof_size),
        frame_support::weights::Weight::from_parts(limit.ref_time, limit.proof_size),
    );
    let asked = frame_support::weights::Weight::from_parts(required.ref_time, required.proof_size);
    match meter.try_consume(asked) {
        Ok(()) => Some(
            Weight {
                ref_time: meter.consumed().ref_time(),
                proof_size: meter.consumed().proof_size(),
            },
        ),
        Err(()) => None,
    }
}

/// Meters consumed weight and a hard limit for the maximal consumable weight.
#[derive(Debug, Clone, Copy, PartialEq, Eq, Structural)]
pub struct WeightMeter {
    /// The already consumed weight.
    pub consumed: Weight,
    /// The maximal consumable weight.
    pub limit: Weight,
}

impl WeightMeter {
    /// A meter that has consumed nothing yet.
    pub fn with_limit(limit: Weight) -> (meter: WeightMeter)
        ensures
            meter.consumed == (Weight { ref_time: 0, proof_size: 0 }),
            meter.limit == limit,
    {
        WeightMeter { consumed: Weight::zero(), limit }
    }

    /// The meter after `required` was consumed, if the limit allows it.
    pub open spec fn consuming(self, required: Weight) -> Option<WeightMeter> {
        match after_consuming(self.consumed, self.limit, required) {
            Some(consumed) => Some(WeightMeter { consumed, limit: self.limit }),
            None => None,
        }
    }

    /// Consumes the weight if the limit allows it.
    pub fn try_consume(&mut self, required: Weight) -> (done: Result<(), ()>)
        ensures
            match old(self).consuming(required) {
                Some(after) => done is Ok && *final(self) == after,
                None => done is Err && *final(self) == *old(self),
            },
    {
        match meter_try_consume(self.consumed, self.limit, required) {
            Some(after) => {
                self.consumed = after;
                Ok(())
            },
            None => Err(()),
        }
    }
}

/// The weight that a list of named weights gives a name.
pub open spec fn lookup(weights: Seq<(String, Weight)>, name: Seq<char>) -> Option<Weight>
    decreases weights.len(),
{
    if weights.len() == 0 {
        None
    } else if weights.last().0@ == name {
        Some(weights.last().1)
    } else {
        lookup(weights.drop_last(), name)
    }
}

/// Whether no name occurs twice.
pub open spec fn names_differ(weights: Seq<(String, Weight)>) -> bool {
    forall|i: int, j: int|
        0 <= i < j < weights.len() ==> #[trigger] weights[i].0@ != #[trigger] weights[j].0@
}

pub(crate) proof fn lemma_lookup_at(weights: Seq<(String, Weight)>, i: int)
    requires
        names_differ(weights),
        0 <= i < weights.len(),
    ensures
        lookup(weights, weights[i].0@) == Some(weights[i].1),
    decreases weights.len(),
{
    if i < weights.len() - 1 {
        assert(weights[i].0@ != weights[weights.len() - 1].0@);
        assert(weights.drop_last()[i] == weights[i]);
        lemma_lookup_at(weights.drop_last(), i);
    }
}

pub(crate) proof fn lemma_lookup_absent(weights: Seq<(String, Weight)>, name: Seq<char>)
    requires
        forall|i: int| 0 <= i < weights.len() ==> #[trigger] weights[i].0@ != name,
    ensures
        lookup(weights, name) is None,
    decreases weights.len(),
{
    if weights.len() > 0 {
        assert(weights[weights.len() - 1].0@ != name);
        assert forall|i: int| 0 <= i < weights.drop_last().len() implies #[trigger]
            weights.drop_last()[i].0@ != name by {
            assert(weights[i].0@ != name);
        }
        lemma_lookup_absent(weights.drop_last(), name);
    }
}

/// Replacing the weight at one place changes the lookup of that name only.
proof fn lemma_lookup_update(
    weights: Seq<(String, Weight)>,
    i: int,
    entry: (String, Weight),
    name: Seq<char>,
)
    requires
        0 <= i < weights.len(),
        entry.0@ == weights[i].0@,
        name != entry.0@,
    ensures
        lookup(weights.update(i, entry), name) == lookup(weights, name),
    decreases weights.len(),
{
    if i < weights.len() - 1 {
        assert(weights.update(i, entry).drop_last() =~= weights.drop_last().update(i, entry));
        lemma_lookup_update(weights.drop_last(), i, entry, name);
    } else {
        assert(weights.update(i, entry).drop_last() =~= weights.drop_last());
    }
}

/// Weight functions whose values a test sets.
pub struct MockedWeightInfo {
    /// The weights that were set, by the name of the function.
    pub weight_for_call: Vec<(String, Weight)>,
    /// The weight of every other function.
    pub default_weight_for_call: Weight,
}

/// The weights of all functions.
#[verifier::ext_equal]
pub struct WeightsView {
    /// The weights that were set, by the name of the function.
    pub set: Map<Seq<char>, Weight>,
    /// The weight of every other function.
    pub default: Weight,
}

impl WeightsView {
    /// The weight of a function: the one that was set, or the default.
    pub open spec fn weight(self, name: Seq<char>) -> Weight {
        if self.set.contains_key(name) {
            self.set[name]
        } else {
            self.default
        }
    }

    /// These weights with that of one function set.
    pub open spec fn with_weight(self, name: Seq<char>, weight: Weight) -> WeightsView {
        WeightsView { set: self.set.insert(name, weight), ..self }
    }

    /// These weights with none set.
    pub open spec fn cleared(self) -> WeightsView {
        WeightsView { set: Map::empty(), ..self }
    }
}

impl View for MockedWeightInfo {
    type V = WeightsView;

    open spec fn view(&self) -> WeightsView {
        WeightsView {
            set: Map::new(
                |name: Seq<char>| lookup(self.weight_for_call@, name) is Some,
                |name: Seq<char>| lookup(self.weight_for_call@, name)->Some_0,
            ),
            default: self.default_weight_for_call,
        }
    }
}

impl MockedWeightInfo {
    /// Whether no name is kept twice.
    pub open spec fn wf(self) -> bool {
        names_differ(self.weight_for_call@)
    }

    /// Weight functions that all give the default.
    pub fn new(default_weight_for_call: Weight) -> (info: Self)
        ensures
            info.wf(),
            info@ == (WeightsView { set: Map::empty(), default: default_weight_for_call }),
    {
        let info = MockedWeightInfo { weight_for_call: Vec::new(), default_weight_for_call };
        assert(info@.set =~= Map::<Seq<char>, Weight>::empty());
        info
    }

    /// Forgets every weight that was set.
    pub fn clear(&mut self)
        ensures
            final(self).wf(),
            final(self)@ == old(self)@.cleared(),
    {
        self.weight_for_call.clear();
        assert(self@.set =~= Map::<Seq<char>, Weight>::empty());
    }

    /// Where a name is kept.
    fn position(&self, call_name: &String) -> (place: Option<usize>)
        ensures
            match place {
                Some(i) => i < self.weight_for_call@.len() && self.weight_for_call@[i as int].0@
                    == call_name@,
                None => forall|i: int|
                    0 <= i < self.weight_for_call@.len() ==> #[trigger] self.weight_for_call@[i].0@
                        != call_name@,
            },
    {
        let mut i: usize = 0;
        while i < self.weight_for_call.len()
            invariant
                i <= self.weight_for_call@.len(),
                forall|j: int|
                    0 <= j < i ==> #[trigger] self.weight_for_call@[j].0@ != call_name@,
            decreases self.weight_for_call@.len() - i,
        {
            if self.weight_for_call[i].0 == *call_name {
                return Some(i);
            }
            i = i + 1;
        }
        None
    }

    /// Set the weight of a specific weight function.
    pub fn set_weight(&mut self, call_name: &str, weight: Weight)
        requires
            old(self).wf(),
        ensures
            final(self).wf(),
            final(self)@ == old(self)@.with_weight(call_name@, weight),
    {
        let name: String = call_name.to_owned();
        let ghost before = self.weight_for_call@;
        match self.position(&name) {
            Some(i) => {
                let ghost entry = (name, weight);
                self.weight_for_call.set(i, (name, weight));
                assert(self.weight_for_call@ =~= before.update(i as int, entry));
                assert forall|a: int, b: int|
                    0 <= a < b < self.weight_for_call@.len() implies #[trigger]
                    self.weight_for_call@[a].0@ != #[trigger] self.weight_for_call@[b].0@ by {
                    assert(before[a].0@ != before[b].0@);
                }
                proof {
                    lemma_lookup_at(self.weight_for_call@, i as int);
                }
                assert forall|other: Seq<char>| other != call_name@ implies #[trigger] lookup(
                    self.weight_for_call@,
                    other,
                ) == lookup(before, other) by {
                    lemma_lookup_update(before, i as int, entry, other);
                }
            },
            None => {
                self.weight_for_call.push((name, weight));
                assert(self.weight_for_call@.drop_last() =~= before);
            },
        }
        assert(self@.set =~= old(self)@.set.insert(call_name@, weight));
    }

    /// The weight of the named function.
    pub fn weight_of(&self, call_name: &str) -> (weight: Weight)
        requires
            self.wf(),
        ensures
            weight == self@.weight(call_name@),
    {
        let name: String = call_name.to_owned();
        match self.position(&name) {
            Some(i) => {
                proof {
                    lemma_lookup_at(self.weight_for_call@, i as int);
                }
                self.weight_for_call[i].1
            },
            None => {
                proof {
                    lemma_lookup_absent(self.weight_for_call@, call_name@);
                }
                self.default_weight_for_call
            },
        }
    }

    /// The weight of reaping a page.
    pub fn reap_page(&self) -> (weight: Weight)
        requires
            self.wf(),
        ensures
            weight == self@.weight("reap_page"@),
    {
        self.weight_of("reap_page")
    }

    /// The weight of executing an overweight message whose page stays.
    pub fn execute_overweight_page_updated(&self) -> (weight: Weight)
        requires
            self.wf(),
        ensures
            weight == self@.weight("execute_overweight_page_updated"@),
    {
        self.weight_of("execute_overweight_page_updated")
    }

    /// The weight of executing an overweight message whose page goes.
    pub fn execute_overweight_page_removed(&self) -> (weight: Weight)
        requires
            self.wf(),
        ensures
            weight == self@.weight("execute_overweight_page_removed"@),
    {
        self.weight_of("execute_overweight_page_removed")
    }

    /// The weight of servicing a page to its end.
    pub fn service_page_base_completion(&self) -> (weight: Weight)
        requires
            self.wf(),
        ensures
            weight == self@.weight("service_page_base_completion"@),
    {
        self.weight_of("service_page_base_completion")
    }

    /// The weight of servicing a page not to its end.
    pub fn service_page_base_no_completion(&self) -> (weight: Weight)
        requires
            self.wf(),
        ensures
            weight == self@.weight("service_page_base_no_completion"@),
    {
        self.weight_of("service_page_base_no_completion")
    }

    /// The weight of servicing a queue.
    pub fn service_queue_base(&self) -> (weight: Weight)
        requires
            self.wf(),
        ensures
            weight == self@.weight("service_queue_base"@),
    {
        self.weight_of("service_queue_base")
    }

    /// The weight of moving the service head on.
    pub fn bump_service_head(&self) -> (weight: Weight)
        requires
            self.wf(),
        ensures
            weight == self@.weight("bump_service_head"@),
    {
        self.weight_of("bump_service_head")
    }

    /// The weight of setting the service head.
    pub fn set_service_head(&self) -> (weight: Weight)
        requires
            self.wf(),
        ensures
            weight == self@.weight("set_service_head"@),
    {
        self.weight_of("set_service_head")
    }

    /// The weight of servicing an item of a page.
    pub fn service_page_item(&self) -> (weight: Weight)
        requires
            self.wf(),
        ensures
            weight == self@.weight("service_page_item"@),
    {
        self.weight_of("service_page_item")
    }

    /// The weight of putting a queue into the ready ring.
    pub fn ready_ring_knit(&self) -> (weight: Weight)
        requires
            self.wf(),
        ensures
            weight == self@.weight("ready_ring_knit"@),
    {
        self.weight_of("ready_ring_knit")
    }

    /// The weight of taking a queue out of the ready ring.
    pub fn ready_ring_unknit(&self) -> (weight: Weight)
        requires
            self.wf(),
        ensures
            weight == self@.weight("ready_ring_unknit"@),
    {
        self.weight_of("ready_ring_unknit")
    }
}

/// Set the weight of a specific weight function.
pub fn set_weight(info: &mut MockedWeightInfo, name: &str, w: Weight)
    requires
        old(info).wf(),
    ensures
        final(info).wf(),
        final(info)@ == old(info)@.with_weight(name@, w),
{
    info.set_weight(name, w);
}

} // verus!
