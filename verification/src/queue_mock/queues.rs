//! What a test learns about queues and pages, and where its seed comes from.

use crate::queue_mock::messages::{contains_origin, CountingMessageProcessor, MessageOrigin};
use crate::queue_mock::text::{parse_up_to, parsed};
use crate::queue_mock::weights::MockedWeightInfo;
use vstd::prelude::*;
use vstd::utf8::encode_utf8;

verus! {

/// How much storage something takes.
#[derive(Debug, Clone, Copy, PartialEq, Eq, Structural)]
pub struct Footprint {
    /// The number of messages.
    pub count: u64,
    /// The number of bytes.
    pub size: u64,
}

/// The resource footprint of a queue.
#[derive(Debug, Clone, Copy, PartialEq, Eq, Structural)]
pub struct QueueFootprint {
    /// The number of pages in the queue.
    pub pages: u32,
    /// The number of pages that are ready.
    pub ready_pages: u32,
    /// The storage footprint of the queue.
    pub storage: Footprint,
}

/// The footprint of a queue with the given numbers.
pub fn fp(pages: u32, ready_pages: u32, count: u64, size: u64) -> (footprint: QueueFootprint)
    ensures
        footprint == (QueueFootprint { pages, ready_pages, storage: Footprint { count, size } }),
{
    QueueFootprint { storage: Footprint { count, size }, pages, ready_pages }
}

/// Records all queue changes.
pub struct RecordingQueueChangeHandler {
    /// The queue, and how many messages and bytes it held, for each change in turn.
    pub queue_changes: Vec<(MessageOrigin, u64, u64)>,
}

impl View for RecordingQueueChangeHandler {
    type V = Seq<(MessageOrigin, u64, u64)>;

    open spec fn view(&self) -> Seq<(MessageOrigin, u64, u64)> {
        self.queue_changes@
    }
}

impl RecordingQueueChangeHandler {
    /// A handler that was told nothing yet.
    pub fn new() -> (handler: Self)
        ensures
            handler@ == Seq::<(MessageOrigin, u64, u64)>::empty(),
    {
        RecordingQueueChangeHandler { queue_changes: Vec::new() }
    }

    /// Note that the queue has changed.
    pub fn on_queue_changed(&mut self, id: MessageOrigin, fp: QueueFootprint)
        ensures
            final(self)@ == old(self)@.push((id, fp.storage.count, fp.storage.size)),
    {
        self.queue_changes.push((id, fp.storage.count, fp.storage.size));
    }
}

/// Says which queues are paused.
pub struct MockedQueuePauser {
    /// The paused queues.
    pub paused_queues: Vec<MessageOrigin>,
}

impl MockedQueuePauser {
    /// Whether the queue is paused.
    pub fn is_paused(&self, id: &MessageOrigin) -> (paused: bool)
        ensures
            paused == self.paused_queues@.contains(*id),
    {
        contains_origin(&self.paused_queues, id)
    }
}

/// Takes back what a test left behind: the weights that were set, the recorded queue changes and
/// the number of messages that were turned away.
pub fn clear_mocks(
    weights: &mut MockedWeightInfo,
    changes: &mut RecordingQueueChangeHandler,
    counter: &mut CountingMessageProcessor,
)
    ensures
        final(weights).wf(),
        final(weights)@ == old(weights)@.cleared(),
        final(changes)@ == Seq::<(MessageOrigin, u64, u64)>::empty(),
        final(counter).num_messages_errored == 0,
        final(counter).num_messages_processed == old(counter).num_messages_processed,
{
    weights.clear();
    changes.queue_changes.clear();
    counter.num_messages_errored = 0;
}

/// Whether the pages are exactly those of `Here` with the given indices, each listed once.
pub open spec fn pages_match(pages: Seq<(MessageOrigin, u32)>, indices: Seq<u32>) -> bool {
    &&& pages.len() == indices.len()
    &&& forall|i: int|
        0 <= i < indices.len() ==> pages.contains((MessageOrigin::Here, #[trigger] indices[i]))
    &&& forall|j: int|
        0 <= j < pages.len() ==> (#[trigger] pages[j]).0 == MessageOrigin::Here
            && indices.contains(pages[j].1)
}

/// Whether the pages hold one of this origin and index.
fn contains_page(pages: &[(MessageOrigin, u32)], origin: MessageOrigin, index: u32) -> (found: bool)
    ensures
        found == pages@.contains((origin, index)),
{
    let mut i: usize = 0;
    while i < pages.len()
        invariant
            i <= pages.len(),
            forall|j: int| 0 <= j < i ==> pages@[j] != (origin, index),
        decreases pages.len() - i,
    {
        if pages[i].0 == origin && pages[i].1 == index {
            assert(pages@[i as int] == (origin, index));
            return true;
        }
        i = i + 1;
    }
    false
}

/// Whether the indices hold this one.
fn contains_index(indices: &[u32], index: u32) -> (found: bool)
    ensures
        found == indices@.contains(index),
{
    let mut i: usize = 0;
    while i < indices.len()
        invariant
            i <= indices.len(),
            forall|j: int| 0 <= j < i ==> indices@[j] != index,
        decreases indices.len() - i,
    {
        if indices[i] == index {
            assert(indices@[i as int] == index);
            return true;
        }
        i = i + 1;
    }
    false
}

/// Whether exactly these pages are present. Assumes `Here` origin.
pub fn assert_pages(pages: &[(MessageOrigin, u32)], indices: &[u32]) -> (holds: bool)
    ensures
        holds == pages_match(pages@, indices@),
{
    if pages.len() != indices.len() {
        return false;
    }
    let mut i: usize = 0;
    while i < indices.len()
        invariant
            i <= indices.len(),
            forall|j: int|
                0 <= j < i ==> pages@.contains((MessageOrigin::Here, #[trigger] indices@[j])),
        decreases indices.len() - i,
    {
        if !contains_page(pages, MessageOrigin::Here, indices[i]) {
            assert(!pages@.contains((MessageOrigin::Here, indices@[i as int])));
            return false;
        }
        i = i + 1;
    }
    let mut k: usize = 0;
    while k < pages.len()
        invariant
            k <= pages.len(),
            forall|j: int|
                0 <= j < k ==> (#[trigger] pages@[j]).0 == MessageOrigin::Here
                    && indices@.contains(pages@[j].1),
        decreases pages.len() - k,
    {
        let (origin, index) = pages[k];
        assert(pages@[k as int] == (origin, index));
        if origin != MessageOrigin::Here || !contains_index(indices, index) {
            return false;
        }
        k = k + 1;
    }
    true
}

/// The queues of a ring of three: `Here`, `There` and `Everywhere(0)`.
pub fn build_triple_ring() -> (ring: [MessageOrigin; 3])
    ensures
        ring@ == seq![MessageOrigin::Here, MessageOrigin::There, MessageOrigin::Everywhere(0)],
{
    let ring = [MessageOrigin::Here, MessageOrigin::There, MessageOrigin::Everywhere(0)];
    assert(ring@ =~= seq![
        MessageOrigin::Here,
        MessageOrigin::There,
        MessageOrigin::Everywhere(0),
    ]);
    ring
}

/// An event of the runtime, as far as a test tells events apart.
#[derive(Debug, Clone, Copy, PartialEq, Eq, Structural)]
pub enum RuntimeEvent {
    /// The queue set an overweight message aside.
    OverweightEnqueued,
    /// Anything else.
    Other,
}

/// How many events say that an overweight message was set aside.
pub open spec fn overweight_count(events: Seq<RuntimeEvent>) -> nat {
    events.filter(|event: RuntimeEvent| event == RuntimeEvent::OverweightEnqueued).len()
}

/// How many of the events say that an overweight message was set aside, in 32 bits.
pub fn num_overweight_enqueued_events(events: &[RuntimeEvent]) -> (count: u32)
    ensures
        count == overweight_count(events@) % 0x1_0000_0000,
{
    let ghost wanted = |event: RuntimeEvent| event == RuntimeEvent::OverweightEnqueued;
    let mut count: usize = 0;
    let mut i: usize = 0;
    assert(events@.take(0).filter(wanted).len() == 0) by {
        reveal(Seq::filter);
    }
    while i < events.len()
        invariant
            count <= i <= events.len(),
            wanted == (|event: RuntimeEvent| event == RuntimeEvent::OverweightEnqueued),
            count == events@.take(i as int).filter(wanted).len(),
        decreases events.len() - i,
    {
        proof {
            reveal(Seq::filter);
            assert(events@.take(i + 1).drop_last() =~= events@.take(i as int));
        }
        if events[i] == RuntimeEvent::OverweightEnqueued {
            count = count + 1;
        }
        i = i + 1;
    }
    assert(events@.take(i as int) =~= events@);
    let wide: u64 = count as u64;
    assert(wide % 0x1_0000_0000u64 < 0x1_0000_0000u64);
    (wide % 0x1_0000_0000) as u32
}

/// Whether the text writes a seed.
pub open spec fn is_seed(text: Seq<char>) -> bool {
    parsed(encode_utf8(text)) matches Some(n) && n <= u64::MAX
}

/// The seed that a text writes.
pub open spec fn seed(text: Seq<char>) -> u64 {
    parsed(encode_utf8(text))->Some_0 as u64
}

/// `rand::Rng::gen` for a `u64` on `rand::thread_rng`. The number depends on chance, so nothing
/// is claimed of it.
#[verifier::external_body]
fn draw_seed() -> (drawn: u64) {
    rand::Rng::gen::<u64>(&mut rand::thread_rng())
}

/// The configured seed, or the drawn one where none is configured.
pub fn choose_seed(configured: &Option<String>, drawn: u64) -> (chosen: u64)
    requires
        configured matches Some(text) ==> is_seed(text@),
    ensures
        chosen == match configured {
            Some(text) => seed(text@),
            None => drawn,
        },
{
    match configured {
        Some(text) => match parse_up_to(text.as_str().as_bytes(), u64::MAX) {
            Some(number) => number,
            None => drawn,
        },
        None => drawn,
    }
}

/// A random seed that can be overwritten by a configured one.
pub fn gen_seed(configured: &Option<String>) -> (chosen: u64)
    requires
        configured matches Some(text) ==> is_seed(text@),
    ensures
        configured matches Some(text) ==> chosen == seed(text@),
{
    let drawn: u64 = if configured.is_some() {
        0
    } else {
        draw_seed()
    };
    choose_seed(configured, drawn)
}

} // verus!
