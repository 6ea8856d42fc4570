//! What holds of the mocks as a whole.

use crate::queue_mock::messages::{
    asks, callback_is_a_number, callback_number, callback_text, calls_back, conclusion,
    counting, evenly, logged, may_reply, message_weight, recording, CountingMessageProcessor,
    MessageOrigin, ProcessMessageError, ProcessingRules, RecordingMessageProcessor, BAD_FORMAT,
    CALLBACK, CORRUPT, STACK_LIMIT_REACHED, UNSUPPORTED, WEIGHT, YIELD,
};
use crate::queue_mock::queues::{
    is_seed, overweight_count, pages_match, seed, RecordingQueueChangeHandler, RuntimeEvent,
};
use crate::queue_mock::text::{
    decimal, has_three_zeros, is_digit, leading_number, lemma_digits_len, parsed,
};
use crate::queue_mock::weights::{
    lemma_lookup_absent, lemma_lookup_at, MockedWeightInfo, Weight, WeightMeter, WeightsView,
};
use vstd::prelude::*;
use vstd::utf8::encode_utf8;

verus! {

/// A weight that was set is the one that is read, whatever was set before, and no other function
/// changes its weight.
pub proof fn law_set_weight_is_read_back(
    before: WeightsView,
    name: Seq<char>,
    other: Seq<char>,
    weight: Weight,
)
    ensures
        before.with_weight(name, weight).weight(name) == weight,
        other != name ==> before.with_weight(name, weight).weight(other) == before.weight(other),
{
}

/// Once all weights are cleared, every function takes the default.
pub proof fn law_cleared_weights_are_the_default(before: WeightsView, name: Seq<char>)
    ensures
        before.cleared().weight(name) == before.default,
{
}

/// A meter within its limit stays there: what it lets pass is added exactly, the limit stays, and
/// what does not fit is not let pass.
pub proof fn law_meter_keeps_its_limit(meter: WeightMeter, required: Weight)
    requires
        meter.consumed.within(meter.limit),
    ensures
        meter.consuming(required) matches Some(after) ==> {
            &&& after.limit == meter.limit
            &&& after.consumed.within(after.limit)
            &&& after.consumed.ref_time == meter.consumed.ref_time + required.ref_time
            &&& after.consumed.proof_size == meter.consumed.proof_size + required.proof_size
        },
        meter.consuming(required) is Some <==> required.ref_time <= meter.limit.ref_time
            - meter.consumed.ref_time && required.proof_size <= meter.limit.proof_size
            - meter.consumed.proof_size,
{
}

/// Consuming one weight and another lets the same pass as consuming their sum, and leaves the
/// meter the same.
pub proof fn law_consuming_adds_up(meter: WeightMeter, first: Weight, second: Weight, sum: Weight)
    requires
        sum.ref_time == first.ref_time + second.ref_time,
        sum.proof_size == first.proof_size + second.proof_size,
    ensures
        meter.consuming(sum) == match meter.consuming(first) {
            Some(between) => between.consuming(second),
            None => None,
        },
{
}

/// Every ending has its own error, unless the queue of the message yields anyway.
pub proof fn law_endings_name_their_error(
    rules: ProcessingRules,
    message: Seq<u8>,
    origin: MessageOrigin,
)
    requires
        !rules.yielding_queues@.contains(origin),
    ensures
        BAD_FORMAT@.is_suffix_of(message) ==> rules.refusal(message, origin) == Some(
            ProcessMessageError::BadFormat,
        ),
        CORRUPT@.is_suffix_of(message) ==> rules.refusal(message, origin) == Some(
            ProcessMessageError::Corrupt,
        ),
        UNSUPPORTED@.is_suffix_of(message) ==> rules.refusal(message, origin) == Some(
            ProcessMessageError::Unsupported,
        ),
        YIELD@.is_suffix_of(message) ==> rules.refusal(message, origin) == Some(
            ProcessMessageError::Yield,
        ),
        STACK_LIMIT_REACHED@.is_suffix_of(message) ==> rules.refusal(message, origin)
            == if rules.ignore_stack_ov_error {
            None
        } else {
            Some(ProcessMessageError::StackLimitReached)
        },
{
    if BAD_FORMAT@.is_suffix_of(message) {
        lemma_ending(BAD_FORMAT@, message);
    }
    if CORRUPT@.is_suffix_of(message) {
        lemma_ending(CORRUPT@, message);
    }
    if UNSUPPORTED@.is_suffix_of(message) {
        lemma_ending(UNSUPPORTED@, message);
    }
    if YIELD@.is_suffix_of(message) {
        lemma_ending(YIELD@, message);
    }
    if STACK_LIMIT_REACHED@.is_suffix_of(message) {
        lemma_ending(STACK_LIMIT_REACHED@, message);
    }
}

/// The last three bytes of a text are those of its ending.
proof fn lemma_ending(ending: Seq<u8>, text: Seq<u8>)
    requires
        ending.is_suffix_of(text),
        ending.len() >= 3,
    ensures
        text.len() >= ending.len(),
        text[text.len() - 1] == ending[ending.len() - 1],
        text[text.len() - 2] == ending[ending.len() - 2],
        text[text.len() - 3] == ending[ending.len() - 3],
{
    let tail = text.subrange(text.len() - ending.len(), text.len() as int);
    assert(tail[ending.len() - 1] == text[text.len() - 1]);
    assert(tail[ending.len() - 2] == text[text.len() - 2]);
    assert(tail[ending.len() - 3] == text[text.len() - 3]);
}

/// A yielding queue yields on every message.
pub proof fn law_yielding_queues_yield(
    rules: ProcessingRules,
    message: Seq<u8>,
    origin: MessageOrigin,
)
    requires
        rules.yielding_queues@.contains(origin),
    ensures
        rules.refusal(message, origin) == Some(ProcessMessageError::Yield),
{
}

/// A message that is turned away or overweight neither consumes weight nor leaves a record.
pub proof fn law_unprocessed_messages_leave_no_trace(
    rules: ProcessingRules,
    log: Seq<(Seq<u8>, MessageOrigin)>,
    meter: WeightMeter,
    message: Seq<u8>,
    origin: MessageOrigin,
    reply: Option<Result<(), ()>>,
)
    ensures
        ({
            let recorded = recording(rules, log, meter, message, origin, reply);
            let required = evenly(message_weight(message));
            &&& rules.refusal(message, origin) matches Some(error) ==> recorded.result == Err::<
                bool,
                _,
            >(error) && recorded.log == log && recorded.meter == meter
            &&& rules.refusal(message, origin) is None && meter.consuming(required) is None
                ==> recorded.result == Err::<bool, _>(ProcessMessageError::Overweight(required))
                && recorded.log == log && recorded.meter == meter
        }),
{
}

/// A message that is neither turned away nor overweight consumes exactly its weight of every
/// component: what `weight=` says, and one otherwise.
pub proof fn law_messages_consume_their_weight(
    rules: ProcessingRules,
    log: Seq<(Seq<u8>, MessageOrigin)>,
    meter: WeightMeter,
    message: Seq<u8>,
    origin: MessageOrigin,
    reply: Option<Result<(), ()>>,
)
    requires
        rules.refusal(message, origin) is None,
        message_weight(message) <= u64::MAX,
        meter.consuming(evenly(message_weight(message))) is Some,
    ensures
        ({
            let after = recording(rules, log, meter, message, origin, reply).meter;
            let weight = message_weight(message);
            &&& after.limit == meter.limit
            &&& after.consumed.ref_time == meter.consumed.ref_time + weight
            &&& after.consumed.proof_size == meter.consumed.proof_size + weight
            &&& !WEIGHT@.is_prefix_of(message) ==> weight == 1
        }),
{
}

/// The record keeps all it holds and grows by the message exactly where processing reports it
/// done.
pub proof fn law_record_grows_by_what_is_done(
    rules: ProcessingRules,
    log: Seq<(Seq<u8>, MessageOrigin)>,
    meter: WeightMeter,
    message: Seq<u8>,
    origin: MessageOrigin,
    reply: Option<Result<(), ()>>,
)
    ensures
        ({
            let recorded = recording(rules, log, meter, message, origin, reply);
            &&& log.is_prefix_of(recorded.log)
            &&& recorded.result == Ok::<bool, ProcessMessageError>(true) ==> recorded.log
                == log.push((message, origin))
            &&& recorded.result != Ok::<bool, ProcessMessageError>(true) ==> recorded.log == log
        }),
{
}

/// A message is counted at most once: as processed exactly where processing reports it done, as
/// errored exactly where it is turned away.
pub proof fn law_messages_count_once(
    rules: ProcessingRules,
    before: CountingMessageProcessor,
    meter: WeightMeter,
    message: Seq<u8>,
    origin: MessageOrigin,
    reply: Option<Result<(), ()>>,
)
    ensures
        ({
            let counted = counting(rules, before, meter, message, origin, reply);
            let done = counted.result == Ok::<bool, ProcessMessageError>(true);
            let refused = rules.refusal(message, origin) is Some;
            &&& !(done && refused)
            &&& counted.processed == before.num_messages_processed + if done {
                1int
            } else {
                0
            }
            &&& counted.errored == before.num_messages_errored + if refused {
                1int
            } else {
                0
            }
        }),
{
}

/// Counting does with a message what recording does: the same result and the same weight, unless
/// the message names its weight or calls back with three zeros in a row.
pub proof fn law_counting_agrees_with_recording(
    rules: ProcessingRules,
    log: Seq<(Seq<u8>, MessageOrigin)>,
    before: CountingMessageProcessor,
    meter: WeightMeter,
    message: Seq<u8>,
    origin: MessageOrigin,
    reply: Option<Result<(), ()>>,
)
    requires
        !WEIGHT@.is_prefix_of(message),
        reply is Some ==> calls_back(message) && !has_three_zeros(callback_text(message)),
    ensures
        ({
            let recorded = recording(rules, log, meter, message, origin, reply);
            let counted = counting(rules, before, meter, message, origin, reply);
            &&& counted.result == recorded.result
            &&& counted.meter == recorded.meter
        }),
{
}

/// A message that names its weight does not call back.
pub proof fn law_weighing_messages_do_not_call_back(message: Seq<u8>)
    requires
        WEIGHT@.is_prefix_of(message),
    ensures
        !calls_back(message),
{
    assert(message.subrange(0, WEIGHT@.len() as int)[0] == message[0]);
    if calls_back(message) {
        assert(message.subrange(0, CALLBACK@.len() as int)[0] == message[0]);
    }
}

/// Reading a whole text as a number and reading the digits it begins with give the same, where
/// it carries no sign.
pub proof fn law_numbers_are_read_alike(text: Seq<u8>)
    requires
        text.len() > 0,
        text[0] != 43,
        parsed(text) is Some,
    ensures
        parsed(text) == Some(leading_number(text)),
{
    lemma_digits_len(text, text.len() as int);
    assert(text.take(text.len() as int) =~= text);
}

/// Where the pages match the indices, the pages are exactly those of `Here` with these indices.
pub proof fn law_matching_pages_are_exactly_these(
    pages: Seq<(MessageOrigin, u32)>,
    indices: Seq<u32>,
    page: (MessageOrigin, u32),
)
    requires
        pages_match(pages, indices),
    ensures
        pages.contains(page) <==> page.0 == MessageOrigin::Here && indices.contains(page.1),
{
    if pages.contains(page) {
        let j = choose|j: int| 0 <= j < pages.len() && pages[j] == page;
        assert(pages[j].0 == MessageOrigin::Here);
    }
    if page.0 == MessageOrigin::Here && indices.contains(page.1) {
        let i = choose|i: int| 0 <= i < indices.len() && indices[i] == page.1;
        assert(pages.contains((MessageOrigin::Here, indices[i])));
    }
}

/// A message is let in exactly where its queue does not yield and it has none of the endings, that
/// of the stack limit counting only where it is not ignored.
pub proof fn law_messages_without_an_ending_are_let_in(
    rules: ProcessingRules,
    message: Seq<u8>,
    origin: MessageOrigin,
)
    ensures
        rules.refusal(message, origin) is None <==> {
            &&& !rules.yielding_queues@.contains(origin)
            &&& !BAD_FORMAT@.is_suffix_of(message)
            &&& !CORRUPT@.is_suffix_of(message)
            &&& !UNSUPPORTED@.is_suffix_of(message)
            &&& !YIELD@.is_suffix_of(message)
            &&& rules.ignore_stack_ov_error || !STACK_LIMIT_REACHED@.is_suffix_of(message)
        },
{
}

/// A message that names its weight weighs what the digits behind the sign write, up to the first
/// byte that is no digit, and nothing where there are none; any other weighs one.
pub proof fn law_named_weights_are_read_up_to_the_first_other_byte(
    digits: Seq<u8>,
    rest: Seq<u8>,
    other: Seq<u8>,
)
    requires
        forall|i: int| 0 <= i < digits.len() ==> 48 <= #[trigger] digits[i] <= 57,
        rest.len() > 0 ==> rest[0] < 48 || rest[0] > 57,
    ensures
        message_weight(WEIGHT@ + digits + rest) == decimal(digits),
        !WEIGHT@.is_prefix_of(other) ==> message_weight(other) == 1,
        evenly(decimal(digits)).ref_time == evenly(decimal(digits)).proof_size,
        decimal(digits) <= u64::MAX ==> evenly(decimal(digits)).ref_time == decimal(digits),
{
    let message = WEIGHT@ + digits + rest;
    assert(message.subrange(0, WEIGHT@.len() as int) =~= WEIGHT@);
    assert(message.skip(WEIGHT@.len() as int) =~= digits + rest);
    law_leading_digits_are_the_number(digits, rest);
}

/// The number at the beginning of a text is that of the digits it begins with.
pub proof fn law_leading_digits_are_the_number(digits: Seq<u8>, rest: Seq<u8>)
    requires
        forall|i: int| 0 <= i < digits.len() ==> 48 <= #[trigger] digits[i] <= 57,
        rest.len() > 0 ==> rest[0] < 48 || rest[0] > 57,
    ensures
        leading_number(digits + rest) == decimal(digits),
{
    let text = digits + rest;
    assert forall|i: int| 0 <= i < digits.len() implies is_digit(#[trigger] text[i]) by {
        assert(text[i] == digits[i]);
    }
    if rest.len() > 0 {
        assert(text[digits.len() as int] == rest[0]);
    }
    lemma_digits_len(text, digits.len() as int);
    assert(text.take(digits.len() as int) =~= digits);
}

/// Nothing written is zero, and a further digit makes ten times the number and the digit.
pub proof fn law_numbers_are_written_in_tens(digits: Seq<u8>, digit: u8)
    requires
        48 <= digit <= 57,
    ensures
        decimal(Seq::empty()) == 0,
        decimal(digits.push(digit)) == 10 * decimal(digits) + (digit - 48),
{
    assert(digits.push(digit).drop_last() =~= digits);
}

/// A whole text writes a number exactly where it is one digit or more, behind a plus sign or
/// nothing; the sign does not change the number.
pub proof fn law_whole_texts_write_numbers(text: Seq<u8>)
    ensures
        parsed(text) is Some <==> text.len() > 0 && (forall|i: int|
            0 < i < text.len() ==> 48 <= #[trigger] text[i] <= 57) && (48 <= text[0] <= 57 || (
        text[0] == 43 && text.len() > 1)),
        parsed(text) is Some && text[0] != 43 ==> parsed(text) == Some(decimal(text)),
        parsed(text) is Some && text[0] == 43 ==> parsed(text) == Some(
            decimal(text.subrange(1, text.len() as int)),
        ),
{
    if text.len() > 0 {
        let digits = text.subrange(1, text.len() as int);
        assert(text.drop_first() =~= digits);
        if text[0] == 43 {
            assert(forall|i: int| 0 < i < text.len() ==> #[trigger] text[i] == digits[i - 1]);
            assert(forall|i: int| 0 <= i < digits.len() ==> #[trigger] digits[i] == text[i + 1]);
        } else if parsed(text) is Some {
            assert(is_digit(text[0]));
        }
    }
}

/// A text holds three zeros in a row exactly where it is something, three zeros, and something.
pub proof fn law_three_zeros_stand_anywhere(before: Seq<u8>, behind: Seq<u8>, text: Seq<u8>)
    ensures
        has_three_zeros(before + seq![48u8, 48, 48] + behind),
        has_three_zeros(text) ==> exists|i: int|
            0 <= i <= text.len() - 3 && #[trigger] text.subrange(i, i + 3) == seq![48u8, 48, 48],
{
    let zeros = before + seq![48u8, 48, 48] + behind;
    let n = before.len() as int;
    assert(zeros[n] == 48 && zeros[n + 1] == 48 && zeros[n + 2] == 48);
    if has_three_zeros(text) {
        let i = choose|i: int|
            0 <= i && i + 3 <= text.len() && #[trigger] text[i] == 48 && text[i + 1] == 48
                && text[i + 2] == 48;
        assert(text.subrange(i, i + 3) =~= seq![48u8, 48, 48]);
    }
}

/// A message calls back with the text behind the sign, and with the number that this text writes.
pub proof fn law_callbacks_carry_the_text_behind_the_sign(text: Seq<u8>)
    ensures
        calls_back(CALLBACK@ + text),
        callback_text(CALLBACK@ + text) == text,
        callback_is_a_number(CALLBACK@ + text) <==> (parsed(text) matches Some(n) && n <= u32::MAX),
        callback_is_a_number(CALLBACK@ + text) ==> parsed(text) == Some(
            callback_number(CALLBACK@ + text) as nat,
        ),
{
    let message = CALLBACK@ + text;
    assert(message.subrange(0, CALLBACK@.len() as int) =~= CALLBACK@);
    assert(message.skip(CALLBACK@.len() as int) =~= text);
}

/// The callback is asked exactly by messages that begin with its sign, are let in, and find the
/// weight they take; only then is there a reply, which is one that the callback may give.
pub proof fn law_callbacks_are_asked_once_the_weight_is_there<
    F: Fn(&MessageOrigin, u32) -> Result<(), ()>,
>(
    callback: F,
    rules: ProcessingRules,
    meter: WeightMeter,
    required: Weight,
    message: Seq<u8>,
    origin: MessageOrigin,
    outcome: Result<(), ()>,
)
    ensures
        ({
            let asked = asks(rules, meter, required, message, origin);
            &&& asked <==> {
                &&& rules.refusal(message, origin) is None
                &&& meter.consumed.ref_time + required.ref_time <= meter.limit.ref_time
                &&& meter.consumed.proof_size + required.proof_size <= meter.limit.proof_size
                &&& CALLBACK@.is_prefix_of(message)
            }
            &&& may_reply(callback, asked, message, origin, None) <==> !asked
            &&& may_reply(callback, asked, message, origin, Some(outcome)) <==> asked
                && call_ensures(callback, (&origin, callback_number(message)), outcome)
        }),
{
}

/// What a recorded message that is let in and finds its weight comes to: done without a callback,
/// corrupt where the callback fails, and otherwise done unless the callback's text holds three
/// zeros in a row.
pub proof fn law_callbacks_decide_what_recording_comes_to(
    rules: ProcessingRules,
    log: Seq<(Seq<u8>, MessageOrigin)>,
    meter: WeightMeter,
    message: Seq<u8>,
    origin: MessageOrigin,
)
    requires
        rules.refusal(message, origin) is None,
        meter.consuming(evenly(message_weight(message))) is Some,
    ensures
        recording(rules, log, meter, message, origin, None).result == Ok::<
            bool,
            ProcessMessageError,
        >(true),
        recording(rules, log, meter, message, origin, Some(Err(()))).result == Err::<
            bool,
            ProcessMessageError,
        >(ProcessMessageError::Corrupt),
        recording(rules, log, meter, message, origin, Some(Ok(()))).result == Ok::<
            bool,
            ProcessMessageError,
        >(!has_three_zeros(callback_text(message))),
{
}

/// Counting turns messages away as recording does, takes one weight of every component or reports
/// that this is too much, and is done unless the callback fails.
pub proof fn law_counting_takes_one_weight(
    rules: ProcessingRules,
    before: CountingMessageProcessor,
    meter: WeightMeter,
    message: Seq<u8>,
    origin: MessageOrigin,
    reply: Option<Result<(), ()>>,
)
    ensures
        ({
            let counted = counting(rules, before, meter, message, origin, reply);
            let one = Weight { ref_time: 1, proof_size: 1 };
            let room = meter.consumed.ref_time + 1 <= meter.limit.ref_time
                && meter.consumed.proof_size + 1 <= meter.limit.proof_size;
            match rules.refusal(message, origin) {
                Some(error) => counted.result == Err::<bool, ProcessMessageError>(error)
                    && counted.meter == meter,
                None => {
                    &&& !room ==> counted.result == Err::<bool, ProcessMessageError>(
                        ProcessMessageError::Overweight(one),
                    ) && counted.meter == meter
                    &&& room ==> {
                        &&& counted.meter.limit == meter.limit
                        &&& counted.meter.consumed.ref_time == meter.consumed.ref_time + 1
                        &&& counted.meter.consumed.proof_size == meter.consumed.proof_size + 1
                        &&& counted.result == if reply matches Some(Err(_)) {
                            Err::<bool, ProcessMessageError>(ProcessMessageError::Corrupt)
                        } else {
                            Ok::<bool, ProcessMessageError>(true)
                        }
                    }
                },
            }
        }),
{
}

/// A meter lets a weight pass exactly where neither component then exceeds the limit, adds it to
/// what was consumed, and keeps the limit, whatever was consumed before.
pub proof fn law_meter_adds_what_fits(meter: WeightMeter, required: Weight)
    ensures
        ({
            let ref_time = meter.consumed.ref_time + required.ref_time;
            let proof_size = meter.consumed.proof_size + required.proof_size;
            match meter.consuming(required) {
                Some(after) => {
                    &&& ref_time <= meter.limit.ref_time
                    &&& proof_size <= meter.limit.proof_size
                    &&& after.consumed.ref_time == ref_time
                    &&& after.consumed.proof_size == proof_size
                    &&& after.limit == meter.limit
                },
                None => ref_time > meter.limit.ref_time || proof_size > meter.limit.proof_size,
            }
        }),
{
}

/// Pages match indices exactly where there are as many of both and the pages are those of `Here`
/// with these indices, whatever the order.
pub proof fn law_exactly_these_pages_match(
    pages: Seq<(MessageOrigin, u32)>,
    indices: Seq<u32>,
)
    requires
        pages.len() == indices.len(),
        forall|page: (MessageOrigin, u32)| #[trigger]
            pages.contains(page) <==> page.0 == MessageOrigin::Here && indices.contains(page.1),
    ensures
        pages_match(pages, indices),
{
    assert forall|i: int| 0 <= i < indices.len() implies pages.contains(
        (MessageOrigin::Here, #[trigger] indices[i]),
    ) by {
        assert(indices.contains(indices[i]));
    }
    assert forall|j: int| 0 <= j < pages.len() implies (#[trigger] pages[j]).0
        == MessageOrigin::Here && indices.contains(pages[j].1) by {
        assert(pages.contains(pages[j]));
    }
}

/// Pages match only as many indices as there are pages.
pub proof fn law_matching_pages_are_as_many(pages: Seq<(MessageOrigin, u32)>, indices: Seq<u32>)
    ensures
        pages_match(pages, indices) ==> pages.len() == indices.len(),
{
}

/// Each event that an overweight message was set aside counts one, and no other event counts.
pub proof fn law_overweight_events_count_one_each(events: Seq<RuntimeEvent>)
    ensures
        overweight_count(Seq::empty()) == 0,
        overweight_count(events.push(RuntimeEvent::OverweightEnqueued)) == overweight_count(events)
            + 1,
        overweight_count(events.push(RuntimeEvent::Other)) == overweight_count(events),
{
    reveal(Seq::filter);
    assert(events.push(RuntimeEvent::OverweightEnqueued).drop_last() =~= events);
    assert(events.push(RuntimeEvent::Other).drop_last() =~= events);
}

/// A seed is any number of 64 bits that a text writes, and is that number.
pub proof fn law_seeds_are_the_numbers_written(text: Seq<char>)
    ensures
        is_seed(text) <==> (parsed(encode_utf8(text)) matches Some(n) && n <= u64::MAX),
        is_seed(text) ==> parsed(encode_utf8(text)) == Some(seed(text) as nat),
{
}

/// The weights that contracts speak of are the entries kept, by their names, and the default.
pub proof fn law_weights_are_taken_whole(info: MockedWeightInfo, i: int, name: Seq<char>)
    requires
        info.wf(),
    ensures
        info@.default == info.default_weight_for_call,
        0 <= i < info.weight_for_call@.len() ==> info@.weight(info.weight_for_call@[i].0@)
            == info.weight_for_call@[i].1,
        (forall|j: int|
            0 <= j < info.weight_for_call@.len() ==> #[trigger] info.weight_for_call@[j].0@ != name)
            ==> info@.weight(name) == info.default_weight_for_call,
{
    if 0 <= i < info.weight_for_call@.len() {
        lemma_lookup_at(info.weight_for_call@, i);
    }
    if forall|j: int|
        0 <= j < info.weight_for_call@.len() ==> #[trigger] info.weight_for_call@[j].0@ != name {
        lemma_lookup_absent(info.weight_for_call@, name);
    }
}

/// No name is kept twice where what is kept is well formed.
pub proof fn law_names_are_kept_once(info: MockedWeightInfo, i: int, j: int)
    requires
        info.wf(),
        0 <= i < info.weight_for_call@.len(),
        0 <= j < info.weight_for_call@.len(),
        info.weight_for_call@[i].0@ == info.weight_for_call@[j].0@,
    ensures
        i == j,
{
}

/// The record that contracts speak of is the list of messages and origins kept, in order, and so
/// is that of queue changes.
pub proof fn law_records_are_taken_whole(
    recorder: RecordingMessageProcessor,
    changes: RecordingQueueChangeHandler,
    i: int,
)
    ensures
        recorder@.len() == recorder.messages_processed@.len(),
        0 <= i < recorder@.len() ==> recorder@[i].0 == recorder.messages_processed@[i].0@
            && recorder@[i].1 == recorder.messages_processed@[i].1,
        changes@ == changes.queue_changes@,
{
}

/// A reply concludes any message alike: without one it is done, a failure makes it corrupt, and a
/// success leaves it done unless its text holds three zeros in a row. Only what is done is added to
/// the record, at its end.
pub proof fn law_replies_conclude_messages(
    log: Seq<(Seq<u8>, MessageOrigin)>,
    message: Seq<u8>,
    origin: MessageOrigin,
    error: ProcessMessageError,
)
    ensures
        conclusion(message, None) == Ok::<bool, ProcessMessageError>(true),
        conclusion(message, Some(Err(()))) == Err::<bool, ProcessMessageError>(
            ProcessMessageError::Corrupt,
        ),
        conclusion(message, Some(Ok(()))) == Ok::<bool, ProcessMessageError>(
            !has_three_zeros(callback_text(message)),
        ),
        logged(log, message, origin, Ok(true)).len() == log.len() + 1,
        logged(log, message, origin, Ok(true)).last() == (message, origin),
        log.is_prefix_of(logged(log, message, origin, Ok(true))),
        logged(log, message, origin, Ok(false)) == log,
        logged(log, message, origin, Err(error)) == log,
{
}

} // verus!
