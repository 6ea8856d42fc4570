//! Processors that take messages of a queue: one records them, one counts them.

use crate::queue_mock::text::{
    ends_with, find_three_zeros, has_three_zeros, leading_number, parse_up_to, parsed,
    read_leading_number, strip_prefix,
};
use crate::queue_mock::weights::{Weight, WeightMeter};
use vstd::prelude::*;

verus! {

/// Where a message comes from.
#[derive(Debug, Clone, Copy, PartialEq, Eq, Structural)]
pub enum MessageOrigin {
    Here,
    There,
    Everywhere(u32),
}

/// Why a message was not processed.
#[derive(Debug, Clone, Copy, PartialEq, Eq, Structural)]
pub enum ProcessMessageError {
    /// The message data format is unknown.
    BadFormat,
    /// The message data is bad.
    Corrupt,
    /// The message format is unsupported.
    Unsupported,
    /// The weight limit does not allow the weight that the message takes.
    Overweight(Weight),
    /// The queue wants to give up its current processing slot.
    Yield,
    /// The message reached the stack depth limit.
    StackLimitReached,
}

/// The ending of a message of unknown format: `badformat`.
pub const BAD_FORMAT: [u8; 9] = [98, 97, 100, 102, 111, 114, 109, 97, 116];

/// The ending of a message with bad data: `corrupt`.
pub const CORRUPT: [u8; 7] = [99, 111, 114, 114, 117, 112, 116];

/// The ending of a message of unsupported format: `unsupported`.
pub const UNSUPPORTED: [u8; 11] = [117, 110, 115, 117, 112, 112, 111, 114, 116, 101, 100];

/// The ending of a message that makes its queue yield: `yield`.
pub const YIELD: [u8; 5] = [121, 105, 101, 108, 100];

/// The ending of a message that reaches the stack limit: `stacklimitreached`.
pub const STACK_LIMIT_REACHED: [u8; 17] = [
    115, 116, 97, 99, 107, 108, 105, 109, 105, 116, 114, 101, 97, 99, 104, 101, 100,
];

/// The beginning of a message that says how much it weighs: `weight=`.
pub const WEIGHT: [u8; 7] = [119, 101, 105, 103, 104, 116, 61];

/// The beginning of a message that calls back: `callback=`.
pub const CALLBACK: [u8; 9] = [99, 97, 108, 108, 98, 97, 99, 107, 61];

/// What makes processing fail besides the message itself.
pub struct ProcessingRules {
    /// Queues that should return `Yield` upon being processed.
    pub yielding_queues: Vec<MessageOrigin>,
    /// Whether messages that reach the stack limit pass all the same.
    pub ignore_stack_ov_error: bool,
}

impl ProcessingRules {
    /// Rules under which no queue yields.
    pub fn new() -> (rules: Self)
        ensures
            rules.yielding_queues@ == Seq::<MessageOrigin>::empty(),
            !rules.ignore_stack_ov_error,
    {
        ProcessingRules { yielding_queues: Vec::new(), ignore_stack_ov_error: false }
    }

    /// The error with which a message of an origin is turned away, if it is.
    pub open spec fn refusal(self, message: Seq<u8>, origin: MessageOrigin) -> Option<
        ProcessMessageError,
    > {
        if self.yielding_queues@.contains(origin) {
            Some(ProcessMessageError::Yield)
        } else if BAD_FORMAT@.is_suffix_of(message) {
            Some(ProcessMessageError::BadFormat)
        } else if CORRUPT@.is_suffix_of(message) {
            Some(ProcessMessageError::Corrupt)
        } else if UNSUPPORTED@.is_suffix_of(message) {
            Some(ProcessMessageError::Unsupported)
        } else if YIELD@.is_suffix_of(message) {
            Some(ProcessMessageError::Yield)
        } else if STACK_LIMIT_REACHED@.is_suffix_of(message) && !self.ignore_stack_ov_error {
            Some(ProcessMessageError::StackLimitReached)
        } else {
            None
        }
    }
}

/// What a message weighs: `n` where it begins with `weight=n`, and one otherwise.
pub open spec fn message_weight(message: Seq<u8>) -> nat {
    if WEIGHT@.is_prefix_of(message) {
        leading_number(message.skip(WEIGHT@.len() as int))
    } else {
        1
    }
}

/// The same weight of every component.
pub open spec fn evenly(weight: nat) -> Weight {
    Weight { ref_time: weight as u64, proof_size: weight as u64 }
}

/// Whether a message calls back.
pub open spec fn calls_back(message: Seq<u8>) -> bool {
    CALLBACK@.is_prefix_of(message)
}

/// What follows `callback=` in a message that calls back.
pub open spec fn callback_text(message: Seq<u8>) -> Seq<u8> {
    message.skip(CALLBACK@.len() as int)
}

/// Whether a message that calls back says with which number.
pub open spec fn callback_is_a_number(message: Seq<u8>) -> bool {
    parsed(callback_text(message)) matches Some(n) && n <= u32::MAX
}

/// The number with which a message calls back.
pub open spec fn callback_number(message: Seq<u8>) -> u32 {
    parsed(callback_text(message))->Some_0 as u32
}

/// Whether a message gets as far as calling back.
pub open spec fn asks(
    rules: ProcessingRules,
    meter: WeightMeter,
    required: Weight,
    message: Seq<u8>,
    origin: MessageOrigin,
) -> bool {
    rules.refusal(message, origin) is None && meter.consuming(required) is Some && calls_back(
        message,
    )
}

/// Whether the reply is one that the callback may give to a message: none where it is not asked.
pub open spec fn may_reply<F: Fn(&MessageOrigin, u32) -> Result<(), ()>>(
    callback: F,
    asked: bool,
    message: Seq<u8>,
    origin: MessageOrigin,
    reply: Option<Result<(), ()>>,
) -> bool {
    match reply {
        Some(outcome) => asked && call_ensures(
            callback,
            (&origin, callback_number(message)),
            outcome,
        ),
        None => !asked,
    }
}

/// Whether `list` holds `origin`.
pub fn contains_origin(list: &Vec<MessageOrigin>, origin: &MessageOrigin) -> (found: bool)
    ensures
        found == list@.contains(*origin),
{
    let mut i: usize = 0;
    while i < list.len()
        invariant
            i <= list.len(),
            forall|j: int| 0 <= j < i ==> list@[j] != *origin,
        decreases list.len() - i,
    {
        if list[i] == *origin {
            assert(list@[i as int] == *origin);
            return true;
        }
        i = i + 1;
    }
    false
}

/// Processed a mocked message. Messages that end with `badformat`, `corrupt`, `unsupported` or
/// `yield` will fail with an error respectively.
pub fn processing_message(rules: &ProcessingRules, msg: &[u8], origin: &MessageOrigin) -> (done:
    Result<(), ProcessMessageError>)
    ensures
        done == match rules.refusal(msg@, *origin) {
            Some(error) => Err::<(), ProcessMessageError>(error),
            None => Ok(()),
        },
{
    if contains_origin(&rules.yielding_queues, origin) {
        return Err(ProcessMessageError::Yield);
    }
    if ends_with(msg, BAD_FORMAT.as_slice()) {
        Err(ProcessMessageError::BadFormat)
    } else if ends_with(msg, CORRUPT.as_slice()) {
        Err(ProcessMessageError::Corrupt)
    } else if ends_with(msg, UNSUPPORTED.as_slice()) {
        Err(ProcessMessageError::Unsupported)
    } else if ends_with(msg, YIELD.as_slice()) {
        Err(ProcessMessageError::Yield)
    } else if ends_with(msg, STACK_LIMIT_REACHED.as_slice()) && !rules.ignore_stack_ov_error {
        Err(ProcessMessageError::StackLimitReached)
    } else {
        Ok(())
    }
}

/// What a message weighs.
fn weight_of_message(message: &[u8]) -> (weight: u64)
    requires
        message_weight(message@) <= u64::MAX,
    ensures
        weight == message_weight(message@),
{
    match strip_prefix(message, WEIGHT.as_slice()) {
        Some(rest) => read_leading_number(rest),
        None => 1,
    }
}

/// The number with which a message calls back, if it does.
fn callback_argument(message: &[u8]) -> (number: Option<u32>)
    requires
        calls_back(message@) ==> callback_is_a_number(message@),
    ensures
        number == if calls_back(message@) {
            Some(callback_number(message@))
        } else {
            None
        },
{
    match strip_prefix(message, CALLBACK.as_slice()) {
        Some(text) => match parse_up_to(text, u32::MAX as u64) {
            Some(number) => Some(number as u32),
            None => None,
        },
        None => None,
    }
}

/// A message processor which records all processed messages.
pub struct RecordingMessageProcessor {
    /// The messages, with their origins, in the order in which they were processed.
    pub messages_processed: Vec<(Vec<u8>, MessageOrigin)>,
}

impl View for RecordingMessageProcessor {
    type V = Seq<(Seq<u8>, MessageOrigin)>;

    open spec fn view(&self) -> Seq<(Seq<u8>, MessageOrigin)> {
        self.messages_processed@.map_values(
            |entry: (Vec<u8>, MessageOrigin)| (entry.0@, entry.1),
        )
    }
}

/// What became of a message that was to be recorded.
#[verifier::ext_equal]
pub struct Recorded {
    pub result: Result<bool, ProcessMessageError>,
    pub log: Seq<(Seq<u8>, MessageOrigin)>,
    pub meter: WeightMeter,
}

/// The result for a message that the meter let pass, once the callback has replied.
pub open spec fn conclusion(message: Seq<u8>, reply: Option<Result<(), ()>>) -> Result<
    bool,
    ProcessMessageError,
> {
    match reply {
        Some(Err(())) => Err(ProcessMessageError::Corrupt),
        Some(Ok(())) => Ok(!has_three_zeros(callback_text(message))),
        None => Ok(true),
    }
}

/// The record once a message has been concluded: only what was processed to the end is added.
pub open spec fn logged(
    log: Seq<(Seq<u8>, MessageOrigin)>,
    message: Seq<u8>,
    origin: MessageOrigin,
    result: Result<bool, ProcessMessageError>,
) -> Seq<(Seq<u8>, MessageOrigin)> {
    if result == Ok::<bool, ProcessMessageError>(true) {
        log.push((message, origin))
    } else {
        log
    }
}

/// What becomes of a message that is to be recorded, given the callback's reply.
pub open spec fn recording(
    rules: ProcessingRules,
    log: Seq<(Seq<u8>, MessageOrigin)>,
    meter: WeightMeter,
    message: Seq<u8>,
    origin: MessageOrigin,
    reply: Option<Result<(), ()>>,
) -> Recorded {
    let required = evenly(message_weight(message));
    match rules.refusal(message, origin) {
        Some(error) => Recorded { result: Err(error), log, meter },
        None => match meter.consuming(required) {
            None => Recorded { result: Err(ProcessMessageError::Overweight(required)), log, meter },
            Some(after) => {
                let result = conclusion(message, reply);
                Recorded { result, log: logged(log, message, origin, result), meter: after }
            },
        },
    }
}

impl RecordingMessageProcessor {
    /// A processor that has seen nothing yet.
    pub fn new() -> (processor: Self)
        ensures
            processor@ == Seq::<(Seq<u8>, MessageOrigin)>::empty(),
    {
        let processor = RecordingMessageProcessor { messages_processed: Vec::new() };
        assert(processor@ =~= Seq::<(Seq<u8>, MessageOrigin)>::empty());
        processor
    }

    /// Finishes a message that the meter let pass, with what the callback replied if it was
    /// asked.
    pub fn conclude(
        &mut self,
        message: &[u8],
        origin: MessageOrigin,
        reply: Option<Result<(), ()>>,
    ) -> (done: Result<bool, ProcessMessageError>)
        requires
            reply is Some ==> calls_back(message@),
        ensures
            done == conclusion(message@, reply),
            final(self)@ == logged(old(self)@, message@, origin, done),
    {
        match reply {
            Some(Err(())) => {
                return Err(ProcessMessageError::Corrupt);
            },
            Some(Ok(())) => {
                if let Some(text) = strip_prefix(message, CALLBACK.as_slice()) {
                    if find_three_zeros(text) {
                        return Ok(false);
                    }
                }
            },
            None => {},
        }
        let copy: Vec<u8> = vstd::slice::slice_to_vec(message);
        self.messages_processed.push((copy, origin));
        assert(self@ =~= old(self)@.push((message@, origin)));
        Ok(true)
    }

    /// Process the given message, using no more than the meter's limit in weight to do so.
    ///
    /// Consumes exactly `n` weight of all components if it starts `weight=n` and `1` otherwise.
    /// Errors if the limit is insufficient to process the message or if the message is
    /// `badformat`, `corrupt` or `unsupported` with the respective error.
    pub fn process_message<F: Fn(&MessageOrigin, u32) -> Result<(), ()>>(
        &mut self,
        rules: &ProcessingRules,
        callback: F,
        message: &[u8],
        origin: MessageOrigin,
        meter: &mut WeightMeter,
        _id: &mut [u8; 32],
    ) -> (done: Result<bool, ProcessMessageError>)
        requires
            rules.refusal(message@, origin) is None ==> message_weight(message@) <= u64::MAX,
            asks(*rules, *old(meter), evenly(message_weight(message@)), message@, origin)
                ==> callback_is_a_number(message@) && call_requires(
                callback,
                (&origin, callback_number(message@)),
            ),
        ensures
            exists|reply: Option<Result<(), ()>>|
                #![trigger recording(*rules, old(self)@, *old(meter), message@, origin, reply)]
                may_reply(
                    callback,
                    asks(*rules, *old(meter), evenly(message_weight(message@)), message@, origin),
                    message@,
                    origin,
                    reply,
                ) && (Recorded { result: done, log: final(self)@, meter: *final(meter) })
                    == recording(*rules, old(self)@, *old(meter), message@, origin, reply),
            *final(_id) == *old(_id),
    {
        let ghost log = self@;
        let ghost unasked = recording(*rules, log, *meter, message@, origin, None);
        if let Err(error) = processing_message(rules, message, &origin) {
            assert(unasked == (Recorded { result: Err(error), log, meter: *meter }));
            return Err(error);
        }
        let weight: u64 = weight_of_message(message);
        let required = Weight::from_parts(weight, weight);
        assert(required == evenly(message_weight(message@)));
        match meter.try_consume(required) {
            Ok(()) => {
                match callback_argument(message) {
                    Some(number) => {
                        let outcome = callback(&origin, number);
                        let ghost asked = recording(
                            *rules,
                            log,
                            *old(meter),
                            message@,
                            origin,
                            Some(outcome),
                        );
                        let done = self.conclude(message, origin, Some(outcome));
                        assert(asked == (Recorded { result: done, log: self@, meter: *meter }));
                        done
                    },
                    None => {
                        let done = self.conclude(message, origin, None);
                        assert(unasked == (Recorded { result: done, log: self@, meter: *meter }));
                        done
                    },
                }
            },
            Err(()) => {
                let error = ProcessMessageError::Overweight(required);
                assert(unasked == (Recorded { result: Err(error), log, meter: *meter }));
                Err(error)
            },
        }
    }
}

/// Similar to [`RecordingMessageProcessor`] but only counts the number of messages processed and
/// does always consume one weight per message.
#[derive(Debug, Clone, Copy, PartialEq, Eq, Structural)]
pub struct CountingMessageProcessor {
    /// How many messages were processed.
    pub num_messages_processed: usize,
    /// How many messages were turned away.
    pub num_messages_errored: usize,
}

/// What became of a message that was to be counted.
pub struct Counted {
    pub result: Result<bool, ProcessMessageError>,
    pub processed: int,
    pub errored: int,
    pub meter: WeightMeter,
}

/// What becomes of a message that is to be counted, given the callback's reply.
pub open spec fn counting(
    rules: ProcessingRules,
    before: CountingMessageProcessor,
    meter: WeightMeter,
    message: Seq<u8>,
    origin: MessageOrigin,
    reply: Option<Result<(), ()>>,
) -> Counted {
    let processed = before.num_messages_processed as int;
    let errored = before.num_messages_errored as int;
    match rules.refusal(message, origin) {
        Some(error) => Counted { result: Err(error), processed, errored: errored + 1, meter },
        None => match meter.consuming(evenly(1)) {
            None => Counted {
                result: Err(ProcessMessageError::Overweight(evenly(1))),
                processed,
                errored,
                meter,
            },
            Some(after) => match reply {
                Some(Err(())) => Counted {
                    result: Err(ProcessMessageError::Corrupt),
                    processed,
                    errored,
                    meter: after,
                },
                _ => Counted { result: Ok(true), processed: processed + 1, errored, meter: after },
            },
        },
    }
}

impl CountingMessageProcessor {
    /// A processor that has counted nothing yet.
    pub fn new() -> (processor: Self)
        ensures
            processor.num_messages_processed == 0,
            processor.num_messages_errored == 0,
    {
        CountingMessageProcessor { num_messages_processed: 0, num_messages_errored: 0 }
    }

    /// Finishes a message that the meter let pass, with what the callback replied if it was
    /// asked.
    pub fn conclude(&mut self, reply: Option<Result<(), ()>>) -> (done: Result<
        bool,
        ProcessMessageError,
    >)
        requires
            !(reply matches Some(Err(_))) ==> old(self).num_messages_processed < usize::MAX,
        ensures
            final(self).num_messages_errored == old(self).num_messages_errored,
            match reply {
                Some(Err(())) => {
                    &&& done == Err::<bool, _>(ProcessMessageError::Corrupt)
                    &&& final(self).num_messages_processed == old(self).num_messages_processed
                },
                _ => {
                    &&& done == Ok::<bool, ProcessMessageError>(true)
                    &&& final(self).num_messages_processed == old(self).num_messages_processed + 1
                },
            },
    {
        if let Some(Err(())) = reply {
            return Err(ProcessMessageError::Corrupt);
        }
        self.num_messages_processed = self.num_messages_processed + 1;
        Ok(true)
    }

    /// Process the given message for one weight of all components, and count it.
    pub fn process_message<F: Fn(&MessageOrigin, u32) -> Result<(), ()>>(
        &mut self,
        rules: &ProcessingRules,
        callback: F,
        message: &[u8],
        origin: MessageOrigin,
        meter: &mut WeightMeter,
        _id: &mut [u8; 32],
    ) -> (done: Result<bool, ProcessMessageError>)
        requires
            rules.refusal(message@, origin) is Some ==> old(self).num_messages_errored
                < usize::MAX,
            rules.refusal(message@, origin) is None && old(meter).consuming(evenly(1)) is Some
                ==> old(self).num_messages_processed < usize::MAX,
            asks(*rules, *old(meter), evenly(1), message@, origin) ==> callback_is_a_number(
                message@,
            ) && call_requires(callback, (&origin, callback_number(message@))),
        ensures
            exists|reply: Option<Result<(), ()>>|
                #![trigger counting(*rules, *old(self), *old(meter), message@, origin, reply)]
                may_reply(
                    callback,
                    asks(*rules, *old(meter), evenly(1), message@, origin),
                    message@,
                    origin,
                    reply,
                ) && (Counted {
                    result: done,
                    processed: final(self).num_messages_processed as int,
                    errored: final(self).num_messages_errored as int,
                    meter: *final(meter),
                }) == counting(*rules, *old(self), *old(meter), message@, origin, reply),
            *final(_id) == *old(_id),
    {
        let ghost unasked = counting(*rules, *old(self), *old(meter), message@, origin, None);
        assert(unasked.processed >= 0);
        if let Err(error) = processing_message(rules, message, &origin) {
            self.num_messages_errored = self.num_messages_errored + 1;
            return Err(error);
        }
        let required = Weight::from_parts(1, 1);
        match meter.try_consume(required) {
            Ok(()) => {
                match callback_argument(message) {
                    Some(number) => {
                        let outcome = callback(&origin, number);
                        let ghost asked = counting(
                            *rules,
                            *old(self),
                            *old(meter),
                            message@,
                            origin,
                            Some(outcome),
                        );
                        assert(asked.processed >= 0);
                        self.conclude(Some(outcome))
                    },
                    None => self.conclude(None),
                }
            },
            Err(()) => Err(ProcessMessageError::Overweight(required)),
        }
    }
}

} // verus!
