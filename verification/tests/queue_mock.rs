use polkadot_kit::queue_mock::messages::{
    contains_origin, processing_message, CountingMessageProcessor, MessageOrigin,
    ProcessMessageError, ProcessingRules, RecordingMessageProcessor,
};
use polkadot_kit::queue_mock::queues::{
    assert_pages, build_triple_ring, choose_seed, clear_mocks, fp, gen_seed,
    num_overweight_enqueued_events, Footprint, MockedQueuePauser, QueueFootprint,
    RecordingQueueChangeHandler, RuntimeEvent,
};
use polkadot_kit::queue_mock::text::{
    ends_with, find_three_zeros, parse_up_to, read_leading_number, starts_with, strip_prefix,
};
use polkadot_kit::queue_mock::weights::{set_weight, MockedWeightInfo, Weight, WeightMeter};

const HERE: MessageOrigin = MessageOrigin::Here;
const THERE: MessageOrigin = MessageOrigin::There;

fn weight(both: u64) -> Weight {
    Weight::from_parts(both, both)
}

fn fine(_: &MessageOrigin, _: u32) -> Result<(), ()> {
    Ok(())
}

fn failing(_: &MessageOrigin, _: u32) -> Result<(), ()> {
    Err(())
}

/// One message through a fresh recorder; what came of it, the record, and the weight consumed.
fn record(
    rules: &ProcessingRules,
    callback: fn(&MessageOrigin, u32) -> Result<(), ()>,
    message: &[u8],
    limit: u64,
) -> (Result<bool, ProcessMessageError>, Vec<(Vec<u8>, MessageOrigin)>, Weight) {
    let mut processor = RecordingMessageProcessor::new();
    let mut meter = WeightMeter::with_limit(weight(limit));
    let mut id = [7u8; 32];
    let done = processor.process_message(rules, callback, message, THERE, &mut meter, &mut id);
    assert_eq!(id, [7u8; 32]);
    assert_eq!(meter.limit, weight(limit));
    (done, processor.messages_processed, meter.consumed)
}

/// The same through a fresh counter: what came of it, processed, errored, and the weight consumed.
fn count(
    rules: &ProcessingRules,
    callback: fn(&MessageOrigin, u32) -> Result<(), ()>,
    message: &[u8],
    limit: u64,
) -> (Result<bool, ProcessMessageError>, usize, usize, Weight) {
    let mut processor = CountingMessageProcessor::new();
    let mut meter = WeightMeter::with_limit(weight(limit));
    let mut id = [7u8; 32];
    let done = processor.process_message(rules, callback, message, THERE, &mut meter, &mut id);
    assert_eq!(id, [7u8; 32]);
    (done, processor.num_messages_processed, processor.num_messages_errored, meter.consumed)
}

#[test]
fn plain_messages_weigh_one_and_are_recorded() {
    let rules = ProcessingRules::new();
    assert_eq!(
        record(&rules, fine, b"hello", 1),
        (Ok(true), vec![(b"hello".to_vec(), THERE)], weight(1))
    );
    assert_eq!(count(&rules, fine, b"hello", 1), (Ok(true), 1, 0, weight(1)));
    assert_eq!(record(&rules, fine, b"", 1), (Ok(true), vec![(vec![], THERE)], weight(1)));
}

#[test]
fn messages_consume_the_weight_they_name() {
    let rules = ProcessingRules::new();
    let message = b"weight=12 and more".to_vec();
    assert_eq!(
        record(&rules, fine, &message, 20),
        (Ok(true), vec![(message.clone(), THERE)], weight(12))
    );
    assert_eq!(
        record(&rules, fine, &message, 11),
        (Err(ProcessMessageError::Overweight(weight(12))), vec![], weight(0))
    );
    assert_eq!(
        record(&rules, fine, b"weight=", 0),
        (Ok(true), vec![(b"weight=".to_vec(), THERE)], weight(0))
    );
    let largest = b"weight=18446744073709551615".to_vec();
    assert_eq!(
        record(&rules, fine, &largest, u64::MAX),
        (Ok(true), vec![(largest.clone(), THERE)], weight(u64::MAX))
    );
    // Counting takes one weight whatever the message says.
    assert_eq!(count(&rules, fine, &message, 1), (Ok(true), 1, 0, weight(1)));
    assert_eq!(
        count(&rules, fine, &message, 0),
        (Err(ProcessMessageError::Overweight(weight(1))), 0, 0, weight(0))
    );
}

#[test]
fn endings_turn_messages_away() {
    let rules = ProcessingRules::new();
    let cases: Vec<(&[u8], ProcessMessageError)> = vec![
        (b"badformat", ProcessMessageError::BadFormat),
        (b"very badformat", ProcessMessageError::BadFormat),
        (b"corrupt", ProcessMessageError::Corrupt),
        (b"weight=3 corrupt", ProcessMessageError::Corrupt),
        (b"unsupported", ProcessMessageError::Unsupported),
        (b"yield", ProcessMessageError::Yield),
        (b"\xff\xfeyield", ProcessMessageError::Yield),
        (b"stacklimitreached", ProcessMessageError::StackLimitReached),
    ];
    for (message, error) in cases {
        assert_eq!(processing_message(&rules, message, &HERE), Err(error));
        assert_eq!(record(&rules, fine, message, 10), (Err(error), vec![], weight(0)));
        assert_eq!(count(&rules, fine, message, 10), (Err(error), 0, 1, weight(0)));
    }
    for message in [b"yields".as_slice(), b"ormat", b"corrup", b"YIELD"] {
        assert_eq!(processing_message(&rules, message, &HERE), Ok(()));
    }
}

#[test]
fn stack_limits_can_be_ignored() {
    let rules = ProcessingRules { yielding_queues: vec![], ignore_stack_ov_error: true };
    assert_eq!(processing_message(&rules, b"stacklimitreached", &HERE), Ok(()));
    assert_eq!(
        processing_message(&rules, b"corrupt", &HERE),
        Err(ProcessMessageError::Corrupt)
    );
}

#[test]
fn yielding_queues_yield_on_every_message() {
    let rules = ProcessingRules { yielding_queues: vec![THERE], ignore_stack_ov_error: false };
    assert_eq!(
        record(&rules, fine, b"hello", 9),
        (Err(ProcessMessageError::Yield), vec![], weight(0))
    );
    assert_eq!(
        processing_message(&rules, b"corrupt", &THERE),
        Err(ProcessMessageError::Yield)
    );
    assert_eq!(processing_message(&rules, b"hello", &HERE), Ok(()));
}

#[test]
fn callbacks_decide() {
    let rules = ProcessingRules::new();
    let message = b"callback=17".to_vec();
    assert_eq!(
        record(&rules, fine, &message, 9),
        (Ok(true), vec![(message.clone(), THERE)], weight(1))
    );
    assert_eq!(
        record(&rules, failing, &message, 9),
        (Err(ProcessMessageError::Corrupt), vec![], weight(1))
    );
    assert_eq!(
        count(&rules, failing, &message, 9),
        (Err(ProcessMessageError::Corrupt), 0, 0, weight(1))
    );
    // A callback with three zeros in a row is not done, but only for the recorder.
    assert_eq!(record(&rules, fine, b"callback=1000", 9), (Ok(false), vec![], weight(1)));
    assert_eq!(count(&rules, fine, b"callback=1000", 9), (Ok(true), 1, 0, weight(1)));
    // Without the weight for it, nothing is called.
    assert_eq!(
        record(&rules, failing, &message, 0),
        (Err(ProcessMessageError::Overweight(weight(1))), vec![], weight(0))
    );
}

#[test]
fn callbacks_are_told_origin_and_number() {
    fn picky(origin: &MessageOrigin, number: u32) -> Result<(), ()> {
        if *origin == THERE && number == 4294967295 { Ok(()) } else { Err(()) }
    }
    let rules = ProcessingRules::new();
    assert_eq!(record(&rules, picky, b"callback=4294967295", 9).0, Ok(true));
    assert_eq!(record(&rules, picky, b"callback=+4294967295", 9).0, Ok(true));
    assert_eq!(
        record(&rules, picky, b"callback=4294967294", 9).0,
        Err(ProcessMessageError::Corrupt)
    );
}

#[test]
fn replies_can_be_concluded_on_their_own() {
    let mut recorder = RecordingMessageProcessor::new();
    assert_eq!(recorder.conclude(b"a", HERE, None), Ok(true));
    assert_eq!(
        recorder.conclude(b"callback=1", HERE, Some(Err(()))),
        Err(ProcessMessageError::Corrupt)
    );
    assert_eq!(recorder.conclude(b"callback=0001", HERE, Some(Ok(()))), Ok(false));
    assert_eq!(recorder.conclude(b"callback=1", THERE, Some(Ok(()))), Ok(true));
    assert_eq!(
        recorder.messages_processed,
        vec![(b"a".to_vec(), HERE), (b"callback=1".to_vec(), THERE)]
    );
    let mut counter = CountingMessageProcessor::new();
    assert_eq!(counter.conclude(None), Ok(true));
    assert_eq!(counter.conclude(Some(Ok(()))), Ok(true));
    assert_eq!(counter.conclude(Some(Err(()))), Err(ProcessMessageError::Corrupt));
    assert_eq!(counter.num_messages_processed, 2);
}

#[test]
fn the_record_keeps_the_order_and_the_meter_its_limit() {
    let rules = ProcessingRules::new();
    let mut processor = RecordingMessageProcessor::new();
    let mut meter = WeightMeter::with_limit(weight(6));
    let mut id = [0u8; 32];
    let mut results = Vec::new();
    for message in [b"a".as_slice(), b"weight=4", b"weight=2", b"corrupt", b"b", b"c"] {
        results.push(processor.process_message(
            &rules, fine, message, HERE, &mut meter, &mut id,
        ));
    }
    assert_eq!(
        results,
        vec![
            Ok(true),
            Ok(true),
            Err(ProcessMessageError::Overweight(weight(2))),
            Err(ProcessMessageError::Corrupt),
            Ok(true),
            Err(ProcessMessageError::Overweight(weight(1))),
        ]
    );
    assert_eq!(
        processor.messages_processed,
        vec![(b"a".to_vec(), HERE), (b"weight=4".to_vec(), HERE), (b"b".to_vec(), HERE)]
    );
    assert_eq!(meter.consumed, weight(6));
}

#[test]
fn meters_guard_each_component() {
    let mut meter = WeightMeter::with_limit(Weight::from_parts(10, 3));
    assert_eq!(meter.try_consume(Weight::from_parts(4, 3)), Ok(()));
    assert_eq!(meter.consumed, Weight::from_parts(4, 3));
    assert_eq!(meter.try_consume(Weight::from_parts(1, 1)), Err(()));
    assert_eq!(meter.try_consume(Weight::from_parts(7, 0)), Err(()));
    assert_eq!(meter.consumed, Weight::from_parts(4, 3));
    assert_eq!(meter.try_consume(Weight::from_parts(6, 0)), Ok(()));
    assert_eq!(meter.consumed, Weight::from_parts(10, 3));
    let mut full = WeightMeter::with_limit(weight(u64::MAX));
    assert_eq!(full.try_consume(weight(u64::MAX)), Ok(()));
    assert_eq!(full.try_consume(Weight::from_parts(1, 0)), Err(()));
    assert_eq!(full.try_consume(Weight::zero()), Ok(()));
}

#[test]
fn consuming_twice_is_consuming_the_sum() {
    for (first, second) in [(3, 4), (5, 5), (5, 6), (0, 10), (11, 0)] {
        let mut steps = WeightMeter::with_limit(weight(10));
        let passed = steps.try_consume(weight(first)).is_ok()
            && steps.try_consume(weight(second)).is_ok();
        let mut once = WeightMeter::with_limit(weight(10));
        assert_eq!(once.try_consume(weight(first + second)).is_ok(), passed);
        if passed {
            assert_eq!(steps, once);
        }
    }
}

#[test]
fn weights_are_read_back_as_they_were_set() {
    let mut info = MockedWeightInfo::new(weight(1));
    let names = [
        "reap_page",
        "execute_overweight_page_updated",
        "execute_overweight_page_removed",
        "service_page_base_completion",
        "service_page_base_no_completion",
        "service_queue_base",
        "bump_service_head",
        "set_service_head",
        "service_page_item",
        "ready_ring_knit",
        "ready_ring_unknit",
    ];
    fn read(info: &MockedWeightInfo) -> Vec<Weight> {
        vec![
            info.reap_page(),
            info.execute_overweight_page_updated(),
            info.execute_overweight_page_removed(),
            info.service_page_base_completion(),
            info.service_page_base_no_completion(),
            info.service_queue_base(),
            info.bump_service_head(),
            info.set_service_head(),
            info.service_page_item(),
            info.ready_ring_knit(),
            info.ready_ring_unknit(),
        ]
    }
    assert_eq!(read(&info), vec![weight(1); 11]);
    for (i, name) in names.iter().enumerate() {
        set_weight(&mut info, name, weight(i as u64 + 10));
        let mut wanted = Vec::new();
        for j in 0..11 {
            wanted.push(if j <= i { weight(j as u64 + 10) } else { weight(1) });
        }
        assert_eq!(read(&info), wanted);
    }
    // Setting again replaces.
    info.set_weight("service_page_item", Weight::from_parts(5, 6));
    assert_eq!(info.service_page_item(), Weight::from_parts(5, 6));
    assert_eq!(info.weight_for_call.len(), 11);
    assert_eq!(info.weight_of("something else"), weight(1));
    info.clear();
    assert_eq!(read(&info), vec![weight(1); 11]);
}

#[test]
fn footprints_hold_their_numbers() {
    assert_eq!(
        fp(1, 2, 3, 4),
        QueueFootprint { pages: 1, ready_pages: 2, storage: Footprint { count: 3, size: 4 } }
    );
}

#[test]
fn queue_changes_are_recorded_in_turn() {
    let mut handler = RecordingQueueChangeHandler::new();
    handler.on_queue_changed(HERE, fp(1, 1, 2, 30));
    handler.on_queue_changed(MessageOrigin::Everywhere(4), fp(9, 8, 0, 7));
    assert_eq!(
        handler.queue_changes,
        vec![(HERE, 2, 30), (MessageOrigin::Everywhere(4), 0, 7)]
    );
}

#[test]
fn paused_queues_are_told_from_others() {
    let pauser = MockedQueuePauser { paused_queues: vec![THERE, MessageOrigin::Everywhere(1)] };
    assert!(pauser.is_paused(&THERE));
    assert!(pauser.is_paused(&MessageOrigin::Everywhere(1)));
    assert!(!pauser.is_paused(&MessageOrigin::Everywhere(2)));
    assert!(!pauser.is_paused(&HERE));
    assert!(contains_origin(&vec![HERE], &HERE));
    assert!(!contains_origin(&vec![], &HERE));
}

#[test]
fn clearing_takes_back_what_a_test_left() {
    let mut weights = MockedWeightInfo::new(weight(3));
    weights.set_weight("reap_page", weight(8));
    let mut changes = RecordingQueueChangeHandler::new();
    changes.on_queue_changed(HERE, fp(1, 1, 1, 1));
    let mut counter =
        CountingMessageProcessor { num_messages_processed: 5, num_messages_errored: 6 };
    clear_mocks(&mut weights, &mut changes, &mut counter);
    assert_eq!(weights.reap_page(), weight(3));
    assert!(changes.queue_changes.is_empty());
    assert_eq!(
        counter,
        CountingMessageProcessor { num_messages_processed: 5, num_messages_errored: 0 }
    );
}

#[test]
fn exactly_the_given_pages_are_asked_for() {
    assert!(assert_pages(&[], &[]));
    assert!(assert_pages(&[(HERE, 3), (HERE, 1)], &[1, 3]));
    assert!(!assert_pages(&[(HERE, 3), (HERE, 1)], &[1]));
    assert!(!assert_pages(&[(HERE, 3), (HERE, 1)], &[1, 2]));
    assert!(!assert_pages(&[(HERE, 3), (THERE, 1)], &[1, 3]));
    assert!(!assert_pages(&[(HERE, 3)], &[3, 3]));
    assert!(!assert_pages(&[(HERE, 0), (HERE, 1)], &[0, 0]));
}

#[test]
fn the_ring_of_three() {
    assert_eq!(build_triple_ring(), [HERE, THERE, MessageOrigin::Everywhere(0)]);
}

#[test]
fn overweight_events_are_counted() {
    let over = RuntimeEvent::OverweightEnqueued;
    let other = RuntimeEvent::Other;
    assert_eq!(num_overweight_enqueued_events(&[]), 0);
    assert_eq!(num_overweight_enqueued_events(&[other, over, other, over, over]), 3);
}

#[test]
fn seeds_are_configured_or_drawn() {
    assert_eq!(choose_seed(&Some("42".to_string()), 7), 42);
    assert_eq!(choose_seed(&Some("18446744073709551615".to_string()), 7), u64::MAX);
    assert_eq!(choose_seed(&None, 7), 7);
    assert_eq!(gen_seed(&Some("0042".to_string())), 42);
    let drawn: Vec<u64> = (0..4).map(|_| gen_seed(&None)).collect();
    assert!(drawn.iter().any(|seed| *seed != drawn[0]));
}

#[test]
fn texts_are_compared_at_both_ends() {
    assert!(starts_with(b"weight=3", b"weight="));
    assert!(!starts_with(b"weigh", b"weight="));
    assert!(starts_with(b"", b""));
    assert!(ends_with(b"is corrupt", b"corrupt"));
    assert!(!ends_with(b"corrupt.", b"corrupt"));
    assert_eq!(strip_prefix(b"callback=12", b"callback="), Some(b"12".as_slice()));
    assert_eq!(strip_prefix(b"call", b"callback="), None);
    assert!(find_three_zeros(b"10001"));
    assert!(!find_three_zeros(b"1001001"));
    assert!(find_three_zeros(b"000"));
    assert!(!find_three_zeros(b"00"));
}

#[test]
fn numbers_are_read_as_the_standard_library_reads_them() {
    let texts = [
        "", "0", "007", "+1", "+", "-0", "-1", "12a", " 1", "1 ", "4294967295", "4294967296",
        "18446744073709551615", "18446744073709551616", "99999999999999999999999", "++1",
    ];
    for text in texts {
        assert_eq!(parse_up_to(text.as_bytes(), u64::MAX), text.parse::<u64>().ok(), "{:?}", text);
        assert_eq!(
            parse_up_to(text.as_bytes(), u32::MAX as u64),
            text.parse::<u32>().ok().map(|n| n as u64),
            "{:?}",
            text
        );
    }
    assert_eq!(read_leading_number(b"120x9"), 120);
    assert_eq!(read_leading_number(b"x9"), 0);
}
