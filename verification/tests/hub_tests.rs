use hub::api::{clean_viewmodel, read_viewmodel, Serialized, ViewmodelUpdate, Viewmodel};
use hub::bridge::{check_and_initialize, record_copy, update_view, update_viewmodel, ChannelHandle, ChannelReadiness, ViewOutcome, SMALL_VIEW_PAYLOAD};
use hub::data_model::{clean_model, SampleNumbers};
use hub::sample_functions::{
    add_one_to_sample_number, add_seven, calculate_something, count_update, COUNT_ITEM_ADDRESS,
    MESSAGE_PACK_FORMULA, SAMPLE_NUMBER_NAME,
};

fn payload(bytes: &[u8], formula: &str) -> Serialized {
    Serialized { bytes: bytes.to_vec(), formula: formula.to_string() }
}

fn update(address: &str, bytes: &[u8]) -> ViewmodelUpdate {
    ViewmodelUpdate { item_address: address.to_string(), serialized: payload(bytes, "raw") }
}

fn mark_all(readiness: &mut ChannelReadiness) {
    record_copy(readiness, ChannelHandle::ViewmodelUpdateSender);
    record_copy(readiness, ChannelHandle::ViewmodelUpdateStream);
    record_copy(readiness, ChannelHandle::ViewUpdateStream);
}

fn value_record(number: &[u8]) -> Vec<u8> {
    let mut bytes = vec![0x81, 0xa5, b'v', b'a', b'l', b'u', b'e'];
    bytes.extend_from_slice(number);
    bytes
}

#[test]
fn read_of_empty_viewmodel_is_none() {
    let mut model = Viewmodel::new();
    assert!(read_viewmodel(&mut model, Vec::new(), "a.b").is_none());
}

#[test]
fn read_gives_back_the_last_write() {
    let mut model = Viewmodel::new();
    let pending = vec![update("a", &[1]), update("b", &[2]), update("a", &[3])];
    let found = read_viewmodel(&mut model, pending, "a").unwrap();
    assert_eq!(found.bytes, vec![3]);
    assert_eq!(found.formula, "raw");
    let other = read_viewmodel(&mut model, Vec::new(), "b").unwrap();
    assert_eq!(other.bytes, vec![2]);
}

#[test]
fn untouched_address_keeps_its_payload() {
    let mut model = Viewmodel::new();
    read_viewmodel(&mut model, vec![update("a", &[9])], "a");
    let found = read_viewmodel(&mut model, vec![update("b", &[1]), update("c", &[2])], "a").unwrap();
    assert_eq!(found.bytes, vec![9]);
}

#[test]
fn batches_read_the_same_as_one() {
    let mut once = Viewmodel::new();
    let mut twice = Viewmodel::new();
    read_viewmodel(&mut once, vec![update("x", &[1]), update("y", &[2]), update("x", &[4])], "x");
    read_viewmodel(&mut twice, vec![update("x", &[1])], "x");
    read_viewmodel(&mut twice, vec![update("y", &[2]), update("x", &[4])], "x");
    for address in ["x", "y", "z"] {
        let a = once.get(address).map(|s| s.bytes);
        let b = twice.get(address).map(|s| s.bytes);
        assert_eq!(a, b);
    }
}

#[test]
fn clean_viewmodel_forgets_items() {
    let mut model = Viewmodel::new();
    read_viewmodel(&mut model, vec![update("a", &[1])], "a");
    clean_viewmodel(&mut model);
    assert!(read_viewmodel(&mut model, Vec::new(), "a").is_none());
}

#[test]
fn duplicate_copies_bytes_and_formula() {
    let original = payload(&[5, 6, 7], "image");
    let copy = original.duplicate();
    assert_eq!(copy.bytes, original.bytes);
    assert_eq!(copy.formula, original.formula);
}

#[test]
fn channels_are_initialized_once() {
    let mut readiness = ChannelReadiness::new();
    assert!(!readiness.is_ready());
    assert!(check_and_initialize(&readiness));
    assert!(!readiness.is_ready());
    record_copy(&mut readiness, ChannelHandle::ViewUpdateStream);
    record_copy(&mut readiness, ChannelHandle::ViewmodelUpdateSender);
    assert!(!readiness.is_ready());
    assert!(check_and_initialize(&readiness));
    record_copy(&mut readiness, ChannelHandle::ViewmodelUpdateStream);
    assert!(readiness.is_ready());
    assert!(!check_and_initialize(&readiness));
    assert!(!check_and_initialize(&readiness));
}

#[test]
fn failed_copy_leaves_thread_unready() {
    let readiness = ChannelReadiness::new();
    let first = update_viewmodel(&readiness, "a", payload(&[1], "raw"));
    assert!(first.initialize);
    // The copy did not happen, so the thread is never marked ready.
    let second = update_viewmodel(&readiness, "a", payload(&[2], "raw"));
    assert!(second.initialize);
    assert!(!readiness.is_ready());
}

#[test]
fn update_viewmodel_sends_address_and_payload() {
    let mut readiness = ChannelReadiness::new();
    let first = update_viewmodel(&readiness, "someItemCategory.count", payload(&[1, 2], "messagePack"));
    assert!(first.initialize);
    assert_eq!(first.update.item_address, "someItemCategory.count");
    assert_eq!(first.update.serialized.bytes, vec![1, 2]);
    assert_eq!(first.update.serialized.formula, "messagePack");
    assert_eq!(first.notice, "someItemCategory.count");
    mark_all(&mut readiness);
    let second = update_viewmodel(&readiness, "other", payload(&[], "raw"));
    assert!(!second.initialize);
}

#[test]
fn update_then_read_round_trip() {
    let readiness = ChannelReadiness::new();
    let mut model = Viewmodel::new();
    let sent = update_viewmodel(&readiness, "item", payload(&[42], "raw"));
    let later = update_viewmodel(&readiness, "elsewhere", payload(&[1], "raw"));
    let found = read_viewmodel(&mut model, vec![sent.update, later.update], "item").unwrap();
    assert_eq!(found.bytes, vec![42]);
}

#[test]
fn small_view_payload_is_refused_when_warning() {
    let readiness = ChannelReadiness::new();
    let small = vec![0u8; SMALL_VIEW_PAYLOAD - 1];
    let dispatch = update_view(&readiness, "display", payload(&small, "image"), true);
    assert!(dispatch.initialize);
    assert!(matches!(dispatch.outcome, ViewOutcome::TooSmall));
}

#[test]
fn small_view_payload_is_sent_without_warning() {
    let readiness = ChannelReadiness::new();
    let dispatch = update_view(&readiness, "display", payload(&[1, 2, 3], "image"), false);
    match dispatch.outcome {
        ViewOutcome::Send(view) => {
            assert_eq!(view.display_address, "display");
            assert_eq!(view.serialized.bytes, vec![1, 2, 3]);
        }
        ViewOutcome::TooSmall => panic!("payload refused"),
    }
}

#[test]
fn view_payload_at_threshold_is_sent() {
    assert_eq!(SMALL_VIEW_PAYLOAD, 1024);
    let mut readiness = ChannelReadiness::new();
    mark_all(&mut readiness);
    let big = vec![7u8; 1024];
    let dispatch = update_view(&readiness, "display", payload(&big, "image"), true);
    assert!(!dispatch.initialize);
    match dispatch.outcome {
        ViewOutcome::Send(view) => assert_eq!(view.serialized.bytes.len(), 1024),
        ViewOutcome::TooSmall => panic!("payload refused"),
    }
}

#[test]
fn add_seven_adds_seven() {
    assert_eq!(add_seven(0), 7);
    assert_eq!(add_seven(-10), -3);
    assert_eq!(add_seven(i32::MAX - 7), i32::MAX);
}

#[test]
fn calculate_something_starts_from_zero() {
    let mut numbers = SampleNumbers::new();
    let published = calculate_something(payload(&[], "none"), &mut numbers).unwrap();
    assert_eq!(numbers.get(SAMPLE_NUMBER_NAME), Some(7));
    assert_eq!(published.item_address, COUNT_ITEM_ADDRESS);
    assert_eq!(published.item_address, "someItemCategory.count");
    assert_eq!(published.serialized.formula, MESSAGE_PACK_FORMULA);
    assert_eq!(published.serialized.formula, "messagePack");
    assert_eq!(published.serialized.bytes, value_record(&[7]));
}

#[test]
fn calculate_something_adds_seven_each_time() {
    let mut numbers = SampleNumbers::new();
    for _ in 0..30 {
        calculate_something(payload(&[], "none"), &mut numbers);
    }
    assert_eq!(numbers.get("someValueCategory.thisNumber"), Some(210));
    let published = calculate_something(payload(&[], "none"), &mut numbers).unwrap();
    assert_eq!(numbers.get(SAMPLE_NUMBER_NAME), Some(217));
    assert_eq!(published.serialized.bytes, value_record(&[0xcc, 217]));
}

#[test]
fn add_one_counts_up_and_keeps_other_numbers() {
    let mut numbers = SampleNumbers::new();
    numbers.insert("other".to_string(), -5);
    let first = add_one_to_sample_number(&mut numbers).unwrap();
    assert_eq!(numbers.get(SAMPLE_NUMBER_NAME), Some(1));
    assert_eq!(first.serialized.bytes, value_record(&[1]));
    add_one_to_sample_number(&mut numbers);
    assert_eq!(numbers.get(SAMPLE_NUMBER_NAME), Some(2));
    assert_eq!(numbers.get("other"), Some(-5));
}

#[test]
fn negative_number_is_published_as_negative() {
    let mut numbers = SampleNumbers::new();
    numbers.insert(SAMPLE_NUMBER_NAME.to_string(), -9);
    let published = add_one_to_sample_number(&mut numbers).unwrap();
    assert_eq!(numbers.get(SAMPLE_NUMBER_NAME), Some(-8));
    assert_eq!(published.serialized.bytes, value_record(&[0xf8]));
}

#[test]
fn clean_model_forgets_numbers() {
    let mut numbers = SampleNumbers::new();
    calculate_something(payload(&[], "none"), &mut numbers);
    clean_model(&mut numbers);
    assert!(!numbers.contains_key(SAMPLE_NUMBER_NAME));
    let published = calculate_something(payload(&[], "none"), &mut numbers).unwrap();
    assert_eq!(published.serialized.bytes, value_record(&[7]));
}

#[test]
fn count_update_wraps_bytes() {
    let update = count_update(vec![1, 2, 3]);
    assert_eq!(update.item_address, "someItemCategory.count");
    assert_eq!(update.serialized.bytes, vec![1, 2, 3]);
    assert_eq!(update.serialized.formula, "messagePack");
}

#[test]
fn interleaved_steps_add_up() {
    let mut numbers = SampleNumbers::new();
    numbers.insert("other".to_string(), 3);
    for step in 0..10 {
        if step % 3 == 0 {
            calculate_something(payload(&[], "none"), &mut numbers);
        } else {
            add_one_to_sample_number(&mut numbers);
        }
    }
    // Four calls add seven each, six ticks add one each.
    assert_eq!(numbers.get(SAMPLE_NUMBER_NAME), Some(34));
    assert_eq!(numbers.get("other"), Some(3));
}

#[test]
fn calculate_something_ignores_its_argument() {
    let mut a = SampleNumbers::new();
    let mut b = SampleNumbers::new();
    let pa = calculate_something(payload(&[1, 2, 3], "x"), &mut a).unwrap();
    let pb = calculate_something(payload(&[], "y"), &mut b).unwrap();
    assert_eq!(a.get(SAMPLE_NUMBER_NAME), b.get(SAMPLE_NUMBER_NAME));
    assert_eq!(pa.item_address, pb.item_address);
    assert_eq!(pa.serialized.bytes, pb.serialized.bytes);
}

#[test]
fn later_write_wins_across_reads() {
    let mut model = Viewmodel::new();
    read_viewmodel(&mut model, vec![update("a", &[1]), update("b", &[5])], "b");
    let found = read_viewmodel(&mut model, vec![update("c", &[6]), update("a", &[2]), update("d", &[7])], "a").unwrap();
    assert_eq!(found.bytes, vec![2]);
    let again = read_viewmodel(&mut model, Vec::new(), "a").unwrap();
    assert_eq!(again.bytes, vec![2]);
}

#[test]
fn partial_copy_is_not_ready() {
    let mut readiness = ChannelReadiness::new();
    record_copy(&mut readiness, ChannelHandle::ViewmodelUpdateSender);
    let dispatch = update_viewmodel(&readiness, "a", payload(&[1], "raw"));
    assert!(dispatch.initialize);
    record_copy(&mut readiness, ChannelHandle::ViewmodelUpdateSender);
    assert!(!readiness.is_ready());
}

#[test]
fn steps_from_empty_store_count_seven_per_call_and_one_per_tick() {
    let mut numbers = SampleNumbers::new();
    for _ in 0..5 {
        add_one_to_sample_number(&mut numbers);
    }
    for _ in 0..3 {
        calculate_something(payload(&[], "none"), &mut numbers);
    }
    assert_eq!(numbers.get(SAMPLE_NUMBER_NAME), Some(5 + 7 * 3));
}
