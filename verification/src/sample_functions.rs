//! Sample handlers: they change a stored number and publish the new value
//! to the viewmodel as a MessagePack record.
use vstd::prelude::*;
use crate::api::{Serialized, SerializedView, ViewmodelUpdate, ViewmodelUpdateView};
use crate::data_model::SampleNumbers;

verus! {

/// The name of the number that the sample handlers change.
pub const SAMPLE_NUMBER_NAME: &'static str = "someValueCategory.thisNumber";

/// The viewmodel item at which the sample number is published.
pub const COUNT_ITEM_ADDRESS: &'static str = "someItemCategory.count";

/// The format name of payloads written in MessagePack.
pub const MESSAGE_PACK_FORMULA: &'static str = "messagePack";

/// The field of the published record that holds the number.
pub const RECORD_FIELD: &'static str = "value";

/// The bytes that rmp_serde's encoder (`rmp_serde::encode::write`, which
/// `to_vec` also runs) writes for the JSON object whose one entry maps
/// `key` to the number `value`.
pub uninterp spec fn message_pack_record(key: Seq<char>, value: i32) -> Seq<u8>;

/// Writes the JSON object `{key: value}` in MessagePack by
/// `rmp_serde::encode::write` into a fresh `Vec<u8>`. Trusted: the bytes
/// are `message_pack_record(key, value)`, a function of the two arguments
/// alone, and the encoder returns `Ok`. In rmp-serde's source its errors
/// come only from the writer, and writing to a `Vec<u8>` never fails (out
/// of memory aborts instead), or from value shapes (extension types,
/// tuples) that a one-entry object of a string and an integer does not
/// have.
#[verifier::external_body]
fn encode_record(key: &str, value: i32) -> (encoded: Option<Vec<u8>>)
    ensures
        encoded is Some,
        encoded matches Some(bytes) ==> bytes@ == message_pack_record(key@, value),
{
    let mut record = serde_json::Map::new();
    record.insert(key.to_string(), serde_json::Value::from(value));
    let mut bytes: Vec<u8> = Vec::new();
    match rmp_serde::encode::write(&mut bytes, &serde_json::Value::Object(record)) {
        Ok(()) => Some(bytes),
        Err(_) => None,
    }
}

/// The number stored under `name`, or 0 where none is.
pub open spec fn stored_or_zero(numbers: Map<Seq<char>, i32>, name: Seq<char>) -> int {
    if numbers.contains_key(name) {
        numbers[name] as int
    } else {
        0
    }
}

/// The store after `step` is added to the sample number (0 where none is
/// stored); the other numbers stay as they are.
pub open spec fn after_adding(numbers: Map<Seq<char>, i32>, step: int) -> Map<Seq<char>, i32> {
    numbers.insert(SAMPLE_NUMBER_NAME@, (stored_or_zero(numbers, SAMPLE_NUMBER_NAME@) + step) as i32)
}

/// How much one sample step adds: seven for `calculate_something`
/// (`true`), one for a tick of the counter (`false`).
pub open spec fn step_size(adds_seven: bool) -> int {
    if adds_seven {
        7
    } else {
        1
    }
}

/// The store after the sample steps `steps` ran one after the other,
/// oldest first.
pub open spec fn after_steps(numbers: Map<Seq<char>, i32>, steps: Seq<bool>) -> Map<Seq<char>, i32>
    decreases steps.len(),
{
    if steps.len() == 0 {
        numbers
    } else {
        after_adding(after_steps(numbers, steps.drop_last()), step_size(steps.last()))
    }
}

/// What the steps add up to: seven for each `calculate_something` and one
/// for each tick.
pub open spec fn steps_total(steps: Seq<bool>) -> int
    decreases steps.len(),
{
    if steps.len() == 0 {
        0
    } else {
        steps_total(steps.drop_last()) + step_size(steps.last())
    }
}

/// How many of the steps are calls of `calculate_something`.
pub open spec fn calculate_calls(steps: Seq<bool>) -> nat
    decreases steps.len(),
{
    if steps.len() == 0 {
        0
    } else {
        calculate_calls(steps.drop_last()) + if steps.last() { 1nat } else { 0nat }
    }
}

/// Adds seven.
pub fn add_seven(before: i32) -> (after: i32)
    requires
        before + 7 <= i32::MAX,
    ensures
        after == before + 7,
{
    before + 7
}

/// The viewmodel update that publishes the MessagePack bytes `encoded` at
/// the count item.
pub fn count_update(encoded: Vec<u8>) -> (update: ViewmodelUpdate)
    ensures
        update@ == (ViewmodelUpdateView {
            item_address: COUNT_ITEM_ADDRESS@,
            serialized: SerializedView { bytes: encoded@, formula: MESSAGE_PACK_FORMULA@ },
        }),
{
    ViewmodelUpdate {
        item_address: COUNT_ITEM_ADDRESS.to_owned(),
        serialized: Serialized { bytes: encoded, formula: MESSAGE_PACK_FORMULA.to_owned() },
    }
}

/// What a sample handler publishes for the new number `value`: the count
/// update of its MessagePack record.
pub open spec fn published_count(value: i32, published: Option<ViewmodelUpdate>) -> bool {
    published matches Some(u) ==> u@ == (ViewmodelUpdateView {
        item_address: COUNT_ITEM_ADDRESS@,
        serialized: SerializedView {
            bytes: message_pack_record(RECORD_FIELD@, value),
            formula: MESSAGE_PACK_FORMULA@,
        },
    })
}

/// Encodes `{"value": value}` and wraps it as the count update.
fn publish_count(value: i32) -> (published: Option<ViewmodelUpdate>)
    ensures
        published is Some,
        published_count(value, published),
{
    match encode_record(RECORD_FIELD, value) {
        Some(bytes) => Some(count_update(bytes)),
        None => None,
    }
}

/// The sample number, after storing 0 under its name where nothing was.
fn current_sample_number(numbers: &mut SampleNumbers) -> (value: i32)
    ensures
        value == stored_or_zero(old(numbers)@, SAMPLE_NUMBER_NAME@),
        final(numbers)@ == old(numbers)@.insert(SAMPLE_NUMBER_NAME@, value),
{
    if !numbers.contains_key(SAMPLE_NUMBER_NAME) {
        numbers.insert(SAMPLE_NUMBER_NAME.to_owned(), 0);
    }
    match numbers.get(SAMPLE_NUMBER_NAME) {
        Some(v) => {
            proof {
                assert(numbers@ =~= old(numbers)@.insert(SAMPLE_NUMBER_NAME@, v));
            }
            v
        },
        None => 0,
    }
}

/// Handles the user's request to add seven to the sample number: stores
/// the sum and returns the update that publishes it at the count item.
/// The payload of the request is not read.
pub fn calculate_something(serialized: Serialized, numbers: &mut SampleNumbers) -> (published: Option<ViewmodelUpdate>)
    requires
        stored_or_zero(old(numbers)@, SAMPLE_NUMBER_NAME@) + 7 <= i32::MAX,
    ensures
        final(numbers)@ == after_adding(old(numbers)@, 7),
        published matches Some(u) && u@.item_address == COUNT_ITEM_ADDRESS@
            && u@.serialized.formula == MESSAGE_PACK_FORMULA@
            && u@.serialized.bytes == message_pack_record(RECORD_FIELD@, final(numbers)@[SAMPLE_NUMBER_NAME@]),
        published_count(final(numbers)@[SAMPLE_NUMBER_NAME@], published),
{
    let _ = serialized;
    let value = current_sample_number(numbers);
    let new_value = add_seven(value);
    numbers.insert(SAMPLE_NUMBER_NAME.to_owned(), new_value);
    publish_count(new_value)
}

/// One tick of the counter: adds one to the sample number, stores it and
/// returns the update that publishes it at the count item.
pub fn add_one_to_sample_number(numbers: &mut SampleNumbers) -> (published: Option<ViewmodelUpdate>)
    requires
        stored_or_zero(old(numbers)@, SAMPLE_NUMBER_NAME@) + 1 <= i32::MAX,
    ensures
        final(numbers)@ == after_adding(old(numbers)@, 1),
        published matches Some(u) && u@.item_address == COUNT_ITEM_ADDRESS@
            && u@.serialized.formula == MESSAGE_PACK_FORMULA@
            && u@.serialized.bytes == message_pack_record(RECORD_FIELD@, final(numbers)@[SAMPLE_NUMBER_NAME@]),
        published_count(final(numbers)@[SAMPLE_NUMBER_NAME@], published),
{
    let value = current_sample_number(numbers);
    let new_value = value + 1;
    numbers.insert(SAMPLE_NUMBER_NAME.to_owned(), new_value);
    publish_count(new_value)
}

/// A handler publishes the record of the number it stored, and of no
/// other: a publication that `published_count` accepts for `value` holds
/// the MessagePack record `{"value": value}` at the count item, and equal
/// numbers give equal updates.
pub proof fn law_publication_records_the_number(value: i32, other: i32, u: ViewmodelUpdate, w: ViewmodelUpdate)
    requires
        published_count(value, Some(u)),
        published_count(other, Some(w)),
    ensures
        u@.item_address == COUNT_ITEM_ADDRESS@,
        u@.serialized.formula == MESSAGE_PACK_FORMULA@,
        u@.serialized.bytes == message_pack_record(RECORD_FIELD@, value),
        w@.serialized.bytes == message_pack_record(RECORD_FIELD@, other),
        value == other ==> u@ == w@,
{
}

/// No step is lost: however calls of `calculate_something` and ticks of
/// the counter follow each other (each under the store's lock), the sample
/// number ends at its start plus seven per call and one per tick (from an
/// empty store, `7 * m + n` after `m` calls and `n` ticks), and no other
/// number changes, provided the sum fits in an `i32`.
pub proof fn law_steps_add_up(numbers: Map<Seq<char>, i32>, steps: Seq<bool>)
    requires
        stored_or_zero(numbers, SAMPLE_NUMBER_NAME@) + steps_total(steps) <= i32::MAX,
    ensures
        stored_or_zero(after_steps(numbers, steps), SAMPLE_NUMBER_NAME@)
            == stored_or_zero(numbers, SAMPLE_NUMBER_NAME@) + steps_total(steps),
        steps_total(steps) == 7 * calculate_calls(steps) + (steps.len() - calculate_calls(steps)),
        steps_total(steps) >= 0,
        forall|name: Seq<char>| name != SAMPLE_NUMBER_NAME@ ==> #[trigger] after_steps(numbers, steps).contains_key(name)
            == numbers.contains_key(name),
        forall|name: Seq<char>| name != SAMPLE_NUMBER_NAME@ && numbers.contains_key(name)
            ==> #[trigger] after_steps(numbers, steps)[name] == numbers[name],
    decreases steps.len(),
{
    law_steps_total_counts(steps);
    if steps.len() > 0 {
        law_steps_total_nonnegative(steps.drop_last());
        law_steps_add_up(numbers, steps.drop_last());
    }
}

proof fn law_steps_total_counts(steps: Seq<bool>)
    ensures
        calculate_calls(steps) <= steps.len(),
        steps_total(steps) == 7 * calculate_calls(steps) + (steps.len() - calculate_calls(steps)),
    decreases steps.len(),
{
    if steps.len() > 0 {
        law_steps_total_counts(steps.drop_last());
    }
}

proof fn law_steps_total_nonnegative(steps: Seq<bool>)
    ensures
        steps_total(steps) >= 0,
    decreases steps.len(),
{
    if steps.len() > 0 {
        law_steps_total_nonnegative(steps.drop_last());
    }
}

} // verus!
