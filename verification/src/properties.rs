//! The property arrays that the C client takes.
use vstd::prelude::*;
use vstd::utf8::{encode_utf8, is_ascii_chars, is_ascii_chars_encode_utf8};

use crate::config::FlowConfig;
use crate::ctext::{bytes_of, is_nul_free, CText};
use crate::decimal::{decimal, decimal_text, law_decimal_injective, law_decimal_round_trip};

verus! {

/// Capability: queues can be created and removed over the session.
pub const CAPABILITY_ENDPOINT_MANAGEMENT: &'static str = "SESSION_CAPABILITY_ENDPOINT_MANAGEMENT";

/// Endpoint property: the kind of endpoint.
pub const ENDPOINT_PROP_ID: &'static str = "ENDPOINT_ID";

/// Kind of endpoint: a queue.
pub const ENDPOINT_PROP_QUEUE: &'static str = "2";

/// Endpoint property: the name of the endpoint.
pub const ENDPOINT_PROP_NAME: &'static str = "ENDPOINT_NAME";

/// Flow property: the kind of endpoint that the flow binds to.
pub const FLOW_PROP_BIND_ENTITY_ID: &'static str = "FLOW_BIND_ENTITY_ID";

/// Kind of endpoint that a flow binds to: a queue.
pub const FLOW_PROP_BIND_ENTITY_QUEUE: &'static str = "2";

/// Flow property: who acknowledges messages.
pub const FLOW_PROP_ACKMODE: &'static str = "FLOW_ACKMODE";

/// Messages are acknowledged by the C client.
pub const FLOW_PROP_ACKMODE_AUTO: &'static str = "1";

/// Flow property: the name of the endpoint that the flow binds to.
pub const FLOW_PROP_BIND_NAME: &'static str = "FLOW_BIND_NAME";

/// Flow property: how many messages may be on their way.
pub const FLOW_PROP_WINDOWSIZE: &'static str = "FLOW_WINDOWSIZE";

/// Flow property: how long acknowledgements are held back, in milliseconds.
pub const FLOW_PROP_ACK_TIMER_MS: &'static str = "FLOW_ACK_TIMER_MS";

/// Flow property: how full the window gets before acknowledgements are sent, in percent.
pub const FLOW_PROP_ACK_THRESHOLD: &'static str = "FLOW_ACK_THRESHOLD";

/// Provision flag: the call waits until the broker has confirmed it.
pub const PROVISION_FLAGS_WAITFORCONFIRM: u32 = 1;

/// Provision flag: an endpoint that is there already, or gone already, is no error.
pub const PROVISION_FLAGS_IGNORE_EXIST_ERRORS: u32 = 2;

/// The contents of an array of C strings: each entry is a string or the null pointer.
pub type Entries = Seq<Option<Seq<u8>>>;

/// Whether C can hold every string in the array.
pub open spec fn entries_are_nul_free(entries: Entries) -> bool {
    forall|i: int|
        0 <= i < entries.len() ==> (#[trigger] entries[i] matches Some(text) ==> is_nul_free(text))
}

/// The entry that holds `text`.
pub open spec fn entry(text: &str) -> Option<Seq<u8>> {
    Some(bytes_of(text))
}

/// The pair that sets `name` to `value`, or nothing where no value is given.
pub open spec fn optional_pair(name: &str, value: Option<u32>) -> Entries {
    match value {
        Some(n) => seq![entry(name), Some(decimal(n as nat))],
        None => seq![],
    }
}

/// What creates the queue named `queue`.
pub open spec fn provision_entries(queue: Seq<u8>) -> Entries {
    seq![
        entry(ENDPOINT_PROP_ID),
        entry(ENDPOINT_PROP_QUEUE),
        entry(ENDPOINT_PROP_NAME),
        Some(queue),
        None,
    ]
}

/// What removes the queue named `queue`: what it was created with.
pub open spec fn deprovision_entries(queue: Seq<u8>) -> Entries {
    seq![
        entry(ENDPOINT_PROP_ID),
        entry(ENDPOINT_PROP_QUEUE),
        entry(ENDPOINT_PROP_NAME),
        Some(queue),
        None,
    ]
}

/// The pairs that every flow to the queue named `queue` is made with.
pub open spec fn bind_pairs(queue: Seq<u8>) -> Entries {
    seq![
        entry(FLOW_PROP_BIND_ENTITY_ID),
        entry(FLOW_PROP_BIND_ENTITY_QUEUE),
        entry(FLOW_PROP_ACKMODE),
        entry(FLOW_PROP_ACKMODE_AUTO),
        entry(FLOW_PROP_BIND_NAME),
        Some(queue),
    ]
}

/// What makes a flow to the queue named `queue`, set up as `config` says.
pub open spec fn flow_entries(queue: Seq<u8>, config: FlowConfig) -> Entries {
    bind_pairs(queue) + optional_pair(FLOW_PROP_WINDOWSIZE, config.window_size) + optional_pair(
        FLOW_PROP_ACK_TIMER_MS,
        config.ack_timer_ms,
    ) + optional_pair(FLOW_PROP_ACK_THRESHOLD, config.ack_threshold) + seq![None]
}

/// Both provision flags together.
pub open spec fn provision_flags() -> u32 {
    PROVISION_FLAGS_WAITFORCONFIRM | PROVISION_FLAGS_IGNORE_EXIST_ERRORS
}

/// An array of C strings, in which the null pointer may stand too.
#[derive(Debug)]
pub struct PropertyArray {
    entries: Vec<Option<CText>>,
}

impl View for PropertyArray {
    type V = Entries;

    closed spec fn view(&self) -> Entries {
        Seq::new(
            self.entries@.len(),
            |i: int|
                match self.entries@[i] {
                    Some(text) => Some(text@),
                    None => None,
                },
        )
    }
}

impl PropertyArray {
    /// An array without entries.
    fn empty() -> (array: PropertyArray)
        ensures
            array@ == Entries::empty(),
    {
        let array = PropertyArray { entries: Vec::new() };
        assert(array@ =~= Entries::empty());
        array
    }

    /// Appends a string.
    fn push(&mut self, text: CText)
        ensures
            final(self)@ == old(self)@.push(Some(text@)),
    {
        self.entries.push(Some(text));
        assert(self@ =~= old(self)@.push(Some(text@)));
    }

    /// Appends a string that is known to hold no nul.
    fn push_text(&mut self, text: &str)
        requires
            is_nul_free(bytes_of(text)),
        ensures
            final(self)@ == old(self)@.push(entry(text)),
    {
        self.push(CText::from_text(text));
    }

    /// Appends the pair that sets `name` to `value`, where a value is given.
    fn push_optional(&mut self, name: &str, value: Option<u32>)
        requires
            is_nul_free(bytes_of(name)),
        ensures
            final(self)@ == old(self)@ + optional_pair(name, value),
    {
        if let Some(n) = value {
            self.push_text(name);
            self.push(decimal_text(n));
        }
        assert(self@ =~= old(self)@ + optional_pair(name, value));
    }

    /// Appends the null pointer.
    fn push_null(&mut self)
        ensures
            final(self)@ == old(self)@.push(None),
    {
        self.entries.push(None);
        assert(self@ =~= old(self)@.push(None));
    }

    /// How many entries there are.
    pub fn len(&self) -> (count: usize)
        ensures
            count == self@.len(),
    {
        self.entries.len()
    }

    /// The bytes of an entry, or nothing for the null pointer.
    pub fn entry(&self, index: usize) -> (bytes: Option<&[u8]>)
        requires
            index < self@.len(),
        ensures
            bytes is Some <==> self@[index as int] is Some,
            bytes matches Some(b) ==> self@[index as int] == Some(b@) && is_nul_free(b@),
    {
        match &self.entries[index] {
            Some(text) => Some(text.as_bytes()),
            None => None,
        }
    }
}

/// The array that creates a queue.
pub fn provision_array(queue: &CText) -> (array: PropertyArray)
    ensures
        array@ == provision_entries(queue@),
{
    proof {
        lemma_texts_are_nul_free();
    }
    let mut array = PropertyArray::empty();
    array.push_text(ENDPOINT_PROP_ID);
    array.push_text(ENDPOINT_PROP_QUEUE);
    array.push_text(ENDPOINT_PROP_NAME);
    array.push(queue.duplicate());
    array.push_null();
    assert(array@ =~= provision_entries(queue@));
    array
}

/// The array that removes a queue.
pub fn deprovision_array(queue: &CText) -> (array: PropertyArray)
    ensures
        array@ == deprovision_entries(queue@),
{
    provision_array(queue)
}

/// The array that makes a flow to a queue.
pub fn flow_array(queue: &CText, config: FlowConfig) -> (array: PropertyArray)
    ensures
        array@ == flow_entries(queue@, config),
{
    proof {
        lemma_texts_are_nul_free();
    }
    let mut array = PropertyArray::empty();
    array.push_text(FLOW_PROP_BIND_ENTITY_ID);
    array.push_text(FLOW_PROP_BIND_ENTITY_QUEUE);
    array.push_text(FLOW_PROP_ACKMODE);
    array.push_text(FLOW_PROP_ACKMODE_AUTO);
    array.push_text(FLOW_PROP_BIND_NAME);
    array.push(queue.duplicate());
    assert(array@ =~= bind_pairs(queue@));
    array.push_optional(FLOW_PROP_WINDOWSIZE, config.window_size);
    array.push_optional(FLOW_PROP_ACK_TIMER_MS, config.ack_timer_ms);
    array.push_optional(FLOW_PROP_ACK_THRESHOLD, config.ack_threshold);
    array.push_null();
    assert(array@ =~= flow_entries(queue@, config));
    array
}

/// ASCII text without a nul stays without one when it is encoded.
proof fn lemma_ascii_is_nul_free(text: &str)
    requires
        is_ascii_chars(text@),
        forall|i: int| 0 <= i < text@.len() ==> text@[i] != '\0',
    ensures
        is_nul_free(bytes_of(text)),
        bytes_of(text).len() == text@.len(),
{
    is_ascii_chars_encode_utf8(text@);
}

/// None of the fixed texts holds a nul, and the names of properties differ in length.
pub(crate) proof fn lemma_texts_are_nul_free()
    ensures
        is_nul_free(bytes_of(CAPABILITY_ENDPOINT_MANAGEMENT)),
        is_nul_free(bytes_of(ENDPOINT_PROP_ID)),
        is_nul_free(bytes_of(ENDPOINT_PROP_QUEUE)),
        is_nul_free(bytes_of(ENDPOINT_PROP_NAME)),
        is_nul_free(bytes_of(FLOW_PROP_BIND_ENTITY_ID)),
        is_nul_free(bytes_of(FLOW_PROP_BIND_ENTITY_QUEUE)),
        is_nul_free(bytes_of(FLOW_PROP_ACKMODE)),
        is_nul_free(bytes_of(FLOW_PROP_ACKMODE_AUTO)),
        is_nul_free(bytes_of(FLOW_PROP_BIND_NAME)),
        is_nul_free(bytes_of(FLOW_PROP_WINDOWSIZE)),
        is_nul_free(bytes_of(FLOW_PROP_ACK_TIMER_MS)),
        is_nul_free(bytes_of(FLOW_PROP_ACK_THRESHOLD)),
        bytes_of(ENDPOINT_PROP_ID).len() == 11,
        bytes_of(ENDPOINT_PROP_NAME).len() == 13,
        bytes_of(FLOW_PROP_BIND_ENTITY_ID).len() == 19,
        bytes_of(FLOW_PROP_ACKMODE).len() == 12,
        bytes_of(FLOW_PROP_BIND_NAME).len() == 14,
        bytes_of(FLOW_PROP_WINDOWSIZE).len() == 15,
        bytes_of(FLOW_PROP_ACK_TIMER_MS).len() == 17,
        bytes_of(FLOW_PROP_ACK_THRESHOLD).len() == 18,
{
    reveal_strlit("SESSION_CAPABILITY_ENDPOINT_MANAGEMENT");
    reveal_strlit("ENDPOINT_ID");
    reveal_strlit("2");
    reveal_strlit("ENDPOINT_NAME");
    reveal_strlit("FLOW_BIND_ENTITY_ID");
    reveal_strlit("FLOW_ACKMODE");
    reveal_strlit("1");
    reveal_strlit("FLOW_BIND_NAME");
    reveal_strlit("FLOW_WINDOWSIZE");
    reveal_strlit("FLOW_ACK_TIMER_MS");
    reveal_strlit("FLOW_ACK_THRESHOLD");
    lemma_ascii_is_nul_free(CAPABILITY_ENDPOINT_MANAGEMENT);
    lemma_ascii_is_nul_free(ENDPOINT_PROP_ID);
    lemma_ascii_is_nul_free(ENDPOINT_PROP_QUEUE);
    lemma_ascii_is_nul_free(ENDPOINT_PROP_NAME);
    lemma_ascii_is_nul_free(FLOW_PROP_BIND_ENTITY_ID);
    lemma_ascii_is_nul_free(FLOW_PROP_BIND_ENTITY_QUEUE);
    lemma_ascii_is_nul_free(FLOW_PROP_ACKMODE);
    lemma_ascii_is_nul_free(FLOW_PROP_ACKMODE_AUTO);
    lemma_ascii_is_nul_free(FLOW_PROP_BIND_NAME);
    lemma_ascii_is_nul_free(FLOW_PROP_WINDOWSIZE);
    lemma_ascii_is_nul_free(FLOW_PROP_ACK_TIMER_MS);
    lemma_ascii_is_nul_free(FLOW_PROP_ACK_THRESHOLD);
}

/// Whether `entries` is a list of properties: names and values in turn, all of them strings that
/// C can hold, and one null pointer behind them.
pub open spec fn is_property_list(entries: Entries) -> bool {
    &&& entries.len() % 2 == 1
    &&& entries.last() is None
    &&& forall|i: int|
        0 <= i < entries.len() - 1 ==> (#[trigger] entries[i] matches Some(text) && is_nul_free(
            text,
        ))
}

/// The value that the first pair named `name` gives, in names and values in turn.
pub open spec fn property_value(entries: Entries, name: Seq<u8>) -> Option<Seq<u8>>
    decreases entries.len(),
{
    if entries.len() < 2 {
        None
    } else if entries[0] == Some(name) {
        entries[1]
    } else {
        property_value(entries.skip(2), name)
    }
}

/// The digits of a number that may be missing.
pub open spec fn optional_decimal(value: Option<u32>) -> Option<Seq<u8>> {
    match value {
        Some(n) => Some(decimal(n as nat)),
        None => None,
    }
}

/// The arrays for creating a queue, for removing it and for making a flow to it are well-formed
/// lists of properties, whatever the queue's name and whatever the configuration.
pub proof fn law_arrays_are_property_lists(queue: Seq<u8>, config: FlowConfig)
    requires
        is_nul_free(queue),
    ensures
        is_property_list(provision_entries(queue)),
        is_property_list(deprovision_entries(queue)),
        is_property_list(flow_entries(queue, config)),
        entries_are_nul_free(provision_entries(queue)),
        entries_are_nul_free(flow_entries(queue, config)),
        entries_are_nul_free(deprovision_entries(queue)),
{
    lemma_texts_are_nul_free();
    lemma_optional_pair(FLOW_PROP_WINDOWSIZE, config.window_size);
    lemma_optional_pair(FLOW_PROP_ACK_TIMER_MS, config.ack_timer_ms);
    lemma_optional_pair(FLOW_PROP_ACK_THRESHOLD, config.ack_threshold);
}

/// Creating a queue and removing it both tell the C client of the same endpoint: the queue of the
/// given name.
pub proof fn law_endpoint_is_identified(queue: Seq<u8>)
    ensures
        deprovision_entries(queue) == provision_entries(queue),
        property_value(provision_entries(queue), bytes_of(ENDPOINT_PROP_ID)) == entry(
            ENDPOINT_PROP_QUEUE,
        ),
        property_value(provision_entries(queue), bytes_of(ENDPOINT_PROP_NAME)) == Some(queue),
{
    lemma_texts_are_nul_free();
    assert(property_value(provision_entries(queue).skip(2), bytes_of(ENDPOINT_PROP_NAME)) == Some(
        queue,
    ));
}

/// A flow is set up as the configuration says: a setting that is given appears with its value in
/// decimal digits, one that is not given does not appear, and the flow is always bound, with
/// automatic acknowledgement, to the queue of the given name.
pub proof fn law_flow_carries_configuration(queue: Seq<u8>, config: FlowConfig)
    ensures
        ({
            let entries = flow_entries(queue, config);
            &&& property_value(entries, bytes_of(FLOW_PROP_BIND_ENTITY_ID)) == entry(
                FLOW_PROP_BIND_ENTITY_QUEUE,
            )
            &&& property_value(entries, bytes_of(FLOW_PROP_ACKMODE)) == entry(
                FLOW_PROP_ACKMODE_AUTO,
            )
            &&& property_value(entries, bytes_of(FLOW_PROP_BIND_NAME)) == Some(queue)
            &&& property_value(entries, bytes_of(FLOW_PROP_WINDOWSIZE)) == optional_decimal(
                config.window_size,
            )
            &&& property_value(entries, bytes_of(FLOW_PROP_ACK_TIMER_MS)) == optional_decimal(
                config.ack_timer_ms,
            )
            &&& property_value(entries, bytes_of(FLOW_PROP_ACK_THRESHOLD)) == optional_decimal(
                config.ack_threshold,
            )
        }),
{
    lemma_texts_are_nul_free();
    let window = optional_pair(FLOW_PROP_WINDOWSIZE, config.window_size);
    let timer = optional_pair(FLOW_PROP_ACK_TIMER_MS, config.ack_timer_ms);
    let threshold = optional_pair(FLOW_PROP_ACK_THRESHOLD, config.ack_threshold);
    let end: Entries = seq![None];
    let from_threshold = threshold + end;
    let from_timer = timer + from_threshold;
    let from_window = window + from_timer;
    let entries = flow_entries(queue, config);
    assert(entries.skip(2).skip(2).skip(2) =~= from_window);
    lemma_value_behind(FLOW_PROP_WINDOWSIZE, config.window_size, from_timer);
    lemma_value_behind(FLOW_PROP_ACK_TIMER_MS, config.ack_timer_ms, from_threshold);
    lemma_value_behind(FLOW_PROP_ACK_THRESHOLD, config.ack_threshold, end);
    assert forall|name: Seq<u8>| name.len() > 14 && name.len() < 19 implies property_value(
        entries,
        name,
    ) == #[trigger] property_value(from_window, name) by {
        assert(property_value(entries.skip(2).skip(2), name) == property_value(from_window, name));
        assert(property_value(entries.skip(2), name) == property_value(from_window, name));
    }
    let window_name = bytes_of(FLOW_PROP_WINDOWSIZE);
    let timer_name = bytes_of(FLOW_PROP_ACK_TIMER_MS);
    let threshold_name = bytes_of(FLOW_PROP_ACK_THRESHOLD);
    assert(property_value(from_timer, window_name) == property_value(from_threshold, window_name));
    assert(property_value(from_threshold, window_name) == property_value(end, window_name));
    assert(property_value(from_window, window_name) == optional_decimal(config.window_size));
    assert(property_value(from_threshold, timer_name) == property_value(end, timer_name));
    assert(property_value(from_timer, timer_name) == optional_decimal(config.ack_timer_ms));
    assert(property_value(from_window, timer_name) == property_value(from_timer, timer_name));
    assert(property_value(from_timer, threshold_name) == property_value(
        from_threshold,
        threshold_name,
    ));
    assert(property_value(from_threshold, threshold_name) == optional_decimal(
        config.ack_threshold,
    ));
    assert(property_value(from_window, threshold_name) == property_value(
        from_timer,
        threshold_name,
    ));
    assert(property_value(entries.skip(2), bytes_of(FLOW_PROP_ACKMODE)) == entry(
        FLOW_PROP_ACKMODE_AUTO,
    ));
    assert(property_value(entries.skip(2).skip(2), bytes_of(FLOW_PROP_BIND_NAME)) == Some(queue));
    assert(property_value(entries.skip(2), bytes_of(FLOW_PROP_BIND_NAME)) == Some(queue));
}

/// With nothing configured, a flow is made with the fixed pairs and nothing else.
pub proof fn law_default_flow(queue: Seq<u8>)
    ensures
        flow_entries(
            queue,
            FlowConfig { window_size: None, ack_timer_ms: None, ack_threshold: None },
        ) == bind_pairs(queue).push(None),
{
}

/// The array for a flow gives away the queue and the configuration it was made from.
pub proof fn law_flow_entries_injective(
    queue1: Seq<u8>,
    config1: FlowConfig,
    queue2: Seq<u8>,
    config2: FlowConfig,
)
    requires
        flow_entries(queue1, config1) == flow_entries(queue2, config2),
    ensures
        queue1 == queue2,
        config1 == config2,
{
    law_flow_carries_configuration(queue1, config1);
    law_flow_carries_configuration(queue2, config2);
    lemma_optional_decimal_injective(config1.window_size, config2.window_size);
    lemma_optional_decimal_injective(config1.ack_timer_ms, config2.ack_timer_ms);
    lemma_optional_decimal_injective(config1.ack_threshold, config2.ack_threshold);
}

/// Creating a queue and removing it both wait for the broker and both let it pass that the work
/// is done already.
pub proof fn law_provision_flags()
    ensures
        provision_flags() == 3,
        provision_flags() & PROVISION_FLAGS_WAITFORCONFIRM == PROVISION_FLAGS_WAITFORCONFIRM,
        provision_flags() & PROVISION_FLAGS_IGNORE_EXIST_ERRORS
            == PROVISION_FLAGS_IGNORE_EXIST_ERRORS,
{
    assert(1u32 | 2u32 == 3u32) by (bit_vector);
    assert(3u32 & 1u32 == 1u32) by (bit_vector);
    assert(3u32 & 2u32 == 2u32) by (bit_vector);
}

/// An optional pair is no entry or two strings that C can hold.
proof fn lemma_optional_pair(name: &str, value: Option<u32>)
    requires
        is_nul_free(bytes_of(name)),
    ensures
        optional_pair(name, value).len() == if value is Some { 2int } else { 0int },
        forall|i: int|
            0 <= i < optional_pair(name, value).len() ==> (#[trigger] optional_pair(
                name,
                value,
            )[i] matches Some(text) && is_nul_free(text)),
{
    if let Some(n) = value {
        law_decimal_round_trip(n as nat);
    }
}

/// Looking a name up in an optional pair and what follows.
proof fn lemma_value_behind(name: &str, value: Option<u32>, rest: Entries)
    ensures
        value is Some ==> property_value(optional_pair(name, value) + rest, bytes_of(name))
            == optional_decimal(value),
        value is None ==> optional_pair(name, value) + rest == rest,
        forall|other: Seq<u8>|
            other != bytes_of(name) ==> #[trigger] property_value(
                optional_pair(name, value) + rest,
                other,
            ) == property_value(rest, other),
{
    let entries = optional_pair(name, value) + rest;
    if value is Some {
        assert(entries.skip(2) =~= rest);
    } else {
        assert(entries =~= rest);
    }
}

/// Numbers that may be missing are told apart by their digits.
proof fn lemma_optional_decimal_injective(a: Option<u32>, b: Option<u32>)
    requires
        optional_decimal(a) == optional_decimal(b),
    ensures
        a == b,
{
    if a is Some && b is Some {
        law_decimal_injective(a->0 as nat, b->0 as nat);
    }
}

/// What a queue is created with and removed with, entry by entry: its kind, then its name, then
/// the null pointer.
pub proof fn law_endpoint_layout(queue: Seq<u8>)
    ensures
        ({
            let created = provision_entries(queue);
            &&& created.len() == 5
            &&& created[0] == Some(encode_utf8("ENDPOINT_ID"@))
            &&& created[1] == Some(encode_utf8("2"@))
            &&& created[2] == Some(encode_utf8("ENDPOINT_NAME"@))
            &&& created[3] == Some(queue)
            &&& created[4] is None
            &&& deprovision_entries(queue) == created
        }),
{
}

/// What a flow is made with, entry by entry: the queue's kind, automatic acknowledgement and the
/// queue's name; then each setting that is given, and no other, by its name and its number; then
/// the null pointer.
pub proof fn law_flow_layout(queue: Seq<u8>, config: FlowConfig)
    ensures
        ({
            let made = flow_entries(queue, config);
            let timer = 6 + if config.window_size is Some { 2int } else { 0int };
            let threshold = timer + if config.ack_timer_ms is Some { 2int } else { 0int };
            let end = threshold + if config.ack_threshold is Some { 2int } else { 0int };
            &&& made.len() == end + 1
            &&& made[0] == Some(encode_utf8("FLOW_BIND_ENTITY_ID"@))
            &&& made[1] == Some(encode_utf8("2"@))
            &&& made[2] == Some(encode_utf8("FLOW_ACKMODE"@))
            &&& made[3] == Some(encode_utf8("1"@))
            &&& made[4] == Some(encode_utf8("FLOW_BIND_NAME"@))
            &&& made[5] == Some(queue)
            &&& config.window_size matches Some(n) ==> made[6] == Some(
                encode_utf8("FLOW_WINDOWSIZE"@),
            ) && made[7] == Some(decimal(n as nat))
            &&& config.ack_timer_ms matches Some(n) ==> made[timer] == Some(
                encode_utf8("FLOW_ACK_TIMER_MS"@),
            ) && made[timer + 1] == Some(decimal(n as nat))
            &&& config.ack_threshold matches Some(n) ==> made[threshold] == Some(
                encode_utf8("FLOW_ACK_THRESHOLD"@),
            ) && made[threshold + 1] == Some(decimal(n as nat))
            &&& made[end] is None
        }),
{
}

} // verus!
