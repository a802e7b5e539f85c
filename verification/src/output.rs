//! The trace as a JSON document.
//!
//! ```text
//! {
//!   "events": [
//!     { "Alloc":   { "timestamp": .., "address": .., "size": .., "callstack": .. } },
//!     { "Realloc": { "timestamp": .., "old_address": .., "new_address": .., "size": .., "callstack": .. } },
//!     { "Free":    { "timestamp": .., "address": .., "callstack": .. } }
//!   ],
//!   "meta": { "callstack": { "<id>": [.., ..] } }
//! }
//! ```
//!
//! Every number is an unsigned 64-bit one. An event's `callstack` is a key of
//! `meta.callstack`, written in decimal, or 0 where no callstack was taken.

use crate::json::{
    distinct_keys, entries_view, json_array, json_number, json_object, json_value,
    lemma_object_of, object_of, Json,
};
use crate::text::{decimal, decimal_digits, lemma_decimal_is_injective};
use crate::trace::{Callstack, Event, TraceView};
use std::collections::HashMap;
use vstd::prelude::*;
use vstd::std_specs::iter::IteratorSpec;
use vstd::string::*;

verus! {

/// The fields of an event, in the order in which they are listed above.
pub open spec fn event_fields(event: Event) -> Seq<(Seq<char>, Json)> {
    match event {
        Event::Alloc(alloc) => seq![
            ("timestamp"@, Json::Number(alloc.timestamp)),
            ("address"@, Json::Number(alloc.address)),
            ("size"@, Json::Number(alloc.size)),
            ("callstack"@, Json::Number(alloc.callstack)),
        ],
        Event::Realloc(realloc) => seq![
            ("timestamp"@, Json::Number(realloc.timestamp)),
            ("old_address"@, Json::Number(realloc.old_address)),
            ("new_address"@, Json::Number(realloc.new_address)),
            ("size"@, Json::Number(realloc.size)),
            ("callstack"@, Json::Number(realloc.callstack)),
        ],
        Event::Free(free) => seq![
            ("timestamp"@, Json::Number(free.timestamp)),
            ("address"@, Json::Number(free.address)),
            ("callstack"@, Json::Number(free.callstack)),
        ],
    }
}

/// The tag under which an event stands.
pub open spec fn event_tag(event: Event) -> Seq<char> {
    match event {
        Event::Alloc(_) => "Alloc"@,
        Event::Realloc(_) => "Realloc"@,
        Event::Free(_) => "Free"@,
    }
}

/// An event as JSON: an object with the event's tag as its one key, and the
/// object of the event's fields under it.
pub open spec fn event_json(event: Event) -> Json {
    Json::Object(
        object_of(seq![(event_tag(event), Json::Object(object_of(event_fields(event))))]),
    )
}

/// A callstack as JSON: the array of its return addresses.
pub open spec fn frames_json(frames: Seq<u64>) -> Json {
    Json::Array(frames.map_values(|frame: u64| Json::Number(frame)))
}

fn field(name: &str, number: u64) -> (entry: (String, serde_json::Value))
    ensures
        entry.0@ == name@,
        json_value(entry.1) == Json::Number(number),
{
    (String::from_str(name), json_number(number))
}

proof fn lemma_field_names_differ()
    ensures
        "timestamp"@ != "address"@,
        "timestamp"@ != "size"@,
        "timestamp"@ != "callstack"@,
        "timestamp"@ != "old_address"@,
        "timestamp"@ != "new_address"@,
        "address"@ != "size"@,
        "address"@ != "callstack"@,
        "size"@ != "callstack"@,
        "old_address"@ != "new_address"@,
        "old_address"@ != "size"@,
        "old_address"@ != "callstack"@,
        "new_address"@ != "size"@,
        "new_address"@ != "callstack"@,
{
    reveal_strlit("timestamp");
    reveal_strlit("address");
    reveal_strlit("size");
    reveal_strlit("callstack");
    reveal_strlit("old_address");
    reveal_strlit("new_address");
    assert("timestamp"@.len() == 9 && "address"@.len() == 7 && "size"@.len() == 4);
    assert("callstack"@.len() == 9 && "old_address"@.len() == 11 && "new_address"@.len() == 11);
    assert("timestamp"@[0] != "callstack"@[0]);
    assert("old_address"@[0] != "new_address"@[0]);
}

/// The JSON value of an event.
pub(crate) fn event_value(event: &Event) -> (value: serde_json::Value)
    ensures
        json_value(value) == event_json(*event),
{
    proof {
        lemma_field_names_differ();
    }
    let mut fields: Vec<(String, serde_json::Value)> = Vec::new();
    let tag = match event {
        Event::Alloc(alloc) => {
            fields.push(field("timestamp", alloc.timestamp));
            fields.push(field("address", alloc.address));
            fields.push(field("size", alloc.size));
            fields.push(field("callstack", alloc.callstack));
            "Alloc"
        },
        Event::Realloc(realloc) => {
            fields.push(field("timestamp", realloc.timestamp));
            fields.push(field("old_address", realloc.old_address));
            fields.push(field("new_address", realloc.new_address));
            fields.push(field("size", realloc.size));
            fields.push(field("callstack", realloc.callstack));
            "Realloc"
        },
        Event::Free(free) => {
            fields.push(field("timestamp", free.timestamp));
            fields.push(field("address", free.address));
            fields.push(field("callstack", free.callstack));
            "Free"
        },
    };
    assert(entries_view(fields@) =~= event_fields(*event));
    let body = json_object(fields);
    let mut tagged: Vec<(String, serde_json::Value)> = Vec::new();
    tagged.push((String::from_str(tag), body));
    assert(entries_view(tagged@) =~= seq![
        (event_tag(*event), Json::Object(object_of(event_fields(*event)))),
    ]);
    json_object(tagged)
}

/// The JSON value of a callstack.
pub(crate) fn frames_value(frames: &Vec<u64>) -> (value: serde_json::Value)
    ensures
        json_value(value) == frames_json(frames@),
{
    let mut items: Vec<serde_json::Value> = Vec::new();
    let mut i: usize = 0;
    while i < frames.len()
        invariant
            i <= frames.len(),
            items@.map_values(|item: serde_json::Value| json_value(item)) == frames@.take(
                i as int,
            ).map_values(|frame: u64| Json::Number(frame)),
        decreases frames.len() - i,
    {
        let ghost before = items@.map_values(|item: serde_json::Value| json_value(item));
        let item = json_number(frames[i]);
        items.push(item);
        assert(items@.map_values(|item: serde_json::Value| json_value(item)) =~= before.push(
            Json::Number(frames[i as int]),
        ));
        assert(frames@.take(i + 1).map_values(|frame: u64| Json::Number(frame)) =~= before.push(
            Json::Number(frames[i as int]),
        ));
        i += 1;
    }
    assert(frames@.take(i as int) =~= frames@);
    json_array(items)
}

/// The entries of `meta.callstack`: each callstack under its id in decimal.
pub open spec fn callstacks_json(callstacks: Map<u64, Seq<u64>>) -> Map<Seq<char>, Json> {
    Map::new(
        |key: Seq<char>|
            exists|id: u64| #[trigger]
                callstacks.contains_key(id) && decimal_digits(id as nat) == key,
        |key: Seq<char>|
            frames_json(
                callstacks[choose|id: u64| #[trigger]
                    callstacks.contains_key(id) && decimal_digits(id as nat) == key],
            ),
    )
}

/// A trace as JSON.
pub open spec fn trace_json(trace: TraceView) -> Json {
    Json::Object(
        object_of(
            seq![
                ("events"@, Json::Array(trace.events.map_values(|event: Event| event_json(event)))),
                (
                    "meta"@,
                    Json::Object(
                        object_of(
                            seq![("callstack"@, Json::Object(callstacks_json(trace.callstacks)))],
                        ),
                    ),
                ),
            ],
        ),
    )
}

proof fn lemma_single_entry(key: Seq<char>, value: Json)
    ensures
        object_of(seq![(key, value)]) == Map::<Seq<char>, Json>::empty().insert(key, value),
{
    let entries = seq![(key, value)];
    assert(entries.drop_last() =~= Seq::empty());
    assert(object_of(entries.drop_last()) == Map::<Seq<char>, Json>::empty());
}

proof fn lemma_fields_are_distinct(event: Event)
    ensures
        distinct_keys(event_fields(event)),
{
    lemma_field_names_differ();
}

/// An event can be read back from its JSON: different events have different
/// JSON.
pub proof fn lemma_event_json_is_injective(first: Event, second: Event)
    requires
        event_json(first) == event_json(second),
    ensures
        first == second,
{
    reveal_strlit("Alloc");
    reveal_strlit("Realloc");
    reveal_strlit("Free");
    assert("Alloc"@.len() == 5 && "Realloc"@.len() == 7 && "Free"@.len() == 4);
    let first_fields = event_fields(first);
    let second_fields = event_fields(second);
    lemma_single_entry(event_tag(first), Json::Object(object_of(first_fields)));
    lemma_single_entry(event_tag(second), Json::Object(object_of(second_fields)));
    let first_map = Map::<Seq<char>, Json>::empty().insert(
        event_tag(first),
        Json::Object(object_of(first_fields)),
    );
    let second_map = Map::<Seq<char>, Json>::empty().insert(
        event_tag(second),
        Json::Object(object_of(second_fields)),
    );
    assert(first_map == second_map);
    assert(first_map.contains_key(event_tag(first)));
    assert(second_map.contains_key(event_tag(first)));
    assert(event_tag(first) == event_tag(second));
    assert(first_map[event_tag(first)] == second_map[event_tag(first)]);
    assert(object_of(first_fields) == object_of(second_fields));
    lemma_fields_are_distinct(first);
    lemma_fields_are_distinct(second);
    lemma_object_of(first_fields);
    lemma_object_of(second_fields);
    assert forall|i: int| 0 <= i < first_fields.len() implies (#[trigger] first_fields[i]).1
        == second_fields[i].1 by {
        assert(first_fields[i].0 == second_fields[i].0);
        assert(object_of(first_fields)[first_fields[i].0] == first_fields[i].1);
        assert(object_of(second_fields)[second_fields[i].0] == second_fields[i].1);
    }
    match first {
        Event::Alloc(_) => {
            assert(first_fields[0].1 == second_fields[0].1);
            assert(first_fields[1].1 == second_fields[1].1);
            assert(first_fields[2].1 == second_fields[2].1);
            assert(first_fields[3].1 == second_fields[3].1);
        },
        Event::Realloc(_) => {
            assert(first_fields[0].1 == second_fields[0].1);
            assert(first_fields[1].1 == second_fields[1].1);
            assert(first_fields[2].1 == second_fields[2].1);
            assert(first_fields[3].1 == second_fields[3].1);
            assert(first_fields[4].1 == second_fields[4].1);
        },
        Event::Free(_) => {
            assert(first_fields[0].1 == second_fields[0].1);
            assert(first_fields[1].1 == second_fields[1].1);
            assert(first_fields[2].1 == second_fields[2].1);
        },
    }
}

/// A callstack can be read back from its JSON.
pub proof fn lemma_frames_json_is_injective(first: Seq<u64>, second: Seq<u64>)
    requires
        frames_json(first) == frames_json(second),
    ensures
        first == second,
{
    let first_items = first.map_values(|frame: u64| Json::Number(frame));
    let second_items = second.map_values(|frame: u64| Json::Number(frame));
    assert(first_items == second_items);
    assert(first.len() == first_items.len());
    assert(second.len() == second_items.len());
    assert forall|i: int| 0 <= i < first.len() implies first[i] == second[i] by {
        assert(first_items[i] == Json::Number(first[i]));
        assert(second_items[i] == Json::Number(second[i]));
    }
    assert(first =~= second);
}

/// The callstack map can be read back from its JSON.
pub proof fn lemma_callstacks_json_is_injective(
    first: Map<u64, Seq<u64>>,
    second: Map<u64, Seq<u64>>,
)
    requires
        callstacks_json(first) == callstacks_json(second),
    ensures
        first == second,
{
    lemma_callstacks_json_holds(first, second);
    lemma_callstacks_json_holds(second, first);
    assert(first =~= second);
}

proof fn lemma_callstacks_json_holds(first: Map<u64, Seq<u64>>, second: Map<u64, Seq<u64>>)
    requires
        callstacks_json(first) == callstacks_json(second),
    ensures
        forall|id: u64| #[trigger]
            first.contains_key(id) ==> second.contains_key(id) && first[id] == second[id],
{
    assert forall|id: u64| #[trigger] first.contains_key(id) implies second.contains_key(id)
        && first[id] == second[id] by {
        let key = decimal_digits(id as nat);
        assert(callstacks_json(first).contains_key(key));
        assert(callstacks_json(second).contains_key(key));
        let found = choose|found: u64| #[trigger]
            first.contains_key(found) && decimal_digits(found as nat) == key;
        lemma_decimal_is_injective(found as nat, id as nat);
        let other = choose|other: u64| #[trigger]
            second.contains_key(other) && decimal_digits(other as nat) == key;
        lemma_decimal_is_injective(other as nat, id as nat);
        assert(callstacks_json(first)[key] == frames_json(first[id]));
        assert(callstacks_json(second)[key] == frames_json(second[id]));
        lemma_frames_json_is_injective(first[id], second[id]);
    }
}

/// Nothing is lost in the document: a trace can be read back from its JSON,
/// event for event and callstack for callstack. Two traces with the same
/// JSON hold the same events in the same order and the same callstack map.
pub proof fn lemma_trace_json_is_injective(first: TraceView, second: TraceView)
    requires
        trace_json(first) == trace_json(second),
    ensures
        first.events == second.events,
        first.callstacks == second.callstacks,
{
    reveal_strlit("events");
    reveal_strlit("meta");
    assert("events"@.len() != "meta"@.len());
    let first_meta = Json::Object(
        object_of(seq![("callstack"@, Json::Object(callstacks_json(first.callstacks)))]),
    );
    let second_meta = Json::Object(
        object_of(seq![("callstack"@, Json::Object(callstacks_json(second.callstacks)))]),
    );
    let first_events = Json::Array(first.events.map_values(|event: Event| event_json(event)));
    let second_events = Json::Array(second.events.map_values(|event: Event| event_json(event)));
    let first_entries = seq![("events"@, first_events), ("meta"@, first_meta)];
    let second_entries = seq![("events"@, second_events), ("meta"@, second_meta)];
    lemma_object_of(first_entries);
    lemma_object_of(second_entries);
    assert(object_of(first_entries) == object_of(second_entries));
    assert(object_of(first_entries)[first_entries[0].0] == first_events);
    assert(object_of(second_entries)[second_entries[0].0] == second_events);
    assert(object_of(first_entries)[first_entries[1].0] == first_meta);
    assert(object_of(second_entries)[second_entries[1].0] == second_meta);
    assert(first_events == second_events);
    assert(first_meta == second_meta);
    let first_items = first.events.map_values(|event: Event| event_json(event));
    let second_items = second.events.map_values(|event: Event| event_json(event));
    assert(first_items == second_items);
    assert(first.events.len() == first_items.len());
    assert(second.events.len() == second_items.len());
    assert forall|i: int| 0 <= i < first.events.len() implies first.events[i]
        == second.events[i] by {
        assert(first_items[i] == event_json(first.events[i]));
        assert(second_items[i] == event_json(second.events[i]));
        lemma_event_json_is_injective(first.events[i], second.events[i]);
    }
    assert(first.events =~= second.events);
    lemma_single_entry("callstack"@, Json::Object(callstacks_json(first.callstacks)));
    lemma_single_entry("callstack"@, Json::Object(callstacks_json(second.callstacks)));
    let first_map = Map::<Seq<char>, Json>::empty().insert(
        "callstack"@,
        Json::Object(callstacks_json(first.callstacks)),
    );
    let second_map = Map::<Seq<char>, Json>::empty().insert(
        "callstack"@,
        Json::Object(callstacks_json(second.callstacks)),
    );
    assert(first_map == second_map);
    assert(first_map["callstack"@] == second_map["callstack"@]);
    lemma_callstacks_json_is_injective(first.callstacks, second.callstacks);
}

/// The JSON value of the events of a trace.
pub(crate) fn events_value(events: &Vec<Event>) -> (value: serde_json::Value)
    ensures
        json_value(value) == Json::Array(events@.map_values(|event: Event| event_json(event))),
{
    let mut items: Vec<serde_json::Value> = Vec::new();
    let mut i: usize = 0;
    while i < events.len()
        invariant
            i <= events.len(),
            items@.map_values(|item: serde_json::Value| json_value(item)) == events@.take(
                i as int,
            ).map_values(|event: Event| event_json(event)),
        decreases events.len() - i,
    {
        let ghost before = items@.map_values(|item: serde_json::Value| json_value(item));
        let item = event_value(&events[i]);
        items.push(item);
        assert(items@.map_values(|item: serde_json::Value| json_value(item)) =~= before.push(
            event_json(events[i as int]),
        ));
        assert(events@.take(i + 1).map_values(|event: Event| event_json(event)) =~= before.push(
            event_json(events[i as int]),
        ));
        i += 1;
    }
    assert(events@.take(i as int) =~= events@);
    json_array(items)
}

/// The JSON value of the callstack map of a trace.
pub(crate) fn callstacks_value(callstacks: &HashMap<u64, Callstack>) -> (value: serde_json::Value)
    ensures
        json_value(value) == Json::Object(
            callstacks_json(callstacks@.map_values(|callstack: Callstack| callstack@)),
        ),
{
    broadcast use vstd::std_specs::hash::group_hash_axioms;

    let ghost frames = callstacks@.map_values(|callstack: Callstack| callstack@);
    let mut entries: Vec<(String, serde_json::Value)> = Vec::new();
    for id in it: callstacks.keys()
        invariant
            it.seq() == callstacks.keys().remaining(),
            frames == callstacks@.map_values(|callstack: Callstack| callstack@),
            entries.len() == it.index(),
            forall|j: int|
                0 <= j < entries.len() ==> (#[trigger] entries_view(entries@)[j]) == (
                    decimal_digits(*it.seq()[j] as nat),
                    frames_json(frames[*it.seq()[j]]),
                ),
    {
        assert(it.seq().unref().to_set().contains(it.seq().unref()[it.index()]));
        assert(callstacks@.contains_key(*id));
        let ghost before = entries_view(entries@);
        match callstacks.get(id) {
            Some(callstack) => {
                entries.push((decimal(*id), frames_value(callstack.frames())));
            },
            None => {},
        }
        assert(entries_view(entries@) =~= before.push(
            (decimal_digits(*id as nat), frames_json(frames[*id])),
        ));
    }
    proof {
        let ids = callstacks.keys().remaining();
        let listed = entries_view(entries@);
        assert(listed.len() == ids.len());
        assert forall|i: int, j: int| 0 <= i < j < listed.len() implies (#[trigger] listed[i]).0 != (
        #[trigger] listed[j]).0 by {
            if listed[i].0 == listed[j].0 {
                lemma_decimal_is_injective(*ids[i] as nat, *ids[j] as nat);
                assert(ids[i] == ids[j]);
            }
        }
        lemma_object_of(listed);
        assert forall|key: Seq<char>| #[trigger]
            object_of(listed).contains_key(key) implies callstacks_json(frames).contains_key(
            key,
        ) by {
            let i = choose|i: int| 0 <= i < listed.len() && (#[trigger] listed[i]).0 == key;
            assert(ids.unref().to_set().contains(ids.unref()[i]));
            assert(frames.contains_key(*ids[i]));
        }
        assert forall|key: Seq<char>| #[trigger]
            callstacks_json(frames).contains_key(key) implies object_of(listed).contains_key(
            key,
        ) && object_of(listed)[key] == callstacks_json(frames)[key] by {
            let id = choose|id: u64| #[trigger]
                frames.contains_key(id) && decimal_digits(id as nat) == key;
            assert(ids.unref().to_set().contains(id));
            let i = choose|i: int| 0 <= i < ids.unref().len() && ids.unref()[i] == id;
            assert(listed[i].0 == key);
        }
        assert(object_of(listed) =~= callstacks_json(frames));
    }
    json_object(entries)
}

/// The JSON value of a trace.
pub(crate) fn trace_value(events: &Vec<Event>, callstacks: &HashMap<u64, Callstack>) -> (value:
    serde_json::Value)
    ensures
        json_value(value) == trace_json(
            TraceView {
                events: events@,
                callstacks: callstacks@.map_values(|callstack: Callstack| callstack@),
            },
        ),
{
    proof {
        reveal_strlit("events");
        reveal_strlit("meta");
        assert("events"@.len() != "meta"@.len());
    }
    let mut meta: Vec<(String, serde_json::Value)> = Vec::new();
    meta.push((String::from_str("callstack"), callstacks_value(callstacks)));
    assert(entries_view(meta@) =~= seq![
        (
            "callstack"@,
            Json::Object(
                callstacks_json(callstacks@.map_values(|callstack: Callstack| callstack@)),
            ),
        ),
    ]);
    let meta = json_object(meta);
    let mut document: Vec<(String, serde_json::Value)> = Vec::new();
    document.push((String::from_str("events"), events_value(events)));
    document.push((String::from_str("meta"), meta));
    assert(entries_view(document@) =~= seq![
        ("events"@, Json::Array(events@.map_values(|event: Event| event_json(event)))),
        (
            "meta"@,
            Json::Object(
                object_of(
                    seq![
                        (
                            "callstack"@,
                            Json::Object(
                                callstacks_json(
                                    callstacks@.map_values(|callstack: Callstack| callstack@),
                                ),
                            ),
                        ),
                    ],
                ),
            ),
        ),
    ]);
    json_object(document)
}

} // verus!
