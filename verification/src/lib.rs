//! Relay for discrete application state signals.
//!
//! Producers tag state-change events inside a generic structured-event
//! stream; the event filter picks those out and extracts the state
//! string; a broadcast hub fans every published value out to all live
//! viewer sessions, each of which streams the values to one connected
//! viewer until delivery fails.

pub mod filter;
pub mod hub;
pub mod layer;
pub mod page;
pub mod session;

pub use filter::EventRecord;
pub use filter::RecordField;
pub use layer::BertrandLayer;

use vstd::prelude::*;

verus! {

/// End to end, for every state string `s` — embedded quote characters
/// included: a producer announces `s`; the filter recovers it exactly
/// from the synthesized record's debug rendering; the relay publishes
/// the extraction; and a viewer session subscribed at the current end
/// of the publication log receives exactly `s`, and nothing published
/// earlier.
pub proof fn lemma_end_to_end(log: Seq<Seq<char>>, s: Seq<char>, cap: nat)
    requires
        cap >= 1,
    ensures
        (match filter::extract_spec(
            filter::state_tag(),
            seq![(filter::state_key(), filter::quoted(s))],
        ) {
            Some(v) => hub::delivered(log.push(v), log.len(), cap) == seq![s],
            None => false,
        }),
{
    filter::lemma_emit_extract_roundtrip(s);
    hub::lemma_connect_between(log, s, cap);
}

} // verus!
