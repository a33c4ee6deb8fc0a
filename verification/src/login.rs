//! What the session manager reports.
use crate::event::Event;
use crate::text::{contains, spec_contains};
use vstd::prelude::*;

verus! {

/// The event for a new list of what the session manager's inhibitions
/// block: idling is blocked exactly if the word `idle` stands in the list.
pub fn handle_block_inhibited(value: &str) -> (event: Event)
    ensures
        event == Event::BlockInhibited(spec_contains(value@, "idle"@)),
{
    Event::BlockInhibited(contains(value, "idle"))
}

} // verus!
