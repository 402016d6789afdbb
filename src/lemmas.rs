use vstd::prelude::*;

use crate::event::{content_changed, EventView};
use crate::request::{plan_of, Plan};
use crate::watch_loop::{after_copy, drive, plans_of, waiting, LoopView};

verus! {

/// Fed any sequence of events, the loop hands out one plan per event, each
/// the plan for that event, in the order the events came; how the copies
/// ended does not change this.
pub proof fn lemma_events_handled_in_order(
    pattern: Seq<char>,
    destination: Seq<char>,
    events: Seq<EventView>,
    succeeded: Seq<bool>,
)
    ensures
        drive(pattern, destination, waiting(), events, succeeded) == plans_of(
            pattern,
            destination,
            events,
        ),
        drive(pattern, destination, waiting(), events, succeeded).len() == events.len(),
        forall|i: int|
            0 <= i < events.len() ==> #[trigger] drive(
                pattern,
                destination,
                waiting(),
                events,
                succeeded,
            )[i] == plan_of(pattern, destination, events[i]),
    decreases events.len(),
{
    if events.len() > 0 {
        lemma_events_handled_in_order(
            pattern,
            destination,
            events.drop_first(),
            succeeded.drop_first(),
        );
        assert(drive(pattern, destination, waiting(), events, succeeded) =~= plans_of(
            pattern,
            destination,
            events,
        ));
    } else {
        assert(drive(pattern, destination, waiting(), events, succeeded) =~= plans_of(
            pattern,
            destination,
            events,
        ));
    }
}

/// Handling `first` and then `second` hands out the plans for `first`
/// followed by the plans for `second`.
pub proof fn lemma_order_kept_across_batches(
    pattern: Seq<char>,
    destination: Seq<char>,
    first: Seq<EventView>,
    second: Seq<EventView>,
)
    ensures
        plans_of(pattern, destination, first + second) == plans_of(pattern, destination, first)
            + plans_of(pattern, destination, second),
{
    assert(plans_of(pattern, destination, first + second) =~= plans_of(pattern, destination, first)
        + plans_of(pattern, destination, second));
}

/// An event that is not a content change never leads to a copy, whatever
/// its paths.
pub proof fn lemma_only_content_changes_copy(
    pattern: Seq<char>,
    destination: Seq<char>,
    event: EventView,
)
    requires
        !content_changed(event.kind),
    ensures
        plan_of(pattern, destination, event) == Plan::Ignore,
        !(plan_of(pattern, destination, event) is Copy),
{
}

/// A failed copy leaves the loop ready for the next event, and the event
/// after a failed copy is still planned (and, if it matches, copied).
pub proof fn lemma_copy_failure_isolated(
    pattern: Seq<char>,
    destination: Seq<char>,
    s: LoopView,
    events: Seq<EventView>,
    succeeded: Seq<bool>,
    k: int,
)
    requires
        0 <= k,
        k + 1 < events.len(),
        k < succeeded.len(),
        !succeeded[k],
    ensures
        after_copy(s, false) == waiting(),
        drive(pattern, destination, waiting(), events, succeeded)[k + 1] == plan_of(
            pattern,
            destination,
            events[k + 1],
        ),
{
    lemma_events_handled_in_order(pattern, destination, events, succeeded);
}

/// A content change with no affected path is skipped, and the events after
/// it are handled as if it had not come.
pub proof fn lemma_malformed_event_skipped(
    pattern: Seq<char>,
    destination: Seq<char>,
    event: EventView,
    rest: Seq<EventView>,
    succeeded: Seq<bool>,
)
    requires
        content_changed(event.kind),
        event.paths.len() == 0,
    ensures
        plan_of(pattern, destination, event) == Plan::SkipMalformed,
        drive(pattern, destination, waiting(), seq![event] + rest, succeeded) == seq![
            Plan::SkipMalformed,
        ] + drive(pattern, destination, waiting(), rest, succeeded.drop_first()),
{
    assert((seq![event] + rest).drop_first() =~= rest);
}

} // verus!
