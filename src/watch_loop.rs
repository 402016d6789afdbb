use vstd::prelude::*;

use crate::event::{content_changed, ChangeEvent, EventView, WatchError};
use crate::request::{plan_of, Action, Plan, WatchRequest};

verus! {

/// How a copy that the loop asked for ended.
#[derive(Clone, Debug, PartialEq, Eq)]
pub enum CopyReport {
    Copied { from: String, to: String, bytes: u64 },
    Failed { from: String, to: String, reason: String },
}

/// The state of the consumer loop, between events.
pub struct LoopView {
    /// The copy that was handed out and has not been reported back.
    pub pending: Option<(Seq<char>, Seq<char>)>,
    /// The event source has ended.
    pub finished: bool,
}

/// Ready for the next event.
pub open spec fn waiting() -> LoopView {
    LoopView { pending: None, finished: false }
}

/// The state after the loop has handed out `plan`.
pub open spec fn after_receive(plan: Plan) -> LoopView {
    match plan {
        Plan::Stop => LoopView { pending: None, finished: true },
        Plan::Copy { from, to } => LoopView { pending: Some((from, to)), finished: false },
        _ => waiting(),
    }
}

/// The state after a copy was reported back, whether it succeeded or not:
/// a failed copy never ends the watch.
pub open spec fn after_copy(s: LoopView, succeeded: bool) -> LoopView {
    waiting()
}

/// The plan for what the event source hands over: an event, an error from
/// the watcher, or the end of the stream.
pub open spec fn plan_for_item(
    pattern: Seq<char>,
    destination: Seq<char>,
    item: Option<Result<ChangeEvent, WatchError>>,
) -> Plan {
    match item {
        None => Plan::Stop,
        Some(Err(w)) => Plan::WatchFailed { message: w.message@ },
        Some(Ok(e)) => plan_of(pattern, destination, e@),
    }
}

/// The plans that the loop hands out when it is fed `events` in order from
/// state `s`, and every copy it asks for ends as `succeeded` says; it stops
/// early only if it is not ready for the next event.
pub open spec fn drive(
    pattern: Seq<char>,
    destination: Seq<char>,
    s: LoopView,
    events: Seq<EventView>,
    succeeded: Seq<bool>,
) -> Seq<Plan>
    decreases events.len(),
{
    if events.len() == 0 || s != waiting() {
        Seq::empty()
    } else {
        let plan = plan_of(pattern, destination, events[0]);
        let s1 = after_receive(plan);
        let s2 = if s1.pending is Some {
            after_copy(s1, succeeded[0])
        } else {
            s1
        };
        seq![plan] + drive(pattern, destination, s2, events.drop_first(), succeeded.drop_first())
    }
}

/// The plans for `events`, each taken on its own, in the order given.
pub open spec fn plans_of(pattern: Seq<char>, destination: Seq<char>, events: Seq<EventView>) -> Seq<
    Plan,
> {
    events.map_values(|e: EventView| plan_of(pattern, destination, e))
}

/// The filter-and-copy loop: it takes one item at a time from the event
/// source, says what to do about it, and is told how each copy ended.
#[derive(Debug)]
pub struct WatchLoop {
    request: WatchRequest,
    pending: Option<(String, String)>,
    finished: bool,
}

impl View for WatchLoop {
    type V = LoopView;

    closed spec fn view(&self) -> LoopView {
        LoopView {
            pending: match self.pending {
                Some((from, to)) => Some((from@, to@)),
                None => None,
            },
            finished: self.finished,
        }
    }
}

impl WatchLoop {
    /// The request this loop serves.
    pub closed spec fn spec_request(&self) -> &WatchRequest {
        &self.request
    }

    /// A loop for `request`, ready for its first event.
    pub fn new(request: WatchRequest) -> (r: WatchLoop)
        ensures
            r@ == waiting(),
            r.spec_request() == request,
    {
        WatchLoop { request, pending: None, finished: false }
    }

    /// The request this loop serves.
    pub fn request(&self) -> (r: &WatchRequest)
        ensures
            r == self.spec_request(),
    {
        &self.request
    }

    /// Whether the loop is ready for the next item.
    pub fn is_waiting(&self) -> (r: bool)
        ensures
            r == (self@ == waiting()),
    {
        self.pending.is_none() && !self.finished
    }

    /// Whether the event source has ended.
    pub fn is_finished(&self) -> (r: bool)
        ensures
            r == self@.finished,
    {
        self.finished
    }

    /// Takes the next item from the event source and says what to do about
    /// it. `None` is the end of the stream.
    pub fn receive(&mut self, item: Option<Result<ChangeEvent, WatchError>>) -> (r: Action)
        requires
            old(self)@ == waiting(),
        ensures
            r@ == plan_for_item(
                old(self).spec_request().pattern@,
                old(self).spec_request().destination@,
                item,
            ),
            final(self)@ == after_receive(r@),
            final(self).spec_request() == old(self).spec_request(),
    {
        let r = match item {
            None => Action::Stop,
            Some(Err(w)) => Action::WatchFailed { message: w.message },
            Some(Ok(e)) => self.request.plan(&e),
        };
        match &r {
            Action::Stop => {
                self.finished = true;
            },
            Action::Copy { from, to } => {
                self.pending = Some((from.clone(), to.clone()));
            },
            _ => {},
        }
        r
    }

    /// Takes how the copy that was handed out ended (the number of bytes
    /// copied, or why it failed) and reports it. Either way the loop is then
    /// ready for the next event.
    pub fn copy_finished(&mut self, outcome: Result<u64, String>) -> (r: CopyReport)
        requires
            old(self)@.pending is Some,
            !old(self)@.finished,
        ensures
            final(self)@ == after_copy(old(self)@, outcome is Ok),
            final(self).spec_request() == old(self).spec_request(),
            match (r, outcome) {
                (CopyReport::Copied { from, to, bytes }, Ok(n)) => (from@, to@)
                    == old(self)@.pending.unwrap() && bytes == n,
                (CopyReport::Failed { from, to, reason }, Err(e)) => (from@, to@)
                    == old(self)@.pending.unwrap() && reason == e,
                _ => false,
            },
    {
        let (from, to) = self.pending.take().unwrap();
        match outcome {
            Ok(bytes) => CopyReport::Copied { from, to, bytes },
            Err(reason) => CopyReport::Failed { from, to, reason },
        }
    }
}

} // verus!
