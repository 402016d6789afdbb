use vstd::prelude::*;

use crate::event::{content_changed, is_content_modification, ChangeEvent, EventView};
use crate::paths::{destination_path, flattened};
use crate::pattern::{regex_compiles, regex_finds, Pattern};

verus! {

/// What to do about one event.
#[derive(Clone, Debug, PartialEq, Eq)]
pub enum Action {
    /// The event is not a content change: nothing to do.
    Ignore,
    /// A content change with no affected path: log it and go on.
    SkipMalformed,
    /// The affected path does not match the pattern.
    NoMatch { path: String },
    /// The affected path matches but has no file name to copy to.
    SkipNoFileName { path: String },
    /// Copy the file at `from` to `to`, overwriting what is there.
    Copy { from: String, to: String },
    /// The watcher reported an error; log it and go on.
    WatchFailed { message: String },
    /// The event source has ended: the loop stops.
    Stop,
}

/// The mathematical model of an `Action`.
pub enum Plan {
    Ignore,
    SkipMalformed,
    NoMatch { path: Seq<char> },
    SkipNoFileName { path: Seq<char> },
    Copy { from: Seq<char>, to: Seq<char> },
    WatchFailed { message: Seq<char> },
    Stop,
}

impl View for Action {
    type V = Plan;

    open spec fn view(&self) -> Plan {
        match self {
            Action::Ignore => Plan::Ignore,
            Action::SkipMalformed => Plan::SkipMalformed,
            Action::NoMatch { path } => Plan::NoMatch { path: path@ },
            Action::SkipNoFileName { path } => Plan::SkipNoFileName { path: path@ },
            Action::Copy { from, to } => Plan::Copy { from: from@, to: to@ },
            Action::WatchFailed { message } => Plan::WatchFailed { message: message@ },
            Action::Stop => Plan::Stop,
        }
    }
}

/// The plan for one event: only content changes count; of those, the first
/// affected path is tested against the pattern, and a match is copied into
/// the destination directory under its file name.
pub open spec fn plan_of(pattern: Seq<char>, destination: Seq<char>, e: EventView) -> Plan {
    if !content_changed(e.kind) {
        Plan::Ignore
    } else if e.paths.len() == 0 {
        Plan::SkipMalformed
    } else if !regex_finds(pattern, e.paths[0]) {
        Plan::NoMatch { path: e.paths[0] }
    } else {
        match flattened(destination, e.paths[0]) {
            Some(to) => Plan::Copy { from: e.paths[0], to },
            None => Plan::SkipNoFileName { path: e.paths[0] },
        }
    }
}

/// Why the command line was refused.
#[derive(Clone, Debug, PartialEq, Eq)]
pub enum ArgError {
    MissingSource,
    MissingPattern,
    InvalidPattern { pattern: String, reason: String },
    MissingDestination,
}

/// What to watch, what to match and where to copy; fixed for the life of the
/// watch.
#[derive(Debug)]
pub struct WatchRequest {
    pub source: String,
    pub pattern: Pattern,
    pub destination: String,
}

impl WatchRequest {
    pub fn new(source: String, pattern: Pattern, destination: String) -> (r: WatchRequest)
        ensures
            r.source == source,
            r.pattern == pattern,
            r.destination == destination,
    {
        WatchRequest { source, pattern, destination }
    }

    /// Reads the command line `<program> <source> <pattern> <destination>`;
    /// arguments after the destination are ignored.
    pub fn from_args(args: &Vec<String>) -> (r: Result<WatchRequest, ArgError>)
        ensures
            r matches Err(ArgError::MissingSource) <==> args@.len() < 2,
            r matches Err(ArgError::MissingPattern) <==> args@.len() == 2,
            r matches Err(ArgError::InvalidPattern { .. }) <==> args@.len() >= 3
                && !regex_compiles(args@[2]@),
            r matches Err(ArgError::InvalidPattern { pattern, .. }) ==> pattern@ == args@[2]@,
            r matches Err(ArgError::MissingDestination) <==> args@.len() == 3 && regex_compiles(
                args@[2]@,
            ),
            r is Ok <==> args@.len() >= 4 && regex_compiles(args@[2]@),
            r matches Ok(req) ==> req.source@ == args@[1]@ && req.pattern@ == args@[2]@
                && req.destination@ == args@[3]@,
    {
        if args.len() < 2 {
            return Err(ArgError::MissingSource);
        }
        let source = args[1].clone();
        if args.len() < 3 {
            return Err(ArgError::MissingPattern);
        }
        let pattern = match Pattern::new(args[2].as_str()) {
            Ok(p) => p,
            Err(e) => {
                return Err(ArgError::InvalidPattern { pattern: args[2].clone(), reason: e.reason });
            },
        };
        if args.len() < 4 {
            return Err(ArgError::MissingDestination);
        }
        let destination = args[3].clone();
        Ok(WatchRequest { source, pattern, destination })
    }

    /// Decides what to do about one event.
    pub fn plan(&self, event: &ChangeEvent) -> (r: Action)
        ensures
            r@ == plan_of(self.pattern@, self.destination@, event@),
    {
        if !is_content_modification(event.kind) {
            return Action::Ignore;
        }
        if event.paths.len() == 0 {
            return Action::SkipMalformed;
        }
        let path = &event.paths[0];
        assert(event@.paths[0] == path@);
        if !self.pattern.is_match(path.as_str()) {
            return Action::NoMatch { path: path.clone() };
        }
        match destination_path(self.destination.as_str(), path.as_str()) {
            Some(to) => Action::Copy { from: path.clone(), to },
            None => Action::SkipNoFileName { path: path.clone() },
        }
    }
}

} // verus!
