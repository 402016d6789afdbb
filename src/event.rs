use vstd::prelude::*;

verus! {

/// What kind of modification a change notification reports.
#[derive(Clone, Copy, Debug, PartialEq, Eq, Structural)]
pub enum ModifyKind {
    /// A modification whose detail the platform did not report.
    Any,
    /// The file's content changed.
    Data,
    /// Only metadata (permissions, timestamps, ownership) changed.
    Metadata,
    /// The entry was renamed.
    Name,
    /// Some other modification.
    Other,
}

/// The kind of a change notification.
#[derive(Clone, Copy, Debug, PartialEq, Eq, Structural)]
pub enum ChangeKind {
    /// A change whose kind the platform did not report.
    Any,
    /// The entry was read or opened.
    Access,
    /// The entry was created.
    Create,
    /// The entry was modified.
    Modify(ModifyKind),
    /// The entry was removed.
    Remove,
    /// Some other kind of change.
    Other,
}

/// One filesystem change notification: its kind and the paths it affects.
#[derive(Clone, Debug)]
pub struct ChangeEvent {
    pub kind: ChangeKind,
    pub paths: Vec<String>,
}

/// The mathematical model of a `ChangeEvent`.
pub struct EventView {
    pub kind: ChangeKind,
    pub paths: Seq<Seq<char>>,
}

impl View for ChangeEvent {
    type V = EventView;

    open spec fn view(&self) -> EventView {
        EventView { kind: self.kind, paths: self.paths@.map_values(|p: String| p@) }
    }
}

/// An error that the watcher delivered in place of an event.
#[derive(Clone, Debug)]
pub struct WatchError {
    pub message: String,
}

/// A notification reports a content change when it is a modification of the
/// data, or a modification whose detail the platform left open.
pub open spec fn content_changed(kind: ChangeKind) -> bool {
    match kind {
        ChangeKind::Modify(ModifyKind::Any) => true,
        ChangeKind::Modify(ModifyKind::Data) => true,
        _ => false,
    }
}

/// Whether a notification of this kind reports that a file's content changed.
pub fn is_content_modification(kind: ChangeKind) -> (r: bool)
    ensures
        r == content_changed(kind),
{
    match kind {
        ChangeKind::Modify(ModifyKind::Any) => true,
        ChangeKind::Modify(ModifyKind::Data) => true,
        _ => false,
    }
}

} // verus!
