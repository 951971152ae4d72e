use vstd::prelude::*;

verus! {

/// What the dispatcher is asked to do.
///
/// The compositor's events produce `ActiveWorkspaceChangedID`; client
/// commands produce the others. A monitor is named by its position in the
/// list of monitors ordered from left to right.
#[derive(Debug, Clone, Copy, PartialEq, Eq, Structural)]
pub enum Message {
    ActiveWorkspaceChangedID(u64),
    SelectWorkspace(u64),
    MoveToWorkspace(u64),
    SelectMonitor(u64),
    MoveToMonitor(u64),
}

} // verus!
