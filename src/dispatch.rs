use vstd::prelude::*;

use crate::decimal::decimal_text;
use crate::message::Message;
use crate::workspace::{decode, encodable, encode, Workspace};

verus! {

/// A one-way command for the compositor, with the compositor's own
/// identifiers.
#[derive(Debug, Clone, Copy, PartialEq, Eq, Structural)]
pub enum CompositorCommand {
    /// Switch to the workspace with this identifier.
    SwitchWorkspace(u64),
    /// Move the focused window to this workspace, staying where we are.
    MoveToWorkspaceSilent(u64),
    /// Focus the monitor with this identifier.
    FocusMonitor(u64),
    /// Move the focused window to this monitor, staying where we are.
    MoveWindowToMonitor(u64),
}

/// The text sent to the compositor for a command.
pub open spec fn command_text(c: CompositorCommand) -> Seq<char> {
    match c {
        CompositorCommand::SwitchWorkspace(id) => "dispatch workspace "@ + decimal_text(
            id as nat,
        ),
        CompositorCommand::MoveToWorkspaceSilent(id) => "dispatch movetoworkspacesilent "@
            + decimal_text(id as nat),
        CompositorCommand::FocusMonitor(id) => "dispatch focusmonitor "@ + decimal_text(
            id as nat,
        ),
        CompositorCommand::MoveWindowToMonitor(id) => "dispatch movewindow mon:"@ + decimal_text(
            id as nat,
        ) + " silent"@,
    }
}

/// Relies on format! writing a `u64` in decimal, as its `Display` does,
/// between two texts.
#[verifier::external_body]
fn with_number(prefix: &str, n: u64, suffix: &str) -> (r: String)
    ensures
        r@ == prefix@ + decimal_text(n as nat) + suffix@,
{
    format!("{prefix}{n}{suffix}")
}

impl CompositorCommand {
    /// The text to send to the compositor's control socket.
    pub fn text(&self) -> (r: String)
        ensures
            r@ == command_text(*self),
    {
        proof {
            reveal_strlit("");
            reveal_strlit("dispatch workspace ");
            reveal_strlit("dispatch movetoworkspacesilent ");
            reveal_strlit("dispatch focusmonitor ");
            reveal_strlit("dispatch movewindow mon:");
            reveal_strlit(" silent");
        }
        match *self {
            CompositorCommand::SwitchWorkspace(id) => {
                let r = with_number("dispatch workspace ", id, "");
                assert(r@ =~= command_text(*self));
                r
            },
            CompositorCommand::MoveToWorkspaceSilent(id) => {
                let r = with_number("dispatch movetoworkspacesilent ", id, "");
                assert(r@ =~= command_text(*self));
                r
            },
            CompositorCommand::FocusMonitor(id) => {
                let r = with_number("dispatch focusmonitor ", id, "");
                assert(r@ =~= command_text(*self));
                r
            },
            CompositorCommand::MoveWindowToMonitor(id) => with_number(
                "dispatch movewindow mon:",
                id,
                " silent",
            ),
        }
    }
}

/// Why the dispatcher could not act on a message.
#[derive(Debug, Clone, Copy, PartialEq, Eq, Structural)]
pub enum DispatchError {
    /// A monitor position past the end of the monitor list.
    MonitorOutOfRange,
    /// A workspace number whose identifier cannot be computed.
    WorkspaceOutOfRange,
}

/// The active workspace with its workspace number replaced.
pub open spec fn with_workspace(w: Workspace, n: u64) -> Workspace {
    Workspace { workspace: n, ..w }
}

/// The active workspace after a message.
pub open spec fn next_active(active: Workspace, msg: Message) -> Workspace {
    match msg {
        Message::ActiveWorkspaceChangedID(id) => decode(id),
        Message::SelectWorkspace(n) => if encodable(with_workspace(active, n)) {
            with_workspace(active, n)
        } else {
            active
        },
        _ => active,
    }
}

/// The command to look up a monitor by position for.
pub open spec fn monitor_outcome(
    monitors: Seq<u64>,
    p: u64,
    make: spec_fn(u64) -> CompositorCommand,
) -> Result<Option<CompositorCommand>, DispatchError> {
    if p < monitors.len() {
        Ok(Some(make(monitors[p as int])))
    } else {
        Err(DispatchError::MonitorOutOfRange)
    }
}

/// The command the dispatcher sends for a message, if any.
pub open spec fn dispatch_outcome(monitors: Seq<u64>, active: Workspace, msg: Message) -> Result<
    Option<CompositorCommand>,
    DispatchError,
> {
    match msg {
        Message::ActiveWorkspaceChangedID(_) => Ok(None),
        Message::SelectWorkspace(n) => if encodable(with_workspace(active, n)) {
            Ok(Some(CompositorCommand::SwitchWorkspace(encode(with_workspace(active, n)) as u64)))
        } else {
            Err(DispatchError::WorkspaceOutOfRange)
        },
        Message::MoveToWorkspace(n) => if encodable(with_workspace(active, n)) {
            Ok(
                Some(
                    CompositorCommand::MoveToWorkspaceSilent(
                        encode(with_workspace(active, n)) as u64,
                    ),
                ),
            )
        } else {
            Err(DispatchError::WorkspaceOutOfRange)
        },
        Message::SelectMonitor(p) => monitor_outcome(
            monitors,
            p,
            |id: u64| CompositorCommand::FocusMonitor(id),
        ),
        Message::MoveToMonitor(p) => monitor_outcome(
            monitors,
            p,
            |id: u64| CompositorCommand::MoveWindowToMonitor(id),
        ),
    }
}

/// Moving the focused window to workspace `n` leaves the active workspace
/// as it is and sends exactly one command: move to the workspace with number
/// `n` on the active workspace's monitor and group.
pub proof fn lemma_move_keeps_active(monitors: Seq<u64>, active: Workspace, n: u64)
    requires
        encodable(Workspace { workspace: n, monitor: active.monitor, group: active.group }),
    ensures
        next_active(active, Message::MoveToWorkspace(n)) == active,
        dispatch_outcome(monitors, active, Message::MoveToWorkspace(n)) == Ok::<
            Option<CompositorCommand>,
            DispatchError,
        >(
            Some(
                CompositorCommand::MoveToWorkspaceSilent(
                    encode(
                        Workspace { workspace: n, monitor: active.monitor, group: active.group },
                    ) as u64,
                ),
            ),
        ),
{
    assert(with_workspace(active, n) == Workspace {
        workspace: n,
        monitor: active.monitor,
        group: active.group,
    });
}

/// Selecting a workspace records its number in the active workspace, keeps
/// monitor and group, and sends the identifier of that workspace.
pub proof fn lemma_select_records_workspace(monitors: Seq<u64>, active: Workspace, n: u64)
    requires
        encodable(with_workspace(active, n)),
    ensures
        next_active(active, Message::SelectWorkspace(n)).workspace == n,
        next_active(active, Message::SelectWorkspace(n)).monitor == active.monitor,
        next_active(active, Message::SelectWorkspace(n)).group == active.group,
        dispatch_outcome(monitors, active, Message::SelectWorkspace(n)) == Ok::<
            Option<CompositorCommand>,
            DispatchError,
        >(
            Some(
                CompositorCommand::SwitchWorkspace(
                    encode(next_active(active, Message::SelectWorkspace(n))) as u64,
                ),
            ),
        ),
{
}

/// The single consumer of messages: it owns the monitor list, fixed when
/// it starts, and the active workspace, and turns each message into at most
/// one compositor command.
pub struct Dispatcher {
    monitor_ids: Vec<u64>,
    active_workspace: Workspace,
}

impl Dispatcher {
    /// The compositor identifiers of the monitors, left to right.
    pub closed spec fn monitors(&self) -> Seq<u64> {
        self.monitor_ids@
    }

    /// The workspace the dispatcher takes to be active.
    pub closed spec fn active(&self) -> Workspace {
        self.active_workspace
    }

    /// A dispatcher for these monitors, ordered left to right, starting on
    /// this workspace.
    pub fn new(monitor_ids: Vec<u64>, active_workspace: Workspace) -> (d: Dispatcher)
        ensures
            d.monitors() == monitor_ids@,
            d.active() == active_workspace,
    {
        Dispatcher { monitor_ids, active_workspace }
    }

    /// The workspace the dispatcher takes to be active.
    pub fn active_workspace(&self) -> (w: Workspace)
        ensures
            w == self.active(),
    {
        self.active_workspace
    }

    /// The compositor identifiers of the monitors, left to right.
    pub fn monitor_ids(&self) -> (m: &Vec<u64>)
        ensures
            m@ == self.monitors(),
    {
        &self.monitor_ids
    }

    /// Acts on one message: records a workspace change, or gives the
    /// command to send. Selecting a workspace records it at once, before
    /// the compositor confirms it; moving a window leaves the active
    /// workspace as it is. A monitor is looked up by its position.
    pub fn handle(&mut self, msg: Message) -> (r: Result<Option<CompositorCommand>, DispatchError>)
        ensures
            r == dispatch_outcome(old(self).monitors(), old(self).active(), msg),
            final(self).active() == next_active(old(self).active(), msg),
            final(self).monitors() == old(self).monitors(),
    {
        match msg {
            Message::ActiveWorkspaceChangedID(id) => {
                self.active_workspace = Workspace::from_id(id);
                Ok(None)
            },
            Message::SelectWorkspace(n) => {
                let target = Workspace { workspace: n, ..self.active_workspace };
                if !Self::can_encode(&target) {
                    return Err(DispatchError::WorkspaceOutOfRange);
                }
                self.active_workspace = target;
                Ok(Some(CompositorCommand::SwitchWorkspace(target.to_id())))
            },
            Message::MoveToWorkspace(n) => {
                let target = Workspace { workspace: n, ..self.active_workspace };
                if !Self::can_encode(&target) {
                    return Err(DispatchError::WorkspaceOutOfRange);
                }
                Ok(Some(CompositorCommand::MoveToWorkspaceSilent(target.to_id())))
            },
            Message::SelectMonitor(p) => {
                if p >= self.monitor_ids.len() as u64 {
                    return Err(DispatchError::MonitorOutOfRange);
                }
                Ok(Some(CompositorCommand::FocusMonitor(self.monitor_ids[p as usize])))
            },
            Message::MoveToMonitor(p) => {
                if p >= self.monitor_ids.len() as u64 {
                    return Err(DispatchError::MonitorOutOfRange);
                }
                Ok(Some(CompositorCommand::MoveWindowToMonitor(self.monitor_ids[p as usize])))
            },
        }
    }

    /// Whether a workspace's identifier can be computed.
    fn can_encode(w: &Workspace) -> (r: bool)
        ensures
            r == encodable(*w),
    {
        w.workspace >= 1 && w.monitor >= 1 && w.group <= (u64::MAX - 1) / 100 && w.monitor - 1
            <= (u64::MAX - 1 - 100 * w.group) / 10 && w.workspace - 1 <= u64::MAX - 1 - 100
            * w.group - 10 * (w.monitor - 1)
    }
}

} // verus!
