use hywoma::command::{decode_command, encode_command, process_command, CommandError};
use hywoma::compositor::{
    active_workspace_from_json, monitor_ids_by_x, monitor_ids_from_json, monitor_records,
    HyprlandSocketKind,
    QueryError,
};
use hywoma::dispatch::{CompositorCommand, DispatchError, Dispatcher};
use hywoma::event::{parse_event_line, EventError};
use hywoma::{Message, Workspace};

fn ws(workspace: u64, monitor: u64, group: u64) -> Workspace {
    Workspace { workspace, monitor, group }
}

fn strings(items: &[&str]) -> Vec<String> {
    items.iter().map(|s| s.to_string()).collect()
}

#[test]
fn codec_round_trip_over_all_coordinates() {
    for group in 0..=9 {
        for monitor in 1..=10 {
            for workspace in 1..=10 {
                let w = ws(workspace, monitor, group);
                assert_eq!(Workspace::from_id(w.to_id()), w);
            }
        }
    }
}

#[test]
fn codec_example() {
    assert_eq!(ws(3, 2, 1).to_id(), 113);
    assert_eq!(Workspace::from_id(113), ws(3, 2, 1));
    assert_eq!(Workspace::from_id(112), ws(2, 2, 1));
}

#[test]
fn codec_edges() {
    assert_eq!(ws(1, 1, 0).to_id(), 1);
    assert_eq!(Workspace::from_id(1), ws(1, 1, 0));
    assert_eq!(ws(10, 10, 9).to_id(), 1000);
    assert_eq!(Workspace::from_id(1000), ws(10, 10, 9));
    assert_eq!(Workspace::from_id(1001), ws(1, 1, 0));
    assert_eq!(Workspace::from_id(0), ws(6, 2, 6));
}

#[test]
fn event_workspace_change() {
    assert_eq!(
        parse_event_line("workspacev2>>5,name"),
        Ok(Some(Message::ActiveWorkspaceChangedID(5)))
    );
    assert_eq!(
        parse_event_line("workspacev2>>17"),
        Ok(Some(Message::ActiveWorkspaceChangedID(17)))
    );
}

#[test]
fn event_focused_monitor() {
    assert_eq!(
        parse_event_line("focusedmonv2>>DP-1,7"),
        Ok(Some(Message::ActiveWorkspaceChangedID(7)))
    );
    assert_eq!(parse_event_line("focusedmonv2>>DP-1"), Err(EventError::MissingField));
}

#[test]
fn event_ignored_and_malformed() {
    assert_eq!(parse_event_line("unknownevent>>x,y"), Ok(None));
    assert_eq!(parse_event_line("workspace>>5,name"), Ok(None));
    assert_eq!(parse_event_line("malformed-no-delimiter"), Err(EventError::MissingDelimiter));
    assert_eq!(parse_event_line("workspacev2>x"), Err(EventError::MissingDelimiter));
    assert_eq!(parse_event_line(""), Err(EventError::MissingDelimiter));
}

#[test]
fn event_bad_number() {
    assert_eq!(parse_event_line("workspacev2>>abc,name"), Err(EventError::InvalidNumber));
    assert_eq!(parse_event_line("workspacev2>>,name"), Err(EventError::InvalidNumber));
    assert_eq!(
        parse_event_line("workspacev2>>18446744073709551616,x"),
        Err(EventError::InvalidNumber)
    );
    assert_eq!(
        parse_event_line("workspacev2>>18446744073709551615,x"),
        Ok(Some(Message::ActiveWorkspaceChangedID(u64::MAX)))
    );
    assert_eq!(parse_event_line("focusedmonv2>>DP-1,x7"), Err(EventError::InvalidNumber));
}

#[test]
fn command_mapping() {
    assert_eq!(
        process_command(&strings(&["select_workspace", "4"])),
        Some(Message::SelectWorkspace(4))
    );
    assert_eq!(
        process_command(&strings(&["move_to_workspace", "2"])),
        Some(Message::MoveToWorkspace(2))
    );
    assert_eq!(
        process_command(&strings(&["select_monitor", "0"])),
        Some(Message::SelectMonitor(0))
    );
    assert_eq!(
        process_command(&strings(&["move_to_monitor", "+1"])),
        Some(Message::MoveToMonitor(1))
    );
}

#[test]
fn command_rejections_give_no_message() {
    assert_eq!(process_command(&strings(&["select_workspace", "abc"])), None);
    assert_eq!(process_command(&strings(&["nonexistent_command"])), None);
    assert_eq!(process_command(&strings(&["select_workspace"])), None);
    assert_eq!(process_command(&strings(&["select_workspace", "1", "2"])), None);
    assert_eq!(process_command(&strings(&["select_workspace", "-1"])), None);
    assert_eq!(process_command(&strings(&[])), None);
}

#[test]
fn command_bytes() {
    let bytes = bincode::serialize(&strings(&["select_workspace", "4"])).unwrap();
    assert_eq!(decode_command(&bytes), Ok(Some(Message::SelectWorkspace(4))));
    let bytes = bincode::serialize(&strings(&["select_workspace", "abc"])).unwrap();
    assert_eq!(decode_command(&bytes), Ok(None));
    assert_eq!(decode_command(&[1, 2, 3]), Err(CommandError::MalformedEnvelope));
    assert_eq!(decode_command(&[]), Err(CommandError::MalformedEnvelope));
}

#[test]
fn command_encoding_round_trip() {
    let command = strings(&["move_to_monitor", "2"]);
    let bytes = encode_command(&command);
    assert_eq!(bytes, bincode::serialize(&command).unwrap());
    assert_eq!(decode_command(&bytes), Ok(Some(Message::MoveToMonitor(2))));
}

#[test]
fn command_texts() {
    assert_eq!(CompositorCommand::SwitchWorkspace(112).text(), "dispatch workspace 112");
    assert_eq!(
        CompositorCommand::MoveToWorkspaceSilent(5).text(),
        "dispatch movetoworkspacesilent 5"
    );
    assert_eq!(CompositorCommand::FocusMonitor(10).text(), "dispatch focusmonitor 10");
    assert_eq!(
        CompositorCommand::MoveWindowToMonitor(0).text(),
        "dispatch movewindow mon:0 silent"
    );
}

#[test]
fn dispatcher_select_workspace() {
    let mut d = Dispatcher::new(vec![10, 20, 30], ws(2, 1, 0));
    let r = d.handle(Message::SelectWorkspace(5));
    assert_eq!(r, Ok(Some(CompositorCommand::SwitchWorkspace(ws(5, 1, 0).to_id()))));
    assert_eq!(r, Ok(Some(CompositorCommand::SwitchWorkspace(5))));
    assert_eq!(d.active_workspace(), ws(5, 1, 0));
}

#[test]
fn dispatcher_move_to_workspace_keeps_active() {
    let mut d = Dispatcher::new(vec![10, 20, 30], ws(2, 3, 1));
    let r = d.handle(Message::MoveToWorkspace(7));
    assert_eq!(r, Ok(Some(CompositorCommand::MoveToWorkspaceSilent(127))));
    assert_eq!(d.active_workspace(), ws(2, 3, 1));
}

#[test]
fn dispatcher_monitor_indirection() {
    let mut d = Dispatcher::new(vec![10, 20, 30], ws(2, 1, 0));
    assert_eq!(d.handle(Message::SelectMonitor(0)), Ok(Some(CompositorCommand::FocusMonitor(10))));
    assert_eq!(
        d.handle(Message::MoveToMonitor(2)),
        Ok(Some(CompositorCommand::MoveWindowToMonitor(30)))
    );
    assert_eq!(d.handle(Message::SelectMonitor(3)), Err(DispatchError::MonitorOutOfRange));
    assert_eq!(d.handle(Message::MoveToMonitor(3)), Err(DispatchError::MonitorOutOfRange));
    assert_eq!(d.active_workspace(), ws(2, 1, 0));
    assert_eq!(d.monitor_ids(), &vec![10, 20, 30]);
}

#[test]
fn dispatcher_workspace_change_and_bad_number() {
    let mut d = Dispatcher::new(vec![10], ws(2, 1, 0));
    assert_eq!(d.handle(Message::ActiveWorkspaceChangedID(113)), Ok(None));
    assert_eq!(d.active_workspace(), ws(3, 2, 1));
    assert_eq!(d.handle(Message::SelectWorkspace(0)), Err(DispatchError::WorkspaceOutOfRange));
    assert_eq!(
        d.handle(Message::MoveToWorkspace(u64::MAX)),
        Err(DispatchError::WorkspaceOutOfRange)
    );
    assert_eq!(d.active_workspace(), ws(3, 2, 1));
}

#[test]
fn dispatcher_processes_every_message() {
    let mut d = Dispatcher::new(vec![10, 20], ws(1, 1, 0));
    let mut sent = 0;
    for i in 0..8u64 {
        let msg = if i % 2 == 0 {
            Message::SelectWorkspace(i + 1)
        } else {
            Message::SelectMonitor(i % 2)
        };
        if let Ok(Some(_)) = d.handle(msg) {
            sent += 1;
        }
    }
    assert_eq!(sent, 8);
}

#[test]
fn monitors_sorted_by_position() {
    assert_eq!(monitor_ids_by_x(&vec![(5, 10), (6, 0), (7, 10)]), vec![6, 5, 7]);
    assert_eq!(monitor_ids_by_x(&vec![]), Vec::<u64>::new());
    assert_eq!(
        monitor_ids_from_json(
            r#"[{"id":1,"name":"HDMI-A-1","x":1920},{"id":0,"x":0},{"id":2,"x":3840}]"#
        ),
        Ok(vec![0, 1, 2])
    );
}

#[test]
fn monitor_query_errors() {
    assert_eq!(monitor_ids_from_json("not json"), Err(QueryError::InvalidJson));
    assert_eq!(monitor_ids_from_json(r#"{"id":1}"#), Err(QueryError::UnexpectedShape));
    assert_eq!(monitor_ids_from_json(r#"[{"id":1}]"#), Err(QueryError::UnexpectedShape));
    assert_eq!(monitor_ids_from_json(r#"[{"id":1,"x":-5}]"#), Err(QueryError::UnexpectedShape));
    assert_eq!(monitor_ids_from_json("[]"), Ok(vec![]));
    assert_eq!(
        monitor_records(r#"[{"id":4,"x":7},{"x":2,"id":9}]"#),
        Ok(vec![(4, 7), (9, 2)])
    );
}

#[test]
fn active_workspace_query() {
    assert_eq!(active_workspace_from_json(r#"{"id":113,"name":"113"}"#), Ok(ws(3, 2, 1)));
    assert_eq!(active_workspace_from_json(r#"{"name":"x"}"#), Err(QueryError::UnexpectedShape));
    assert_eq!(active_workspace_from_json("{"), Err(QueryError::InvalidJson));
    assert_eq!(active_workspace_from_json(r#"{"id":"3"}"#), Err(QueryError::UnexpectedShape));
    assert_eq!(active_workspace_from_json("[1]"), Err(QueryError::UnexpectedShape));
}

#[test]
fn socket_file_names() {
    assert_eq!(HyprlandSocketKind::Command.file_name(), ".socket.sock");
    assert_eq!(HyprlandSocketKind::Event.file_name(), ".socket2.sock");
}
