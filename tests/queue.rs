use hywoma::dispatch::{CompositorCommand, Dispatcher};
use hywoma::{Message, Workspace};
use std::sync::mpsc;

#[test]
fn two_senders_one_consumer() {
    let n: u64 = 200;
    let (tx, rx) = mpsc::channel::<Message>();
    let events = tx.clone();
    let commands = tx.clone();
    drop(tx);
    for i in 0..n {
        events.send(Message::ActiveWorkspaceChangedID(i % 1000 + 1)).unwrap();
        if i % 3 == 0 {
            for j in 0..3 {
                if i + j < n {
                    commands.send(Message::SelectMonitor((i + j) % 3)).unwrap();
                }
            }
        }
    }
    drop(events);
    drop(commands);
    let mut d = Dispatcher::new(vec![10, 20, 30], Workspace { workspace: 1, monitor: 1, group: 0 });
    let mut changes: u64 = 0;
    let mut focus = [0u64; 3];
    for msg in rx {
        match d.handle(msg) {
            Ok(None) => changes += 1,
            Ok(Some(CompositorCommand::FocusMonitor(id))) => focus[(id / 10 - 1) as usize] += 1,
            other => panic!("unexpected outcome {other:?}"),
        }
    }
    assert_eq!(changes, n);
    assert_eq!(focus.iter().sum::<u64>(), n);
    assert_eq!(focus, [67, 67, 66]);
}
