use sysview::channels::{get_viewer_channels, MessageQueue, ViewerCommand, ViewerMessage};

#[test]
fn channels_start_empty_and_keep_order() {
    let mut ch = get_viewer_channels();
    assert!(ch.commands.is_empty());
    assert!(ch.messages.is_empty());
    ch.commands.send(ViewerCommand::NextView);
    ch.commands.send(ViewerCommand::Quit);
    assert_eq!(ch.commands.len(), 2);
    assert_eq!(ch.commands.recv(), Some(ViewerCommand::NextView));
    assert_eq!(ch.commands.recv(), Some(ViewerCommand::Quit));
    assert_eq!(ch.commands.recv(), None);
    ch.messages.send(ViewerMessage::ViewChanged(2));
    assert_eq!(ch.messages.recv(), Some(ViewerMessage::ViewChanged(2)));
}

#[test]
fn queue_of_numbers() {
    let mut q: MessageQueue<u8> = MessageQueue::new();
    for i in 0..5 {
        q.send(i);
    }
    let out: Vec<u8> = (0..5).map(|_| q.recv().unwrap()).collect();
    assert_eq!(out, vec![0, 1, 2, 3, 4]);
}
