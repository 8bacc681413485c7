use receiver::channel::{CommandChannel, SendStatus, INPUT_BUFFER_SIZE};
use receiver::commands::GatewayCommand;

#[test]
fn fresh_channel_is_empty() {
    let mut c = CommandChannel::new();
    assert_eq!(c.len(), 0);
    assert_eq!(c.capacity(), INPUT_BUFFER_SIZE);
    assert_eq!(c.try_receive(), None);
}

#[test]
fn fifo_order_across_producers() {
    let mut c = CommandChannel::new();
    assert_eq!(c.try_send(GatewayCommand::COMMAND0), SendStatus::Sent);
    assert_eq!(c.try_send(GatewayCommand::COMMAND2), SendStatus::Sent);
    assert_eq!(c.try_send(GatewayCommand::COMMAND1), SendStatus::Sent);
    assert_eq!(c.try_receive(), Some(GatewayCommand::COMMAND0));
    assert_eq!(c.try_receive(), Some(GatewayCommand::COMMAND2));
    assert_eq!(c.try_receive(), Some(GatewayCommand::COMMAND1));
    assert_eq!(c.try_receive(), None);
}

#[test]
fn interleaved_sends_and_receives_keep_order() {
    let mut c = CommandChannel::new();
    assert_eq!(c.try_send(GatewayCommand::COMMAND1), SendStatus::Sent);
    assert_eq!(c.try_send(GatewayCommand::COMMAND2), SendStatus::Sent);
    assert_eq!(c.try_receive(), Some(GatewayCommand::COMMAND1));
    assert_eq!(c.try_send(GatewayCommand::COMMAND0), SendStatus::Sent);
    assert_eq!(c.try_receive(), Some(GatewayCommand::COMMAND2));
    assert_eq!(c.try_receive(), Some(GatewayCommand::COMMAND0));
    assert_eq!(c.try_receive(), None);
}

#[test]
fn full_channel_backpressures_without_loss() {
    let mut c = CommandChannel::new();
    for _ in 0..INPUT_BUFFER_SIZE {
        assert_eq!(c.try_send(GatewayCommand::COMMAND0), SendStatus::Sent);
    }
    assert_eq!(c.len(), INPUT_BUFFER_SIZE);

    // The (capacity + 1)-th send must wait; it is neither an error nor a drop.
    assert_eq!(c.try_send(GatewayCommand::COMMAND1), SendStatus::MustWait);
    assert_eq!(c.try_send(GatewayCommand::COMMAND1), SendStatus::MustWait);
    assert_eq!(c.len(), INPUT_BUFFER_SIZE);

    // One receive frees a slot; the retried send then completes.
    assert_eq!(c.try_receive(), Some(GatewayCommand::COMMAND0));
    assert_eq!(c.try_send(GatewayCommand::COMMAND1), SendStatus::Sent);
    assert_eq!(c.len(), INPUT_BUFFER_SIZE);

    // Everything queued comes out, in order, with nothing lost.
    assert_eq!(c.try_receive(), Some(GatewayCommand::COMMAND0));
    assert_eq!(c.try_receive(), Some(GatewayCommand::COMMAND0));
    assert_eq!(c.try_receive(), Some(GatewayCommand::COMMAND0));
    assert_eq!(c.try_receive(), Some(GatewayCommand::COMMAND1));
    assert_eq!(c.try_receive(), None);
}
