use spinner::Channel;

#[test]
fn test_send_receive() {
    let channel = Channel::new();
    let message = "Hello, world!".to_string();
    channel.try_send(message.clone()).unwrap();
    let received = channel.try_receive().unwrap();
    assert_eq!(received, message);
}

#[test]
fn test_receive_empty() {
    let channel = Channel::<String>::new();
    let result = channel.try_receive();
    assert!(result.is_err());
}

#[test]
fn test_send_receive_fifo_order() {
    let channel = Channel::new();
    channel.try_send("first".to_string()).unwrap();
    channel.try_send("second".to_string()).unwrap();
    assert_eq!(channel.try_receive().unwrap(), "first");
    assert_eq!(channel.try_receive().unwrap(), "second");
}

#[test]
fn test_clone_shares_queue() {
    let channel = Channel::new();
    let other = channel.clone();
    channel.try_send(7u64).unwrap();
    assert_eq!(other.try_receive().unwrap(), 7u64);
}
