use bytes::Bytes;
use vector_embed::registry::{ChannelRegistry, CHANNEL_CAPACITY};

#[test]
fn registered_endpoint_reaches_its_receiver() {
    let mut reg = ChannelRegistry::new();
    let rx = reg.new_channel("in");
    assert_eq!(rx.channel(), 0);
    let mut rx = rx.into_receiver();
    let tx = reg.get_sender("in").expect("registered");
    assert_eq!(tx.channel(), 0);
    assert_eq!(tx.sender().max_capacity(), CHANNEL_CAPACITY);
    tx.sender().try_send(Bytes::from_static(b"one")).unwrap();
    assert_eq!(rx.try_recv().unwrap(), Bytes::from_static(b"one"));
}

#[test]
fn reregistration_leaves_earlier_sender_stale() {
    let mut reg = ChannelRegistry::new();
    let first_rx = reg.new_channel("in");
    let stale = reg.get_sender("in").unwrap();
    let second_rx = reg.new_channel("in");
    assert_ne!(first_rx.channel(), second_rx.channel());
    let current = reg.get_sender("in").unwrap();
    assert_eq!(current.channel(), second_rx.channel());
    assert_ne!(current.channel(), stale.channel());
    assert!(!current.sender().same_channel(stale.sender()));
    let mut second_rx = second_rx.into_receiver();
    let mut first_rx = first_rx.into_receiver();
    stale.sender().try_send(Bytes::from_static(b"old")).unwrap();
    current.sender().try_send(Bytes::from_static(b"kept")).unwrap();
    assert_eq!(second_rx.try_recv().unwrap(), Bytes::from_static(b"kept"));
    assert!(second_rx.try_recv().is_err());
    assert_eq!(first_rx.try_recv().unwrap(), Bytes::from_static(b"old"));
    drop(first_rx);
    assert!(stale.sender().is_closed());
    assert!(stale.sender().try_send(Bytes::from_static(b"lost")).is_err());
}

#[test]
fn unregistered_endpoint_has_no_sender() {
    let mut reg = ChannelRegistry::new();
    assert!(reg.get_sender("in").is_none());
    let _rx = reg.new_channel("in");
    assert!(reg.get_sender("other").is_none());
    assert!(reg.get_sender("in").is_some());
}

#[test]
fn endpoints_get_distinct_channels() {
    let mut reg = ChannelRegistry::new();
    let a = reg.new_channel("a");
    let b = reg.new_channel("b");
    assert_eq!((a.channel(), b.channel()), (0, 1));
    assert_eq!(reg.get_sender("a").unwrap().channel(), 0);
    assert_eq!(reg.get_sender("b").unwrap().channel(), 1);
    assert!(reg.can_register());
}
