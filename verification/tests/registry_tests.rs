use clip_relay::registry::SubscriberRegistry;

#[test]
fn new_registry_has_no_subscribers() {
    let registry: SubscriberRegistry<&str> = SubscriberRegistry::new();
    assert_eq!(registry.len(), 0);
    assert!(!registry.is_registered(1));
    assert!(registry.broadcast("hello").is_empty());
}

#[test]
fn broadcast_reaches_each_of_three_exactly_once() {
    let mut registry: SubscriberRegistry<&str> = SubscriberRegistry::new();
    assert!(registry.register(10, "ten"));
    assert!(registry.register(20, "twenty"));
    assert!(registry.register(30, "thirty"));
    let deliveries = registry.broadcast("msg");
    assert_eq!(deliveries.len(), 3);
    for id in [10u64, 20, 30] {
        let of_id: Vec<_> = deliveries.iter().filter(|d| d.subscriber == id).collect();
        assert_eq!(of_id.len(), 1);
        assert_eq!(of_id[0].text, "msg");
    }
    let handle_of_20 = deliveries.iter().find(|d| d.subscriber == 20).unwrap().handle;
    assert_eq!(*handle_of_20, "twenty");
}

#[test]
fn register_is_idempotent() {
    let mut registry: SubscriberRegistry<&str> = SubscriberRegistry::new();
    assert!(registry.register(1, "first"));
    assert!(!registry.register(1, "second"));
    assert_eq!(registry.len(), 1);
    let deliveries = registry.broadcast("m");
    assert_eq!(deliveries.len(), 1);
    assert_eq!(*deliveries[0].handle, "first");
}

#[test]
fn unregister_twice_is_safe() {
    let mut registry: SubscriberRegistry<u8> = SubscriberRegistry::new();
    registry.register(1, 1);
    registry.register(2, 2);
    assert!(registry.unregister(1));
    assert!(!registry.unregister(1));
    assert!(!registry.is_registered(1));
    assert!(registry.is_registered(2));
    assert_eq!(registry.len(), 1);
}

#[test]
fn unregister_before_register_is_safe() {
    let mut registry: SubscriberRegistry<u8> = SubscriberRegistry::new();
    assert!(!registry.unregister(5));
    assert!(!registry.is_registered(5));
    assert_eq!(registry.len(), 0);
    assert!(registry.register(5, 0));
    assert!(registry.is_registered(5));
}

#[test]
fn unregistered_subscriber_gets_nothing() {
    let mut registry: SubscriberRegistry<u8> = SubscriberRegistry::new();
    registry.register(1, 11);
    registry.register(2, 22);
    registry.register(3, 33);
    registry.unregister(2);
    let deliveries = registry.broadcast("x");
    let mut ids: Vec<u64> = deliveries.iter().map(|d| d.subscriber).collect();
    ids.sort();
    assert_eq!(ids, vec![1, 3]);
    let mut handles: Vec<u8> = deliveries.iter().map(|d| *d.handle).collect();
    handles.sort();
    assert_eq!(handles, vec![11, 33]);
}

#[test]
fn registry_handles_many_subscribers() {
    let mut registry: SubscriberRegistry<u64> = SubscriberRegistry::new();
    for id in 0..500u64 {
        assert!(registry.register(id, id * 2));
    }
    for id in (0..500u64).filter(|id| id % 2 == 0) {
        assert!(registry.unregister(id));
    }
    assert_eq!(registry.len(), 250);
    let deliveries = registry.broadcast("m");
    assert_eq!(deliveries.len(), 250);
    assert!(deliveries.iter().all(|d| d.subscriber % 2 == 1 && *d.handle == d.subscriber * 2));
}
