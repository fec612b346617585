use std::any::{Any, TypeId};
use std::sync::{Arc, Mutex};

use event_bus::event_aggregator::{ErasedSlot, EventAggregator, PublishError, SubscribeError};

struct AnySlot(Box<dyn Any + Send>);

impl ErasedSlot for AnySlot {
    fn holds<V: 'static>(&self) -> bool {
        self.0.is::<V>()
    }

    fn hold<V: Send + 'static>(value: V) -> Self {
        AnySlot(Box::new(value))
    }

    fn view_as<V: Send + 'static>(&self) -> Option<&V> {
        self.0.downcast_ref::<V>()
    }

    fn take_as<V: Send + 'static>(self) -> Option<V> {
        self.0.downcast::<V>().ok().map(|b| *b)
    }
}

type Bus = EventAggregator<AnySlot>;

#[derive(Debug, PartialEq, Clone, Copy)]
struct Resize {
    width: u32,
    height: u32,
}

#[derive(Debug, PartialEq, Clone)]
struct LogLine(String);

#[test]
fn publish_before_subscribe_is_delivered_first() {
    let mut bus = Bus::default();
    bus.send(Resize { width: 100, height: 50 }).unwrap();
    let mut rx = bus.register_event::<Resize>().unwrap();
    assert_eq!(rx.try_recv().unwrap(), Resize { width: 100, height: 50 });
    assert!(rx.try_recv().is_err());
}

#[test]
fn subscribe_before_publish_receives() {
    let mut bus = Bus::default();
    let mut rx = bus.register_event::<Resize>().unwrap();
    bus.send(Resize { width: 1, height: 2 }).unwrap();
    assert_eq!(rx.try_recv().unwrap(), Resize { width: 1, height: 2 });
}

#[test]
fn values_of_one_type_keep_their_order() {
    let mut bus = Bus::default();
    bus.send(1u32).unwrap();
    bus.send(2u32).unwrap();
    let mut rx = bus.register_event::<u32>().unwrap();
    bus.send(3u32).unwrap();
    bus.send(4u32).unwrap();
    for expected in 1u32..=4 {
        assert_eq!(rx.try_recv().unwrap(), expected);
    }
    assert!(rx.try_recv().is_err());
}

#[test]
fn types_do_not_see_each_other() {
    let mut bus = Bus::default();
    bus.send(7u32).unwrap();
    bus.send(LogLine("x".to_string())).unwrap();
    bus.send(8u64).unwrap();
    let mut lines = bus.register_event::<LogLine>().unwrap();
    let mut words = bus.register_event::<u32>().unwrap();
    assert_eq!(lines.try_recv().unwrap(), LogLine("x".to_string()));
    assert!(lines.try_recv().is_err());
    assert_eq!(words.try_recv().unwrap(), 7u32);
    assert!(words.try_recv().is_err());
}

#[test]
fn second_subscribe_is_refused() {
    let mut bus = Bus::default();
    let _rx = bus.register_event::<Resize>().unwrap();
    assert!(matches!(
        bus.register_event::<Resize>(),
        Err(SubscribeError::AlreadyRegistered)
    ));
    bus.send(Resize { width: 3, height: 4 }).unwrap();
    assert!(matches!(
        bus.register_event::<Resize>(),
        Err(SubscribeError::AlreadyRegistered)
    ));
}

#[test]
fn second_subscribe_after_early_publish_is_refused() {
    let mut bus = Bus::default();
    bus.send(5i64).unwrap();
    let mut rx = bus.register_event::<i64>().unwrap();
    assert!(matches!(
        bus.register_event::<i64>(),
        Err(SubscribeError::AlreadyRegistered)
    ));
    assert_eq!(rx.try_recv().unwrap(), 5i64);
}

#[test]
fn dropped_subscriber_gives_the_value_back() {
    let mut bus = Bus::default();
    let rx = bus.register_event::<LogLine>().unwrap();
    drop(rx);
    match bus.send(LogLine("lost?".to_string())) {
        Err(PublishError::PeerGone(v)) => assert_eq!(v, LogLine("lost?".to_string())),
        other => panic!("unexpected {:?}", other),
    }
}

#[test]
fn two_publishers_each_deliver_once() {
    let bus = Arc::new(Mutex::new(Bus::default()));
    let publish = |text: &'static str| {
        let bus = Arc::clone(&bus);
        move || bus.lock().unwrap().send(LogLine(text.to_string())).unwrap()
    };
    let a = publish("a");
    let b = publish("b");
    b();
    a();
    let mut rx = bus.lock().unwrap().register_event::<LogLine>().unwrap();
    let mut got = vec![rx.try_recv().unwrap().0, rx.try_recv().unwrap().0];
    assert!(rx.try_recv().is_err());
    got.sort();
    assert_eq!(got, vec!["a".to_string(), "b".to_string()]);
}

#[test]
fn keyed_publish_under_a_foreign_key_is_a_mismatch() {
    let mut bus = Bus::default();
    bus.send(1u8).unwrap();
    let key = TypeId::of::<u8>();
    match bus.send_keyed(key, "u8".to_string(), 300u16) {
        Err(PublishError::TypeMismatch(v)) => assert_eq!(v, 300u16),
        other => panic!("unexpected {:?}", other),
    }
    let mut rx = bus.register_event::<u8>().unwrap();
    assert_eq!(rx.try_recv().unwrap(), 1u8);
}

#[test]
fn keyed_subscribe_under_a_foreign_key_is_a_mismatch() {
    let mut bus = Bus::default();
    bus.send(1u8).unwrap();
    let key = TypeId::of::<u8>();
    assert!(matches!(
        bus.register_event_keyed::<u16>(key, "u8".to_string()),
        Err(SubscribeError::TypeMismatch)
    ));
    assert!(matches!(
        bus.register_event::<u8>(),
        Err(SubscribeError::AlreadyRegistered)
    ));
}

#[test]
fn keyed_operations_share_channels_with_typed_ones() {
    let mut bus = Bus::default();
    let key = TypeId::of::<Resize>();
    bus.send_keyed(key, "resize".to_string(), Resize { width: 9, height: 9 })
        .unwrap();
    let mut rx = bus.register_event::<Resize>().unwrap();
    assert_eq!(rx.try_recv().unwrap(), Resize { width: 9, height: 9 });
    assert!(bus.is_claimed(&key));
}

#[test]
fn claimed_only_after_subscribe() {
    let mut bus = Bus::default();
    let key = TypeId::of::<u32>();
    assert!(!bus.is_claimed(&key));
    bus.send(1u32).unwrap();
    assert!(!bus.is_claimed(&key));
    let _rx = bus.register_event::<u32>().unwrap();
    assert!(bus.is_claimed(&key));
    assert!(!bus.is_claimed(&TypeId::of::<u64>()));
}
