use nexus::api::{AddonApi, ApiSlot};
use nexus::bus::{Dispatch, EventBus};
use nexus::event::{
    event_raise, event_raise_notification, event_raise_notification_targeted,
    event_raise_targeted, event_subscribe_typed, event_subscribe_unknown, event_unsubscribe,
    Event, HostCall, RawEventConsume, RawEventConsumeUnknown,
};
use nexus::identifier::{str_to_c, EventError};
use nexus::payload::{event_consume, Payload};

const ADDON: i32 = 77;

fn run(bus: &mut EventBus, call: HostCall) -> Dispatch {
    bus.perform(ADDON, &call)
}

fn observe_i32(d: &Dispatch) -> Option<i32> {
    event_consume::<i32>(d.data.as_deref())
}

#[test]
fn identifier_gets_null_terminator() {
    let c = str_to_c("TEST_EVENT").unwrap();
    let mut want = b"TEST_EVENT".to_vec();
    want.push(0);
    assert_eq!(c, want);
}

#[test]
fn empty_identifier_is_a_lone_terminator() {
    assert_eq!(str_to_c("").unwrap(), vec![0u8]);
}

#[test]
fn utf8_identifier_keeps_its_bytes() {
    let c = str_to_c("événement").unwrap();
    let mut want = "événement".as_bytes().to_vec();
    want.push(0);
    assert_eq!(c, want);
}

#[test]
fn embedded_nul_is_refused() {
    assert_eq!(str_to_c("BAD\0ID"), Err(EventError::EmbeddedNul));
    assert_eq!(str_to_c("\0"), Err(EventError::EmbeddedNul));
}

#[test]
fn embedded_nul_fails_every_call_before_the_host() {
    let cb = RawEventConsumeUnknown { id: 1 };
    assert!(matches!(event_subscribe_unknown("A\0B", cb), Err(EventError::EmbeddedNul)));
    assert!(matches!(
        event_subscribe_typed("A\0B", RawEventConsume::<i32>::new(1)),
        Err(EventError::EmbeddedNul)
    ));
    assert!(matches!(event_unsubscribe("A\0B", cb), Err(EventError::EmbeddedNul)));
    assert!(matches!(event_raise("A\0B", &5i32), Err(EventError::EmbeddedNul)));
    assert!(matches!(event_raise_notification("A\0B"), Err(EventError::EmbeddedNul)));
    assert!(matches!(event_raise_targeted(3, "A\0B", &5i32), Err(EventError::EmbeddedNul)));
    assert!(matches!(
        event_raise_notification_targeted(3, "A\0B"),
        Err(EventError::EmbeddedNul)
    ));
    let ev: Event<i32> = Event::new("X\0");
    assert!(matches!(ev.subscribe(RawEventConsume::new(2)), Err(EventError::EmbeddedNul)));
    assert!(matches!(ev.raise(&1), Err(EventError::EmbeddedNul)));
}

#[test]
fn i32_image_is_little_endian() {
    assert_eq!(42i32.encode(), vec![42, 0, 0, 0]);
    assert_eq!((-1i32).encode(), vec![255, 255, 255, 255]);
    assert_eq!(i32::MIN.encode(), vec![0, 0, 0, 128]);
    assert_eq!(0x0102_0304u32.encode(), vec![4, 3, 2, 1]);
}

#[test]
fn payload_round_trips_bit_for_bit() {
    for v in [0i32, 1, -1, 42, i32::MAX, i32::MIN, -123_456] {
        assert_eq!(i32::decode(&v.encode()), Some(v));
    }
    for v in [0u32, 7, u32::MAX, 0xdead_beef] {
        assert_eq!(u32::decode(&v.encode()), Some(v));
    }
    assert_eq!(<()>::decode(&().encode()), Some(()));
}

#[test]
fn image_of_wrong_length_is_no_value() {
    assert_eq!(i32::decode(&[1, 2, 3]), None);
    assert_eq!(u32::decode(&[1, 2, 3, 4, 5]), None);
    assert_eq!(<()>::decode(&[0]), None);
}

#[test]
fn absent_pointer_is_no_value() {
    assert_eq!(event_consume::<i32>(None), None);
    assert_eq!(event_consume::<()>(None), None);
    assert_eq!(event_consume::<()>(Some(&[])), Some(()));
    assert_eq!(event_consume::<i32>(Some(&[42, 0, 0, 0])), Some(42));
}

#[test]
fn raise_observed_then_nothing_after_revert() {
    let mut bus = EventBus::new();
    let ev: Event<i32> = Event::new("TEST_EVENT");
    let (call, undo) = ev.subscribe(RawEventConsume::new(1)).unwrap();
    run(&mut bus, call);

    let d = run(&mut bus, ev.raise(&42).unwrap());
    assert_eq!(d.callbacks, vec![1]);
    assert_eq!(observe_i32(&d), Some(42));

    run(&mut bus, undo.revert());
    let d = run(&mut bus, ev.raise(&43).unwrap());
    assert!(d.callbacks.is_empty());
}

#[test]
fn second_trampoline_survives_revert_of_first() {
    let mut bus = EventBus::new();
    let ev: Event<i32> = Event::new("TEST_EVENT");
    let (call_a, undo_a) = ev.subscribe(RawEventConsume::new(1)).unwrap();
    let (call_b, _undo_b) = ev.subscribe(RawEventConsume::new(2)).unwrap();
    run(&mut bus, call_a);
    run(&mut bus, call_b);
    run(&mut bus, undo_a.revert());

    let d = run(&mut bus, ev.raise(&9).unwrap());
    assert_eq!(d.callbacks, vec![2]);
    assert_eq!(observe_i32(&d), Some(9));
}

#[test]
fn notification_without_subscribers_does_nothing() {
    let mut bus = EventBus::new();
    let d = run(&mut bus, event_raise_notification("PING").unwrap());
    assert!(d.callbacks.is_empty());
    assert!(d.data.is_none());
    assert_eq!(bus.len(), 0);
}

#[test]
fn targeted_raise_skips_other_signature() {
    let mut bus = EventBus::new();
    let (call, _undo) = event_subscribe_typed("TARGETED", RawEventConsume::<i32>::new(5)).unwrap();
    bus.perform(5678, &call);

    let d = bus.perform(ADDON, &event_raise_targeted(1234, "TARGETED", &1i32).unwrap());
    assert!(d.callbacks.is_empty());
    let d = bus.perform(ADDON, &event_raise_notification_targeted(1234, "TARGETED").unwrap());
    assert!(d.callbacks.is_empty());

    let d = bus.perform(ADDON, &event_raise_targeted(5678, "TARGETED", &1i32).unwrap());
    assert_eq!(d.callbacks, vec![5]);
    assert_eq!(observe_i32(&d), Some(1));
    let d = bus.perform(ADDON, &event_raise_notification_targeted(5678, "TARGETED").unwrap());
    assert_eq!(d.callbacks, vec![5]);
    assert_eq!(observe_i32(&d), None);
}

#[test]
fn subscribe_then_revert_restores_registry() {
    let mut bus = EventBus::new();
    let (keep, _k) = event_subscribe_unknown("KEEP", RawEventConsumeUnknown { id: 3 }).unwrap();
    run(&mut bus, keep);
    let cb = RawEventConsumeUnknown { id: 4 };
    let (call, undo) = event_subscribe_unknown("ROUND_TRIP", cb).unwrap();
    run(&mut bus, call);
    let ident = str_to_c("ROUND_TRIP").unwrap();
    assert!(bus.is_subscribed(&ident, cb));
    assert_eq!(bus.len(), 2);
    run(&mut bus, undo.revert());
    assert!(!bus.is_subscribed(&ident, cb));
    assert!(bus.is_subscribed(&str_to_c("KEEP").unwrap(), RawEventConsumeUnknown { id: 3 }));
    assert_eq!(bus.len(), 1);
}

#[test]
fn revert_keeps_same_callback_on_other_identifier() {
    let mut bus = EventBus::new();
    let cb = RawEventConsumeUnknown { id: 6 };
    let (a, undo_a) = event_subscribe_unknown("FIRST", cb).unwrap();
    let (b, _undo_b) = event_subscribe_unknown("SECOND", cb).unwrap();
    run(&mut bus, a);
    run(&mut bus, b);
    run(&mut bus, undo_a.revert());
    assert!(!bus.is_subscribed(&str_to_c("FIRST").unwrap(), cb));
    assert!(bus.is_subscribed(&str_to_c("SECOND").unwrap(), cb));
}

#[test]
fn unsubscribe_of_unknown_callback_changes_nothing() {
    let mut bus = EventBus::new();
    let (a, _undo) = event_subscribe_unknown("EV", RawEventConsumeUnknown { id: 1 }).unwrap();
    run(&mut bus, a);
    run(&mut bus, event_unsubscribe("EV", RawEventConsumeUnknown { id: 2 }).unwrap());
    assert_eq!(bus.len(), 1);
    run(&mut bus, event_unsubscribe("EV", RawEventConsumeUnknown { id: 1 }).unwrap());
    assert_eq!(bus.len(), 0);
}

#[test]
fn raise_reaches_subscribers_in_order_with_payload() {
    let mut bus = EventBus::new();
    for id in [10u64, 11, 12] {
        let (c, _u) = event_subscribe_unknown("ORDER", RawEventConsumeUnknown { id }).unwrap();
        run(&mut bus, c);
    }
    let (other, _u) = event_subscribe_unknown("OTHER", RawEventConsumeUnknown { id: 13 }).unwrap();
    run(&mut bus, other);
    let d = run(&mut bus, event_raise("ORDER", &0xdead_beefu32).unwrap());
    assert_eq!(d.callbacks, vec![10, 11, 12]);
    assert_eq!(d.data, Some(vec![0xef, 0xbe, 0xad, 0xde]));
    assert_eq!(event_consume::<u32>(d.data.as_deref()), Some(0xdead_beef));
}

#[test]
fn erased_trampoline_keeps_identity() {
    let a = RawEventConsume::<i32>::new(1).erase();
    let b = RawEventConsume::<i32>::new(2).erase();
    assert_eq!(a.id, 1);
    assert_ne!(a, b);
}

#[test]
fn capability_table_read_before_install_fails() {
    let mut slot = ApiSlot::new();
    assert!(!slot.is_installed());
    assert!(matches!(AddonApi::get(&slot), Err(EventError::Uninitialized)));
    let call = event_raise_notification("PING").unwrap();
    assert!(matches!(slot.perform(ADDON, &call), Err(EventError::Uninitialized)));
}

#[test]
fn capability_table_installs_once() {
    let mut slot = ApiSlot::new();
    assert!(slot.install(AddonApi { event: EventBus::new() }).is_ok());
    assert!(slot.is_installed());
    assert!(slot.install(AddonApi { event: EventBus::new() }).is_err());

    let ev: Event<i32> = Event::new("TEST_EVENT");
    let (call, _undo) = ev.subscribe(RawEventConsume::new(8)).unwrap();
    assert!(slot.perform(ADDON, &call).is_ok());
    assert_eq!(AddonApi::get(&slot).ok().unwrap().event.len(), 1);
    let d = slot.perform(ADDON, &ev.raise(&-5).unwrap()).ok().unwrap();
    assert_eq!(d.callbacks, vec![8]);
    assert_eq!(observe_i32(&d), Some(-5));
}
