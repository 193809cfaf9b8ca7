use std::sync::atomic::{AtomicBool, Ordering};
use std::sync::Arc;

use atri_bot::event::custom::CustomEvent;
use atri_bot::event::listener::{keeps_listening, ListenerGuard, ListenerSettings, Priority};
use atri_bot::event::SharedEvent;

#[test]
fn shared_event_flag_is_shared_by_clones() {
    let e = SharedEvent::new(5u32);
    assert_eq!(*e.inner(), 5);
    assert!(!e.is_intercepted());
    let c = e.clone();
    c.intercept();
    assert!(e.is_intercepted());
    assert_eq!(*c.inner(), 5);
}

#[test]
fn try_into_inner_needs_the_last_handle() {
    let e = SharedEvent::new(String::from("ev"));
    let c = e.clone();
    let e = match e.try_into_inner() {
        Ok(_) => panic!("another handle is alive"),
        Err(e) => e,
    };
    drop(c);
    match e.try_into_inner() {
        Ok(s) => assert_eq!(s, "ev"),
        Err(_) => panic!("this is the last handle"),
    }
}

#[test]
fn custom_event_wraps_a_value() {
    let _c = CustomEvent::new(3i64);
}

#[test]
fn priority_from_rank() {
    assert_eq!(Priority::from(0u8), Priority::Top);
    assert_eq!(Priority::from(1u8), Priority::High);
    assert_eq!(Priority::from(2u8), Priority::Middle);
    assert_eq!(Priority::from(3u8), Priority::Low);
    assert_eq!(Priority::from(4u8), Priority::Base);
    assert_eq!(Priority::from(5u8), Priority::Middle);
    assert_eq!(Priority::from(255u8), Priority::Middle);
    assert_eq!(Priority::default(), Priority::Middle);
    for p in [Priority::Top, Priority::High, Priority::Middle, Priority::Low, Priority::Base] {
        assert_eq!(Priority::from(p.rank()), p);
    }
    assert_eq!(Priority::Base.rank(), 4);
}

#[test]
fn listener_settings_builder() {
    let s = ListenerSettings::new();
    assert!(s.name.is_none());
    assert!(s.concurrent);
    assert!(!s.watcher);
    assert_eq!(s.priority, Priority::Middle);
    assert_eq!(s.take_name(), "Unnamed-Listener");
    let s = ListenerSettings::new()
        .name("Moli-Chat".to_string())
        .concurrent(false)
        .watcher(true)
        .priority(Priority::Top);
    assert!(!s.concurrent);
    assert!(s.watcher);
    assert_eq!(s.priority, Priority::Top);
    assert_eq!(s.take_name(), "Moli-Chat");
}

#[test]
fn watcher_stops_when_asked_or_closed() {
    assert!(keeps_listening(true, false));
    assert!(!keeps_listening(false, false));
    assert!(!keeps_listening(true, true));
    assert!(!keeps_listening(false, true));
}

#[test]
fn dropping_the_guard_closes_the_listener() {
    let flag = Arc::new(AtomicBool::new(false));
    let guard = ListenerGuard::new(Arc::new("L".to_string()), flag.clone());
    assert_eq!(guard.name(), "L");
    assert!(!guard.closed());
    drop(guard);
    assert!(flag.load(Ordering::SeqCst));
}
