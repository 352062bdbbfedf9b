use bank_statements::shutdown::{ShutdownCause, ShutdownCoordinator};

#[test]
fn first_publish_wins() {
    let mut bus = ShutdownCoordinator::new();
    assert!(!bus.is_published());
    assert_eq!(bus.cause(), None);
    assert!(bus.publish(ShutdownCause::Completed));
    assert!(bus.is_published());
    assert!(!bus.publish(ShutdownCause::Interrupt));
    assert!(!bus.publish(ShutdownCause::Failed));
    assert_eq!(bus.cause(), Some(ShutdownCause::Completed));
}

#[test]
fn second_publish_is_a_noop() {
    for first in [ShutdownCause::Interrupt, ShutdownCause::Completed, ShutdownCause::Failed] {
        let mut bus = ShutdownCoordinator::new();
        assert!(bus.publish(first));
        assert!(!bus.publish(first));
        assert_eq!(bus.cause(), Some(first));
    }
}

#[test]
fn subscription_resolves_once() {
    let mut bus = ShutdownCoordinator::new();
    let mut early = bus.subscribe();
    let mut other = bus.subscribe();
    assert!(!early.poll(&bus));
    bus.publish(ShutdownCause::Interrupt);
    assert!(early.poll(&bus));
    assert!(!early.poll(&bus));
    bus.publish(ShutdownCause::Failed);
    assert!(!early.poll(&bus));
    assert!(other.poll(&bus));
    let mut late = bus.subscribe();
    assert!(late.poll(&bus));
    assert!(!late.poll(&bus));
}
