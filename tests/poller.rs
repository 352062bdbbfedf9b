use bank_statements::poller::{PollDecision, Poller};

#[test]
fn ready_at_once() {
    let mut p = Poller::with_defaults();
    assert_eq!(p.observe(true), PollDecision::Ready);
}

#[test]
fn zero_interval_is_refused() {
    assert!(Poller::new(1000, 0).is_none());
    assert!(Poller::new(0, 1).is_some());
}

#[test]
fn default_poller_waits_forty_times() {
    let mut p = Poller::with_defaults();
    let mut waits = 0;
    loop {
        match p.observe(false) {
            PollDecision::Wait(d) => {
                assert_eq!(d, 500);
                waits += 1;
            }
            PollDecision::TimedOut => break,
            PollDecision::Ready => unreachable!(),
        }
    }
    assert_eq!(waits, 40);
}

#[test]
fn last_wait_is_cut_to_the_bound() {
    let mut p = Poller::new(1200, 500).unwrap();
    assert_eq!(p.observe(false), PollDecision::Wait(500));
    assert_eq!(p.observe(false), PollDecision::Wait(500));
    assert_eq!(p.observe(false), PollDecision::Wait(200));
    assert_eq!(p.observe(false), PollDecision::TimedOut);
    assert_eq!(p.observe(false), PollDecision::TimedOut);
    assert_eq!(p.observe(true), PollDecision::Ready);
}

#[test]
fn zero_bound_times_out_at_once() {
    let mut p = Poller::new(0, 100).unwrap();
    assert_eq!(p.observe(false), PollDecision::TimedOut);
}

#[test]
fn ready_after_waiting() {
    let mut p = Poller::new(5000, 1000).unwrap();
    assert_eq!(p.observe(false), PollDecision::Wait(1000));
    assert_eq!(p.observe(true), PollDecision::Ready);
}
