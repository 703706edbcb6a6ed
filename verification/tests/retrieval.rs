use spnav::Connection;
use spnav::Event;
use spnav::EventType;
use spnav::RawEvent;
use spnav::WaitError;

fn raw_motion() -> RawEvent {
    RawEvent { kind: 1, x: 1, y: 2, z: 3, rx: 4, ry: 5, rz: 6, period: 7, press: 0, bnum: 0 }
}

fn raw_button() -> RawEvent {
    RawEvent { kind: 2, x: 0, y: 0, z: 0, rx: 0, ry: 0, rz: 0, period: 0, press: 1, bnum: 0 }
}

#[test]
fn poll_empty_queue_returns_nothing() {
    let c = Connection { fd: 3 };
    assert_eq!(c.poll(0, &raw_motion()), None);
}

#[test]
fn poll_delivers_decoded_event() {
    let c = Connection { fd: 3 };
    let got = c.poll(1, &raw_motion()).expect("a queued motion record is delivered");
    match got {
        Event::Motion(m) => assert_eq!(m.t(), (1, 2, 3)),
        Event::Button(_) => panic!("expected a motion event"),
    }
}

#[test]
fn poll_drops_unrecognized_record_silently() {
    let c = Connection { fd: 3 };
    let mut raw = raw_motion();
    raw.kind = 42;
    assert_eq!(c.poll(1, &raw), None);
}

#[test]
fn wait_reports_abnormal_termination() {
    let c = Connection { fd: 3 };
    assert_eq!(c.wait(0, &raw_motion()), Err(WaitError::WaitFailed));
}

#[test]
fn wait_reports_unrecognized_record() {
    let c = Connection { fd: 3 };
    let mut raw = raw_motion();
    raw.kind = 42;
    assert_eq!(c.wait(1, &raw), Err(WaitError::UnrecognizedEvent));
}

#[test]
fn wait_delivers_decoded_event() {
    let c = Connection { fd: 3 };
    let got = c.wait(1, &raw_button()).expect("a delivered button record decodes");
    match got {
        Event::Button(b) => {
            assert!(b.press);
            assert_eq!(b.bnum, 0);
        }
        Event::Motion(_) => panic!("expected a button event"),
    }
}

#[test]
fn filter_codes_match_the_protocol() {
    assert_eq!(EventType::Any.code(), 0);
    assert_eq!(EventType::Motion.code(), 1);
    assert_eq!(EventType::Button.code(), 2);
}

#[test]
fn filters_admit_their_own_discriminant() {
    assert!(EventType::Any.admits(1));
    assert!(EventType::Any.admits(2));
    assert!(EventType::Any.admits(42));
    assert!(EventType::Motion.admits(1));
    assert!(!EventType::Motion.admits(2));
    assert!(EventType::Button.admits(2));
    assert!(!EventType::Button.admits(1));
}

#[test]
fn discard_any_empties_the_queue_before_poll() {
    let c = Connection { fd: 3 };
    let mut queue = vec![raw_motion(), raw_button(), raw_motion()];
    let filter = EventType::Any;
    queue.retain(|raw| !filter.admits(raw.kind));
    assert!(queue.is_empty());
    let delivered = if queue.is_empty() { 0 } else { 1 };
    assert_eq!(c.poll(delivered, &raw_motion()), None);
}
