use m0n1t0r_proxy::splice::{Direction, Splice, SpliceAction, SpliceEvent};

fn written(a: SpliceAction) -> (Direction, Vec<u8>) {
    match a {
        SpliceAction::Write(d, b) => (d, b),
        SpliceAction::Terminate => panic!("splice terminated"),
    }
}

#[test]
fn ping_pong_passes_unchanged() {
    let mut s = Splice::new();
    let (d, b) = written(s.on_event(SpliceEvent::Data(Direction::AToB, b"PING".to_vec())));
    assert_eq!(d, Direction::AToB);
    assert_eq!(b, b"PING".to_vec());
    let (d, b) = written(s.on_event(SpliceEvent::Data(Direction::BToA, b"PONG".to_vec())));
    assert_eq!(d, Direction::BToA);
    assert_eq!(b, b"PONG".to_vec());
    assert!(s.running());
}

#[test]
fn chunks_keep_their_order() {
    let mut s = Splice::new();
    let mut out = Vec::new();
    for chunk in [b"ab".to_vec(), b"cde".to_vec(), Vec::new(), b"f".to_vec()] {
        let (_, b) = written(s.on_event(SpliceEvent::Data(Direction::AToB, chunk)));
        out.extend_from_slice(&b);
    }
    assert_eq!(out, b"abcdef".to_vec());
}

#[test]
fn end_of_one_direction_ends_both() {
    let mut s = Splice::new();
    assert!(matches!(s.on_event(SpliceEvent::Ended(Direction::BToA)), SpliceAction::Terminate));
    assert!(!s.running());
    // The other direction is not relayed any more.
    assert!(matches!(
        s.on_event(SpliceEvent::Data(Direction::AToB, b"late".to_vec())),
        SpliceAction::Terminate
    ));
}

#[test]
fn failure_and_cancellation_end_the_splice() {
    let mut s = Splice::new();
    assert!(matches!(s.on_event(SpliceEvent::Failed(Direction::AToB)), SpliceAction::Terminate));
    assert!(!s.running());
    let mut t = Splice::new();
    assert!(matches!(t.on_event(SpliceEvent::Cancelled), SpliceAction::Terminate));
    assert!(!t.running());
}
