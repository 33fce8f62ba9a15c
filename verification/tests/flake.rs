use gallery_core::flake::generator::{FlakeId, GeneratorState, SEQUENCE_MASK, compose_id};

#[test]
fn id_layout() {
    let id = compose_id(5, 3, 7);
    assert_eq!(id, FlakeId((5 << 22) | (3 << 14) | 7));
    assert_eq!(id.0 >> 22, 5);
    assert_eq!((id.0 >> 14) & 0xff, 3);
    assert_eq!(id.0 & 0x3fff, 7);
    assert_eq!(compose_id(-1, 0, 0).0, i64::MAX & !((1 << 22) - 1));
}

#[test]
fn sequence_advances_within_a_millisecond() {
    let mut state = GeneratorState::new();
    assert!(!state.observe(100));
    assert_eq!((state.last_time(), state.sequence()), (100, 0));
    let first = state.issue(1);
    assert!(!state.observe(100));
    assert_eq!(state.sequence(), 1);
    let second = state.issue(1);
    assert!(second.0 > first.0);
    assert!(!state.observe(101));
    assert_eq!((state.last_time(), state.sequence()), (101, 0));
    assert!(state.issue(1).0 > second.0);
}

#[test]
fn used_up_millisecond_requires_waiting() {
    let mut state = GeneratorState::new();
    assert!(!state.observe(50));
    for _ in 0..SEQUENCE_MASK - 2 {
        assert!(!state.observe(50));
    }
    assert_eq!(state.sequence(), SEQUENCE_MASK - 2);
    assert!(!state.observe(50));
    assert_eq!(state.sequence(), SEQUENCE_MASK - 1);
    let last = state.issue(9);
    assert!(state.observe(50));
    assert_eq!(state.sequence(), 0);
    state.resume(51);
    assert_eq!((state.last_time(), state.sequence()), (51, 0));
    assert!(state.issue(9).0 > last.0);
}

#[test]
fn at_most_16383_ids_share_a_millisecond() {
    let mut state = GeneratorState::new();
    let mut issued_in_ms = 0u32;
    let mut previous: Option<FlakeId> = None;
    loop {
        if state.observe(7) {
            break;
        }
        let id = state.issue(2);
        assert_eq!(id.0 >> 22, 7);
        if let Some(p) = previous {
            assert!(id.0 > p.0);
        }
        previous = Some(id);
        issued_in_ms += 1;
    }
    assert_eq!(issued_in_ms, 16383);
}
