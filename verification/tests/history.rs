use midimon::channel::{BoundedChannel, DEFAULT_CAPACITY};
use midimon::event::{EventPayload, EventRecord};
use midimon::history::History;
use std::time::{Duration, SystemTime};

fn stamped(seconds: u64, payload: EventPayload) -> EventRecord {
    EventRecord::new(SystemTime::UNIX_EPOCH + Duration::from_secs(seconds), payload)
}

#[test]
fn end_to_end_scenario() {
    let t0 = SystemTime::UNIX_EPOCH + Duration::from_secs(1_700_000_000);
    let note_on = EventRecord::new(
        t0,
        EventPayload::NoteOn { timing_offset: 3, channel: 0, note: 60, velocity_bits: 0.5f32.to_bits() },
    );
    let note_off = EventRecord::new(
        t0 + Duration::from_secs(4),
        EventPayload::NoteOff { timing_offset: 87, channel: 0, note: 60, velocity_bits: 0.0f32.to_bits() },
    );
    let mut channel = BoundedChannel::create(4).unwrap();
    assert_eq!(channel.push(note_on), Ok(()));
    assert_eq!(channel.push(note_off), Ok(()));
    let mut history = History::new();
    assert_eq!(history.accumulate(&mut channel), 2);
    assert_eq!(history.records(), &vec![note_on, note_off]);
    assert_eq!(history.records()[0].captured_at, t0);
    assert_eq!(history.records()[1].captured_at, t0 + Duration::from_secs(4));
    assert_eq!(channel.drain_all(), Vec::<EventRecord>::new());
}

#[test]
fn new_history_is_empty() {
    let history = History::new();
    assert_eq!(history.len(), 0);
    assert!(history.records().is_empty());
}

#[test]
fn absorb_appends_in_order() {
    let a = stamped(1, EventPayload::Unrecognized);
    let b = stamped(2, EventPayload::NoteOff { timing_offset: 1, channel: 2, note: 3, velocity_bits: 4 });
    let c = stamped(3, EventPayload::NoteOn { timing_offset: 5, channel: 6, note: 7, velocity_bits: 8 });
    let mut history = History::new();
    history.absorb(vec![a]);
    history.absorb(vec![b, c]);
    assert_eq!(history.len(), 3);
    assert_eq!(history.records(), &vec![a, b, c]);
}

#[test]
fn accumulate_with_nothing_waiting_changes_nothing() {
    let mut channel = BoundedChannel::create(4).unwrap();
    let mut history = History::new();
    assert_eq!(history.accumulate(&mut channel), 0);
    assert_eq!(history.len(), 0);
    let a = stamped(1, EventPayload::Unrecognized);
    assert_eq!(channel.push(a), Ok(()));
    assert_eq!(history.accumulate(&mut channel), 1);
    let snapshot = history.records().clone();
    assert_eq!(history.accumulate(&mut channel), 0);
    assert_eq!(history.accumulate(&mut channel), 0);
    assert_eq!(history.records(), &snapshot);
    assert_eq!(channel.push(a), Ok(()));
    assert_eq!(channel.drain_all(), vec![a]);
}

#[test]
fn history_only_grows() {
    let mut channel = BoundedChannel::create(3).unwrap();
    let mut history = History::new();
    let mut previous: Vec<EventRecord> = Vec::new();
    let mut next: u64 = 0;
    for round in 0..6usize {
        for _ in 0..(round % 4) {
            let _ = channel.push(stamped(next, EventPayload::Unrecognized));
            next += 1;
        }
        history.accumulate(&mut channel);
        let now = history.records().clone();
        assert!(now.len() >= previous.len());
        assert_eq!(&now[..previous.len()], &previous[..]);
        previous = now;
    }
    assert_eq!(history.len(), 0 + 1 + 2 + 3 + 0 + 1);
    let seconds: Vec<EventRecord> = (0..7u64).map(|i| stamped(i, EventPayload::Unrecognized)).collect();
    assert_eq!(history.records(), &seconds);
}

#[test]
fn history_outgrows_the_channel() {
    let mut channel = BoundedChannel::create(2).unwrap();
    let mut history = History::new();
    for i in 0..5u64 {
        assert_eq!(channel.push(stamped(2 * i, EventPayload::Unrecognized)), Ok(()));
        assert_eq!(channel.push(stamped(2 * i + 1, EventPayload::Unrecognized)), Ok(()));
        assert_eq!(history.accumulate(&mut channel), 2);
    }
    let expected: Vec<EventRecord> = (0..10u64).map(|i| stamped(i, EventPayload::Unrecognized)).collect();
    assert_eq!(history.records(), &expected);
}

#[test]
fn default_capacity_holds_1024_records() {
    assert_eq!(DEFAULT_CAPACITY, 1024);
    let mut channel = BoundedChannel::with_default_capacity();
    for i in 0..1024u64 {
        assert_eq!(channel.push(stamped(i, EventPayload::Unrecognized)), Ok(()));
    }
    assert!(channel.push(stamped(1024, EventPayload::Unrecognized)).is_err());
    let mut history = History::new();
    assert_eq!(history.accumulate(&mut channel), 1024);
    assert_eq!(history.records()[1023], stamped(1023, EventPayload::Unrecognized));
}
