use midimon::adapter::{outcome_of_push, send_cycle, send_event, CycleReport, Disposition};
use midimon::channel::{BoundedChannel, Empty, Full};
use midimon::event::{EventPayload, EventRecord};
use midimon::history::History;
use std::time::{Duration, SystemTime};

fn at(seconds: u64, payload: EventPayload) -> EventRecord {
    EventRecord::new(SystemTime::UNIX_EPOCH + Duration::from_secs(seconds), payload)
}

fn key_down(offset: u32, note: u8) -> EventPayload {
    EventPayload::NoteOn { timing_offset: offset, channel: 2, note, velocity_bits: 0.75f32.to_bits() }
}

fn key_up(offset: u32, note: u8) -> EventPayload {
    EventPayload::NoteOff { timing_offset: offset, channel: 2, note, velocity_bits: 0 }
}

fn payloads_in(records: &[EventRecord]) -> Vec<EventPayload> {
    records.iter().map(|r| r.payload).collect()
}

#[test]
fn split_keeps_what_waited_in_order() {
    let mut channel = BoundedChannel::create(4).unwrap();
    let a = at(1, key_down(0, 60));
    let b = at(2, key_up(5, 60));
    let c = at(3, key_down(9, 62));
    assert_eq!(channel.push(a), Ok(()));
    assert_eq!(channel.push(b), Ok(()));
    let (mut producer, mut consumer) = channel.split();
    assert_eq!(consumer.pop(), Ok(a));
    assert_eq!(producer.push(c), Ok(()));
    assert_eq!(consumer.drain_all(), vec![b, c]);
    assert_eq!(consumer.pop(), Err(Empty));
}

#[test]
fn handle_push_on_full_channel_hands_the_record_back() {
    let (mut producer, mut consumer) = BoundedChannel::create(1).unwrap().split();
    let a = at(1, key_down(0, 1));
    let b = at(2, key_down(1, 2));
    assert_eq!(producer.push(a), Ok(()));
    assert_eq!(producer.push(b), Err(Full { item: b }));
    assert_eq!(consumer.pop(), Ok(a));
    assert_eq!(producer.push(b), Ok(()));
    assert_eq!(consumer.pop(), Ok(b));
    assert_eq!(consumer.pop(), Err(Empty));
}

#[test]
fn handle_drain_returns_everything_waiting() {
    let (mut producer, mut consumer) = BoundedChannel::create(3).unwrap().split();
    assert_eq!(consumer.drain_all(), Vec::<EventRecord>::new());
    let sent: Vec<EventRecord> = (0..3u64).map(|i| at(i, key_up(i as u32, i as u8))).collect();
    for r in sent.iter() {
        assert_eq!(producer.push(*r), Ok(()));
    }
    assert!(producer.push(at(9, EventPayload::Unrecognized)).is_err());
    assert_eq!(consumer.drain_all(), sent);
    assert_eq!(consumer.drain_all(), Vec::<EventRecord>::new());
}

#[test]
fn handles_work_from_two_owners() {
    let (mut producer, mut consumer) = BoundedChannel::create(2).unwrap().split();
    let mut history = History::new();
    let mut expected: Vec<EventRecord> = Vec::new();
    for round in 0..20u64 {
        let r = at(round, key_down(round as u32, (round % 128) as u8));
        assert_eq!(producer.push(r), Ok(()));
        expected.push(r);
        if round % 2 == 1 {
            assert_eq!(history.accumulate_from(&mut consumer), 2);
        }
    }
    assert_eq!(history.records(), &expected);
}

#[test]
fn outcome_follows_the_push() {
    assert_eq!(outcome_of_push(&Ok(())), Disposition::Forwarded);
    let full = Full { item: at(0, EventPayload::Unrecognized) };
    assert_eq!(outcome_of_push(&Err(full)), Disposition::Dropped);
}

#[test]
fn send_event_stamps_and_enqueues_a_note() {
    let (mut producer, mut consumer) = BoundedChannel::create(1).unwrap().split();
    assert_eq!(send_event(&mut producer, key_down(3, 60)), Disposition::Forwarded);
    assert_eq!(send_event(&mut producer, key_up(4, 60)), Disposition::Dropped);
    assert_eq!(send_event(&mut producer, EventPayload::Unrecognized), Disposition::Ignored);
    let got = consumer.pop().unwrap();
    assert_eq!(got.payload, key_down(3, 60));
    assert!(got.captured_at > SystemTime::UNIX_EPOCH);
    assert_eq!(consumer.pop(), Err(Empty));
}

#[test]
fn send_cycle_counts_every_note() {
    let (mut producer, mut consumer) = BoundedChannel::create(2).unwrap().split();
    let inbound = vec![key_down(0, 1), EventPayload::Unrecognized, key_down(1, 2), key_up(2, 1), key_up(3, 2)];
    assert_eq!(send_cycle(&mut producer, &inbound), CycleReport { forwarded: 2, dropped: 2 });
    assert_eq!(payloads_in(&consumer.drain_all()), vec![key_down(0, 1), key_down(1, 2)]);
    assert_eq!(send_cycle(&mut producer, &inbound), CycleReport { forwarded: 2, dropped: 2 });
    assert_eq!(send_cycle(&mut producer, &Vec::new()), CycleReport { forwarded: 0, dropped: 0 });
    assert_eq!(send_cycle(&mut producer, &inbound), CycleReport { forwarded: 0, dropped: 4 });
    assert_eq!(payloads_in(&consumer.drain_all()), vec![key_down(0, 1), key_down(1, 2)]);
}

#[test]
fn accumulate_from_appends_and_keeps_the_start() {
    let (mut producer, mut consumer) = BoundedChannel::create(4).unwrap().split();
    let mut history = History::new();
    assert_eq!(history.accumulate_from(&mut consumer), 0);
    assert_eq!(history.len(), 0);
    let a = at(1, key_down(0, 60));
    let b = at(5, key_up(87, 60));
    assert_eq!(producer.push(a), Ok(()));
    assert_eq!(history.accumulate_from(&mut consumer), 1);
    assert_eq!(history.records(), &vec![a]);
    assert_eq!(history.accumulate_from(&mut consumer), 0);
    assert_eq!(history.records(), &vec![a]);
    assert_eq!(producer.push(b), Ok(()));
    assert_eq!(history.accumulate_from(&mut consumer), 1);
    assert_eq!(history.records(), &vec![a, b]);
}
