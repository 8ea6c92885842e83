use sonyflake::id::TIME_LIMIT;
use sonyflake::sonyflake::{FIRST_SEQUENCE, INITIAL_SEQUENCE};
use sonyflake::{decode, encode, Attempt, Builder, Internals, NoCause, Parts, Sonyflake, Timestamp};
use std::collections::HashSet;

const START: Timestamp = Timestamp { secs: 1_000, nanos: 0 };

fn at_tick(tick: u64) -> Timestamp {
    Timestamp::new(1_000 + (tick / 100) as i64, (tick % 100) as u32 * 10_000_000)
}

fn generator(machine_id: u16) -> Sonyflake {
    Builder::new()
        .start_time(START)
        .machine_id(move || Ok::<u16, NoCause>(machine_id))
        .finalize_at(START)
        .unwrap()
}

fn id_of(attempt: Attempt) -> u64 {
    match attempt {
        Attempt::Id(id) => id,
        other => panic!("no identifier: {:?}", other),
    }
}

#[test]
fn sequence_policy() {
    assert_eq!(INITIAL_SEQUENCE, 128);
    assert_eq!(INITIAL_SEQUENCE, 1 << (sonyflake::id::BIT_LEN_SEQUENCE - 1));
    assert_eq!(FIRST_SEQUENCE, 0);
}

#[test]
fn a_new_generator_holds_what_it_was_given() {
    let sf = generator(42);
    assert_eq!(sf.machine_id(), 42);
    assert_eq!(sf.start_time(), 100_000);
    assert_eq!(sf.internals(), Internals { elapsed_time: 0, sequence: 128 });
}

#[test]
fn tick_zero_starts_after_the_initial_sequence() {
    let mut sf = generator(42);
    let id = id_of(sf.next_id_at(at_tick(0)));
    assert_eq!(id, encode(0, 129, 42));
    assert_eq!(decode(id), Parts { elapsed: 0, sequence: 129, machine_id: 42 });
    assert_eq!(sf.internals(), Internals { elapsed_time: 0, sequence: 129 });
}

#[test]
fn a_new_tick_starts_at_the_first_sequence() {
    let mut sf = generator(42);
    let id = id_of(sf.next_id_at(at_tick(7)));
    assert_eq!(id, (7 << 24) | 42);
    assert_eq!(sf.internals(), Internals { elapsed_time: 7, sequence: 0 });
    let id = id_of(sf.next_id_at(at_tick(9)));
    assert_eq!(id, (9 << 24) | 42);
    assert_eq!(sf.internals(), Internals { elapsed_time: 9, sequence: 0 });
}

#[test]
fn the_same_tick_counts_up() {
    let mut sf = generator(0x2525);
    assert_eq!(id_of(sf.next_id_at(at_tick(3))), encode(3, 0, 0x2525));
    assert_eq!(id_of(sf.next_id_at(at_tick(3))), encode(3, 1, 0x2525));
    assert_eq!(id_of(sf.next_id_at(at_tick(3))), encode(3, 2, 0x2525));
    assert_eq!(sf.internals(), Internals { elapsed_time: 3, sequence: 2 });
}

#[test]
fn a_clock_that_goes_back_keeps_the_tick() {
    let mut sf = generator(1);
    assert_eq!(id_of(sf.next_id_at(at_tick(50))), encode(50, 0, 1));
    assert_eq!(id_of(sf.next_id_at(at_tick(20))), encode(50, 1, 1));
    assert_eq!(id_of(sf.next_id_at(Timestamp::new(0, 0))), encode(50, 2, 1));
    assert_eq!(id_of(sf.next_id_at(at_tick(50))), encode(50, 3, 1));
    assert_eq!(id_of(sf.next_id_at(at_tick(51))), encode(51, 0, 1));
}

#[test]
fn a_used_up_tick_waits_for_the_next() {
    let mut sf = generator(9);
    let now = Timestamp::new(1_000, 52_000_000);
    for sequence in 0..=255u8 {
        assert_eq!(id_of(sf.next_id_at(now)), encode(5, sequence, 9));
    }
    assert_eq!(sf.internals(), Internals { elapsed_time: 5, sequence: 255 });
    assert_eq!(sf.next_id_at(now), Attempt::Wait(8_000_000));
    assert_eq!(sf.internals(), Internals { elapsed_time: 5, sequence: 255 });
    assert_eq!(sf.next_id_at(at_tick(5)), Attempt::Wait(10_000_000));
    assert_eq!(sf.next_id_at(at_tick(2)), Attempt::Wait(40_000_000));
    assert_eq!(sf.internals(), Internals { elapsed_time: 5, sequence: 255 });
    let later = Timestamp::new(1_000, 52_000_000 + 8_000_000);
    assert_eq!(id_of(sf.next_id_at(later)), encode(6, 0, 9));
}

#[test]
fn tick_zero_is_used_up_after_127_identifiers() {
    let mut sf = generator(9);
    for sequence in 129..=255u8 {
        assert_eq!(id_of(sf.next_id_at(START)), encode(0, sequence, 9));
    }
    assert_eq!(sf.next_id_at(START), Attempt::Wait(10_000_000));
    assert_eq!(id_of(sf.next_id_at(at_tick(1))), encode(1, 0, 9));
}

#[test]
fn a_wait_does_not_assume_one_tick() {
    let mut sf = generator(9);
    for _ in 0..=255u8 {
        id_of(sf.next_id_at(at_tick(5)));
    }
    assert_eq!(sf.next_id_at(at_tick(5)), Attempt::Wait(10_000_000));
    assert_eq!(id_of(sf.next_id_at(at_tick(8))), encode(8, 0, 9));
}

#[test]
fn back_to_back_calls_within_one_tick_wait_once_and_repeat_nothing() {
    let mut sf = generator(3);
    let mut seen = HashSet::new();
    let mut waits = 0;
    for _ in 0..257 {
        match sf.next_id_at(at_tick(12)) {
            Attempt::Id(id) => {
                assert!(seen.insert(id));
                assert_eq!(decode(id).elapsed, 12);
                assert_eq!(decode(id).machine_id, 3);
            }
            Attempt::Wait(_) => waits += 1,
            Attempt::OverTimeLimit => panic!("time limit"),
        }
    }
    assert_eq!(seen.len(), 256);
    assert_eq!(waits, 1);
}

#[test]
fn the_last_tick_still_gives_identifiers() {
    let mut sf = generator(65535);
    let id = id_of(sf.next_id_at(at_tick(TIME_LIMIT - 1)));
    assert_eq!(id, encode(TIME_LIMIT - 1, 0, 65535));
    assert_eq!(id >> 63, 0);
    assert_eq!(id_of(sf.next_id_at(at_tick(TIME_LIMIT - 1))), encode(TIME_LIMIT - 1, 1, 65535));
}

#[test]
fn past_the_time_limit_every_attempt_fails() {
    let mut sf = generator(1);
    assert_eq!(id_of(sf.next_id_at(at_tick(10))), encode(10, 0, 1));
    assert_eq!(sf.next_id_at(at_tick(TIME_LIMIT)), Attempt::OverTimeLimit);
    assert_eq!(sf.internals(), Internals { elapsed_time: TIME_LIMIT, sequence: 0 });
    assert_eq!(sf.next_id_at(at_tick(TIME_LIMIT)), Attempt::OverTimeLimit);
    assert_eq!(sf.next_id_at(at_tick(11)), Attempt::OverTimeLimit);
    assert_eq!(sf.next_id_at(at_tick(TIME_LIMIT + 5)), Attempt::OverTimeLimit);
    assert_eq!(sf.next_id_at(Timestamp::new(0, 0)), Attempt::OverTimeLimit);
    assert_eq!(sf.internals(), Internals { elapsed_time: TIME_LIMIT + 5, sequence: 0 });
}

#[test]
fn a_used_up_last_tick_waits_and_then_fails() {
    let mut sf = generator(1);
    for _ in 0..=255u8 {
        id_of(sf.next_id_at(at_tick(TIME_LIMIT - 1)));
    }
    assert_eq!(sf.next_id_at(at_tick(TIME_LIMIT - 1)), Attempt::Wait(10_000_000));
    assert_eq!(sf.next_id_at(at_tick(TIME_LIMIT)), Attempt::OverTimeLimit);
}

#[test]
fn a_clock_before_the_start_reads_zero() {
    let mut sf = generator(4);
    assert_eq!(id_of(sf.next_id_at(Timestamp::new(999, 999_999_999))), encode(0, 129, 4));
    assert_eq!(id_of(sf.next_id_at(Timestamp::new(-5, 0))), encode(0, 130, 4));
}

#[test]
fn identifiers_grow_over_a_wandering_clock() {
    let mut sf = generator(77);
    let ticks = [0u64, 0, 3, 3, 2, 3, 10, 9, 8, 10, 11, 11, 400, 1, 400, 401, 1 << 30, 5, 1 << 38];
    let mut last: Option<u64> = None;
    let mut seen = HashSet::new();
    for round in 0..40 {
        for &tick in ticks.iter() {
            if let Attempt::Id(id) = sf.next_id_at(at_tick(tick + round)) {
                if let Some(last) = last {
                    assert!(last < id);
                    let (a, b) = (decode(last), decode(id));
                    assert!(a.elapsed < b.elapsed || (a.elapsed == b.elapsed && a.sequence < b.sequence));
                }
                assert_eq!(decode(id).machine_id, 77);
                assert!(seen.insert(id));
                last = Some(id);
            }
        }
    }
    assert!(seen.len() > 256);
}

#[test]
fn generators_of_two_machines_never_agree() {
    let mut a = generator(1);
    let mut b = generator(2);
    let mut seen = HashSet::new();
    for tick in 0..50u64 {
        for _ in 0..20 {
            assert!(seen.insert(id_of(a.next_id_at(at_tick(tick)))));
            assert!(seen.insert(id_of(b.next_id_at(at_tick(tick)))));
        }
    }
    assert_eq!(seen.len(), 2_000);
}

#[test]
fn next_id_reads_the_clock() {
    let mut sf = Builder::new()
        .start_time(Timestamp::new(1_409_529_600, 0))
        .machine_id(|| Ok::<u16, NoCause>(42))
        .finalize()
        .unwrap();
    let before = sf.now_units();
    let id = id_of(sf.next_id());
    let after = sf.now_units();
    let parts = decode(id);
    assert_eq!(parts.machine_id, 42);
    assert_eq!(parts.sequence, 0);
    assert!(before <= parts.elapsed && parts.elapsed <= after);
    assert!(before > 0);
}

#[test]
fn next_id_never_repeats() {
    let mut sf = Sonyflake::new().unwrap();
    let mut seen = HashSet::new();
    let mut last = 0u64;
    let mut waits = 0u32;
    while seen.len() < 2_000 {
        match sf.next_id() {
            Attempt::Id(id) => {
                assert!(last < id);
                assert!(seen.insert(id));
                assert_eq!(decode(id).machine_id, 65535);
                last = id;
            }
            Attempt::Wait(nanos) => {
                assert!(0 < nanos && nanos <= 10_000_000);
                waits += 1;
            }
            Attempt::OverTimeLimit => panic!("time limit"),
        }
    }
    assert!(waits >= 1);
}
