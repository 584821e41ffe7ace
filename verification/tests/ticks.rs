use mirai::aligner::{Aligner, Step};
use mirai::cascade::{Observation, NANOS_PER_SECOND};
use mirai::clock::LocalInstant;
use mirai::runner::{ScheduledTaskRunner, Turn};
use mirai::target::TargetMoment;
use mirai::ticks::{AlignedOk, PeriodicScheduler, TickSource};

fn aligned_at(now: u64) -> AlignedOk {
    let target = TargetMoment::new(7, 0, 17, 2024).unwrap();
    let local = LocalInstant::new(2024, 5, 17, 5, 0, 0).unwrap();
    let mut aligner = Aligner::new(target, None);
    for _ in 0..4 {
        assert_eq!(aligner.observe(&Observation { running: true, now, local }), Step::Observe);
    }
    assert_eq!(
        aligner.observe(&Observation { running: true, now, local }),
        Step::Aligned { at: now }
    );
    aligner.result().unwrap().unwrap()
}

#[test]
fn five_ticks_of_ten_seconds_take_forty_seconds_whatever_the_payload_takes() {
    let period = 10 * NANOS_PER_SECOND;
    let payload = 3 * NANOS_PER_SECOND;
    let start = 1_234;
    let ticks = PeriodicScheduler::start(aligned_at(start), Some(period));
    let mut runner = ScheduledTaskRunner::new(ticks);
    let mut now = start;
    let mut fired = Vec::new();
    for _ in 0..5 {
        fired.push(now);
        match runner.turn(true) {
            Turn::Invoke { then_sleep_until } => {
                now += payload;
                now = now.max(then_sleep_until);
            }
            Turn::Stop => panic!("the task is running"),
        }
    }
    assert_eq!(fired, vec![start, start + period, start + 2 * period, start + 3 * period, start + 4 * period]);
    assert_eq!(fired[4] - fired[0], 40 * NANOS_PER_SECOND);
    for pair in fired.windows(2) {
        assert_eq!(pair[1] - pair[0], 10 * NANOS_PER_SECOND);
    }
}

#[test]
fn a_payload_longer_than_the_period_does_not_move_the_ticks() {
    let mut ticks = PeriodicScheduler::start(aligned_at(0), Some(10));
    assert_eq!(ticks.next_deadline(), 10);
    assert_eq!(ticks.tick(), 10);
    assert_eq!(ticks.tick(), 20);
    assert_eq!(ticks.tick(), 30);
    assert_eq!(ticks.next_deadline(), 40);
    assert_eq!(ticks.period(), 10);
}

#[test]
fn without_a_period_every_tick_falls_on_the_alignment() {
    let mut ticks = PeriodicScheduler::start(aligned_at(77), None);
    assert_eq!(ticks.period(), 0);
    assert_eq!(ticks.tick(), 77);
    assert_eq!(ticks.tick(), 77);
    assert_eq!(ticks.next_deadline(), 77);
}

#[test]
fn ticks_are_held_at_the_end_of_the_clock() {
    let mut ticks = TickSource::anchored(u64::MAX - 15, 10);
    assert_eq!(ticks.tick(), u64::MAX - 15);
    assert_eq!(ticks.tick(), u64::MAX - 5);
    assert_eq!(ticks.tick(), u64::MAX);
    assert_eq!(ticks.tick(), u64::MAX);
}

#[test]
fn the_runner_stops_when_the_flag_is_cleared_and_leaves_the_ticks() {
    let mut runner = ScheduledTaskRunner::new(TickSource::anchored(100, 50));
    assert_eq!(runner.turn(true), Turn::Invoke { then_sleep_until: 100 });
    assert_eq!(runner.turn(true), Turn::Invoke { then_sleep_until: 150 });
    assert_eq!(runner.turn(false), Turn::Stop);
    assert_eq!(runner.turn(false), Turn::Stop);
    assert_eq!(runner.turn(true), Turn::Invoke { then_sleep_until: 200 });
}
