use stm32_shell::sample_channel::{producer_step, SampleChannel, SAMPLE_CAPACITY, SAMPLE_INTERVAL_MS};

#[test]
fn new_channel_is_empty() {
    let mut ch = SampleChannel::new();
    assert_eq!(ch.len(), 0);
    assert_eq!(ch.take(), None);
}

#[test]
fn capacity_is_ten() {
    assert_eq!(SAMPLE_CAPACITY, 10);
}

#[test]
fn samples_come_out_in_order() {
    let mut ch = SampleChannel::new();
    ch.publish(300);
    ch.publish(100);
    ch.publish(200);
    assert_eq!(ch.len(), 3);
    assert_eq!(ch.take(), Some(300));
    assert_eq!(ch.take(), Some(100));
    assert_eq!(ch.len(), 1);
    assert_eq!(ch.take(), Some(200));
    assert_eq!(ch.take(), None);
    assert_eq!(ch.len(), 0);
}

#[test]
fn eleventh_sample_is_dropped() {
    let mut ch = SampleChannel::new();
    for sample in 1..=11u16 {
        ch.publish(sample * 100);
    }
    assert_eq!(ch.len(), 10);
    for sample in 1..=10u16 {
        assert_eq!(ch.take(), Some(sample * 100));
    }
    assert_eq!(ch.take(), None);
}

#[test]
fn draining_makes_room_again() {
    let mut ch = SampleChannel::new();
    for sample in 0..10u16 {
        ch.publish(sample);
    }
    ch.publish(99);
    assert_eq!(ch.take(), Some(0));
    ch.publish(10);
    assert_eq!(ch.len(), 10);
    for sample in 1..=10u16 {
        assert_eq!(ch.take(), Some(sample));
    }
    assert_eq!(ch.take(), None);
}

#[test]
fn producer_publishes_and_waits_half_a_second() {
    let mut ch = SampleChannel::new();
    assert_eq!(SAMPLE_INTERVAL_MS, 500);
    assert_eq!(producer_step(&mut ch, 4095), 500);
    assert_eq!(producer_step(&mut ch, 0), 500);
    assert_eq!(ch.len(), 2);
    assert_eq!(ch.take(), Some(4095));
    assert_eq!(ch.take(), Some(0));
}

#[test]
fn producer_is_not_held_up_by_a_full_queue() {
    let mut ch = SampleChannel::new();
    for sample in 0..25u16 {
        assert_eq!(producer_step(&mut ch, sample), 500);
    }
    assert_eq!(ch.len(), 10);
    assert_eq!(ch.take(), Some(0));
}
