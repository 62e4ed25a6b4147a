use mqtt_shell::fanout::{Delivery, FanOut, OUTPUT_CAPACITY, STATUS_CAPACITY};

fn drain(fan: &FanOut, sub: &mut mqtt_shell::fanout::Subscription) -> Vec<Vec<u8>> {
    let mut got = Vec::new();
    while let Delivery::Frame(frame) = fan.poll(sub) {
        got.push(frame);
    }
    got
}

#[test]
fn fanout_capacities_are_one_thousand_and_ten() {
    assert_eq!(OUTPUT_CAPACITY, 1000);
    assert_eq!(STATUS_CAPACITY, 10);
    assert_eq!(FanOut::new(OUTPUT_CAPACITY).capacity(), 1000);
}

#[test]
fn fanout_starts_empty_and_open() {
    let fan = FanOut::new(4);
    assert_eq!(fan.len(), 0);
    assert_eq!(fan.published(), 0);
    assert!(!fan.is_closed());
}

#[test]
fn fanout_raises_a_zero_capacity_to_one() {
    let mut fan = FanOut::new(0);
    assert_eq!(fan.capacity(), 1);
    let mut sub = fan.subscribe();
    fan.publish(vec![1]);
    assert_eq!(fan.poll(&mut sub), Delivery::Frame(vec![1]));
}

#[test]
fn fanout_delivers_frames_in_the_order_published() {
    let mut fan = FanOut::new(8);
    let mut sub = fan.subscribe();
    fan.publish(b"one".to_vec());
    fan.publish(b"two".to_vec());
    fan.publish(Vec::new());
    fan.publish(b"three".to_vec());
    assert_eq!(fan.poll(&mut sub), Delivery::Frame(b"one".to_vec()));
    assert_eq!(fan.poll(&mut sub), Delivery::Frame(b"two".to_vec()));
    assert_eq!(fan.poll(&mut sub), Delivery::Frame(Vec::new()));
    assert_eq!(fan.poll(&mut sub), Delivery::Frame(b"three".to_vec()));
    assert_eq!(fan.poll(&mut sub), Delivery::Pending);
    assert!(!sub.has_ended());
}

#[test]
fn fanout_pending_does_not_end_a_subscription() {
    let mut fan = FanOut::new(2);
    let mut sub = fan.subscribe();
    assert_eq!(fan.poll(&mut sub), Delivery::Pending);
    assert_eq!(fan.poll(&mut sub), Delivery::Pending);
    fan.publish(vec![9]);
    assert_eq!(fan.poll(&mut sub), Delivery::Frame(vec![9]));
}

#[test]
fn fanout_subscriber_sees_only_what_comes_after_it() {
    let mut fan = FanOut::new(8);
    fan.publish(b"before".to_vec());
    fan.publish(b"also before".to_vec());
    let mut sub = fan.subscribe();
    assert_eq!(fan.poll(&mut sub), Delivery::Pending);
    fan.publish(b"after".to_vec());
    assert_eq!(drain(&fan, &mut sub), vec![b"after".to_vec()]);
}

#[test]
fn fanout_serves_every_subscriber_the_same_frames() {
    let mut fan = FanOut::new(8);
    let mut a = fan.subscribe();
    fan.publish(vec![1]);
    let mut b = fan.subscribe();
    fan.publish(vec![2]);
    fan.publish(vec![3]);
    assert_eq!(drain(&fan, &mut a), vec![vec![1], vec![2], vec![3]]);
    assert_eq!(drain(&fan, &mut b), vec![vec![2], vec![3]]);
    assert_eq!(drain(&fan, &mut a), Vec::<Vec<u8>>::new());
}

#[test]
fn fanout_keeps_no_more_than_its_capacity() {
    let mut fan = FanOut::new(3);
    for i in 0..10u8 {
        fan.publish(vec![i]);
        assert!(fan.len() <= 3);
    }
    assert_eq!(fan.len(), 3);
    assert_eq!(fan.published(), 10);
}

#[test]
fn fanout_producer_is_never_held_up_without_consumers() {
    let mut fan = FanOut::new(OUTPUT_CAPACITY);
    for i in 0..2500u32 {
        fan.publish(i.to_be_bytes().to_vec());
    }
    assert_eq!(fan.len(), 1000);
    assert_eq!(fan.published(), 2500);
}

#[test]
fn fanout_a_subscriber_that_keeps_up_with_a_full_buffer_loses_nothing() {
    let mut fan = FanOut::new(2);
    let mut sub = fan.subscribe();
    let mut got = Vec::new();
    for i in 0..20u8 {
        fan.publish(vec![i]);
        if i % 2 == 1 {
            got.extend(drain(&fan, &mut sub));
        }
    }
    let want: Vec<Vec<u8>> = (0..20u8).map(|i| vec![i]).collect();
    assert_eq!(got, want);
}

#[test]
fn fanout_exactly_capacity_behind_is_still_served() {
    let mut fan = FanOut::new(3);
    let mut sub = fan.subscribe();
    fan.publish(vec![1]);
    fan.publish(vec![2]);
    fan.publish(vec![3]);
    assert_eq!(drain(&fan, &mut sub), vec![vec![1], vec![2], vec![3]]);
}

#[test]
fn fanout_a_subscriber_that_fell_behind_is_ended() {
    let mut fan = FanOut::new(3);
    let mut sub = fan.subscribe();
    for i in 0..4u8 {
        fan.publish(vec![i]);
    }
    assert_eq!(fan.poll(&mut sub), Delivery::Ended);
    assert!(sub.has_ended());
    fan.publish(vec![9]);
    assert_eq!(fan.poll(&mut sub), Delivery::Ended);
}

#[test]
fn fanout_never_delivers_across_a_gap() {
    let mut fan = FanOut::new(2);
    let mut sub = fan.subscribe();
    fan.publish(vec![0]);
    assert_eq!(fan.poll(&mut sub), Delivery::Frame(vec![0]));
    fan.publish(vec![1]);
    fan.publish(vec![2]);
    fan.publish(vec![3]);
    assert_eq!(fan.poll(&mut sub), Delivery::Ended);
    assert_eq!(fan.poll(&mut sub), Delivery::Ended);
}

#[test]
fn fanout_one_slow_subscriber_does_not_disturb_another() {
    let mut fan = FanOut::new(2);
    let mut slow = fan.subscribe();
    let mut quick = fan.subscribe();
    let mut got = Vec::new();
    for i in 0..6u8 {
        fan.publish(vec![i]);
        got.extend(drain(&fan, &mut quick));
    }
    assert_eq!(got.len(), 6);
    assert_eq!(fan.poll(&mut slow), Delivery::Ended);
    assert_eq!(fan.poll(&mut quick), Delivery::Pending);
}

#[test]
fn fanout_close_ends_subscribers_after_what_is_retained() {
    let mut fan = FanOut::new(4);
    let mut sub = fan.subscribe();
    fan.publish(vec![1]);
    fan.publish(vec![2]);
    fan.close();
    assert!(fan.is_closed());
    assert_eq!(fan.poll(&mut sub), Delivery::Frame(vec![1]));
    assert_eq!(fan.poll(&mut sub), Delivery::Frame(vec![2]));
    assert_eq!(fan.poll(&mut sub), Delivery::Ended);
    assert!(sub.has_ended());
}

#[test]
fn fanout_cancel_ends_a_subscription() {
    let mut fan = FanOut::new(4);
    let mut sub = fan.subscribe();
    fan.publish(vec![1]);
    sub.cancel();
    assert!(sub.has_ended());
    assert_eq!(fan.poll(&mut sub), Delivery::Ended);
}

#[test]
fn fanout_delivered_bytes_are_a_contiguous_part_of_the_output() {
    let mut fan = FanOut::new(4);
    let mut all = Vec::new();
    let mut got = Vec::new();
    for i in 0..3u8 {
        let frame = vec![i; (i as usize) + 1];
        all.extend_from_slice(&frame);
        fan.publish(frame);
    }
    let mut sub = fan.subscribe();
    for i in 3..9u8 {
        let frame = vec![i; (i as usize % 3) + 1];
        all.extend_from_slice(&frame);
        fan.publish(frame);
        if i % 2 == 0 {
            for frame in drain(&fan, &mut sub) {
                got.extend_from_slice(&frame);
            }
        }
    }
    assert!(!got.is_empty());
    let at = all.windows(got.len()).position(|w| w == &got[..]);
    assert_eq!(at, Some(6));
}
