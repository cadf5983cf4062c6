use fbspinner::playback::{
    end_of_tick, next_frame, sleep_after, Tick, FRAME_INTERVAL_MS, FRAME_INTERVAL_NS,
};

#[test]
fn interval_is_a_thirtieth_of_a_second() {
    assert_eq!(FRAME_INTERVAL_MS, 33);
    assert_eq!(FRAME_INTERVAL_NS, 33_000_000);
}

#[test]
fn sleep_fills_the_interval() {
    assert_eq!(sleep_after(1_000, 1_000), 33_000_000);
    assert_eq!(sleep_after(1_000, 1_000 + 10_000_000), 23_000_000);
    assert_eq!(sleep_after(0, 33_000_000), 0);
    assert_eq!(sleep_after(0, 50_000_000), 0);
}

#[test]
fn tick_stops_on_a_value() {
    assert_eq!(end_of_tick(Some(7), 0, 5), Tick::Stop(7));
    assert_eq!(end_of_tick(None::<u8>, 0, 3_000_000), Tick::Sleep(30_000_000));
    assert_eq!(end_of_tick(None::<u8>, 0, 40_000_000), Tick::Sleep(0));
}

#[test]
fn paced_ticks_start_an_interval_apart() {
    // work of 5 ms, 50 ms, 0 ms
    let work = [5_000_000u64, 50_000_000, 0];
    let mut start = 0u64;
    let mut starts = vec![start];
    for w in work {
        let end = start + w;
        match end_of_tick(None::<()>, start, end) {
            Tick::Sleep(s) => start = end + s,
            Tick::Stop(_) => unreachable!(),
        }
        starts.push(start);
    }
    assert_eq!(starts, vec![0, 33_000_000, 83_000_000, 116_000_000]);
    for (k, s) in starts.iter().enumerate() {
        assert!(*s >= k as u64 * FRAME_INTERVAL_NS);
    }
}

#[test]
fn frames_loop_around() {
    assert_eq!(next_frame(0, 3), 1);
    assert_eq!(next_frame(1, 3), 2);
    assert_eq!(next_frame(2, 3), 0);
    assert_eq!(next_frame(0, 1), 0);
}
