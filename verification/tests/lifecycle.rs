use drummond::lifecycle::{Lifecycle, Step, POLL_INTERVAL_MS};

#[test]
fn the_flag_is_polled_every_100_milliseconds() {
    assert_eq!(POLL_INTERVAL_MS, 100);
}

#[test]
fn a_new_lifecycle_is_running() {
    let lifecycle = Lifecycle::new();
    assert!(!lifecycle.is_closed());
}

#[test]
fn while_the_flag_holds_the_loop_waits() {
    let mut lifecycle = Lifecycle::new();
    for _ in 0..1000 {
        assert_eq!(lifecycle.poll(true), Step::Wait { millis: 100 });
        assert!(!lifecycle.is_closed());
    }
}

#[test]
fn shutdown_closes_once_within_one_poll() {
    let readings: [bool; 8] = [true, true, true, false, false, false, false, false];
    let mut lifecycle = Lifecycle::new();
    let mut closes: u32 = 0;
    let mut waits_after_stop: u32 = 0;
    let mut polls_until_exit: usize = 0;
    for (n, running) in readings.iter().enumerate() {
        match lifecycle.poll(*running) {
            Step::Wait { millis } => {
                assert_eq!(millis, POLL_INTERVAL_MS);
                if !*running {
                    waits_after_stop += 1;
                }
            }
            Step::Close => {
                closes += 1;
                assert_eq!(n, 3);
            }
            Step::Exit => {
                polls_until_exit = n;
                break;
            }
        }
    }
    assert_eq!(closes, 1);
    assert_eq!(waits_after_stop, 0);
    assert_eq!(polls_until_exit, 4);
    assert!(lifecycle.is_closed());
}

#[test]
fn a_stop_on_the_first_reading_closes_at_once() {
    let mut lifecycle = Lifecycle::new();
    assert_eq!(lifecycle.poll(false), Step::Close);
    assert!(lifecycle.is_closed());
    assert_eq!(lifecycle.poll(false), Step::Exit);
}

#[test]
fn after_the_close_every_poll_exits() {
    let mut lifecycle = Lifecycle::new();
    assert_eq!(lifecycle.poll(true), Step::Wait { millis: 100 });
    assert_eq!(lifecycle.poll(false), Step::Close);
    for running in [false, true, true, false, true] {
        assert_eq!(lifecycle.poll(running), Step::Exit);
        assert!(lifecycle.is_closed());
    }
}
