use m_browser::pump::{pump_step, PumpStep, TICK_INTERVAL_MS};

#[test]
fn tick_interval_is_sixteen_milliseconds() {
    assert_eq!(TICK_INTERVAL_MS, 16);
}

#[test]
fn pump_ticks_while_no_stop_is_signalled() {
    assert_eq!(pump_step(false), PumpStep::Tick { sleep_ms: 16 });
}

#[test]
fn pump_exits_on_stop() {
    assert_eq!(pump_step(true), PumpStep::Exit);
}

/// Runs the pump loop against a stop that is sent after `polls_before_stop`
/// looks at the channel, either before or after the tick of that round.
/// Returns the ticks signalled after the stop was sent.
fn late_ticks(polls_before_stop: u32, stop_before_tick: bool) -> u32 {
    let mut stop_sent = false;
    let mut late = 0;
    let mut polls = 0;
    loop {
        if polls == polls_before_stop && polls_before_stop == 0 {
            stop_sent = true;
        }
        let seen = stop_sent;
        polls += 1;
        match pump_step(seen) {
            PumpStep::Exit => return late,
            PumpStep::Tick { sleep_ms } => {
                assert_eq!(sleep_ms, 16);
                if polls == polls_before_stop && stop_before_tick {
                    stop_sent = true;
                }
                if stop_sent {
                    late += 1;
                }
                if polls == polls_before_stop {
                    stop_sent = true;
                }
            }
        }
        assert!(polls < 1000);
    }
}

#[test]
fn at_most_one_tick_follows_a_stop() {
    assert_eq!(late_ticks(0, false), 0);
    assert_eq!(late_ticks(1, false), 0);
    assert_eq!(late_ticks(1, true), 1);
    assert_eq!(late_ticks(5, false), 0);
    assert_eq!(late_ticks(5, true), 1);
    for polls in 0..50 {
        assert!(late_ticks(polls, true) <= 1);
        assert!(late_ticks(polls, false) <= 1);
    }
}
