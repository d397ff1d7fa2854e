use sshn::text::{decimal, joined, signed_decimal};
use sshn::webdriver::{
    driver_command, session_url, LaunchAction, LaunchEvent, LaunchFailure, LaunchState, WebDriver,
    DRIVER_HOST, MAX_ATTEMPTS, RETRY_DELAY_SECONDS,
};

#[test]
fn decimal_of_small_and_large_ports() {
    assert_eq!(decimal(0), "0");
    assert_eq!(decimal(7), "7");
    assert_eq!(decimal(9), "9");
    assert_eq!(decimal(10), "10");
    assert_eq!(decimal(99), "99");
    assert_eq!(decimal(100), "100");
    assert_eq!(decimal(4444), "4444");
    assert_eq!(decimal(9515), "9515");
    assert_eq!(decimal(10_000), "10000");
    assert_eq!(decimal(65_535), "65535");
}

#[test]
fn decimal_agrees_with_the_standard_rendering() {
    let mut port: u16 = 0;
    loop {
        assert_eq!(decimal(port as u64), port.to_string());
        if port >= u16::MAX - 37 {
            break;
        }
        port += 37;
    }
    for number in [u64::MAX, u64::MAX - 1, 1 << 63, 1_000_000_007, 18_446_744_073_709_551_610] {
        assert_eq!(decimal(number), number.to_string());
    }
}

#[test]
fn signed_decimal_carries_the_sign() {
    assert_eq!(signed_decimal(0), "0");
    assert_eq!(signed_decimal(5), "5");
    assert_eq!(signed_decimal(-5), "-5");
    assert_eq!(signed_decimal(-10), "-10");
    assert_eq!(signed_decimal(123_456), "123456");
    assert_eq!(signed_decimal(i64::MAX), "9223372036854775807");
    assert_eq!(signed_decimal(i64::MIN), "-9223372036854775808");
    assert_eq!(signed_decimal(i64::MIN + 1), "-9223372036854775807");
    for number in [-1i64, -9, -99, -100, 42, 1_000, -1_000_000_007] {
        assert_eq!(signed_decimal(number), number.to_string());
    }
}

#[test]
fn joined_appends() {
    assert_eq!(joined("", ""), "");
    assert_eq!(joined("a", ""), "a");
    assert_eq!(joined("", "b"), "b");
    assert_eq!(joined("--port=", "4444"), "--port=4444");
}

#[test]
fn command_for_chromium() {
    let command = driver_command(WebDriver::Chromium, 4444);
    assert_eq!(command.program, "chromedriver");
    assert_eq!(command.args, vec!["--port=4444", "--headless"]);
}

#[test]
fn command_for_gecko() {
    let command = driver_command(WebDriver::Gecko, 9515);
    assert_eq!(command.program, "geckodriver");
    assert_eq!(command.args, vec!["--port", "9515"]);
}

#[test]
fn session_address() {
    assert_eq!(session_url(4444), "http://localhost:4444");
    assert_eq!(session_url(80), "http://localhost:80");
    assert_eq!(session_url(0), "http://localhost:0");
}

#[test]
fn launch_constants() {
    assert_eq!(MAX_ATTEMPTS, 10);
    assert_eq!(RETRY_DELAY_SECONDS, 1);
    assert_eq!(DRIVER_HOST, "127.0.0.1");
    assert_eq!(WebDriver::default(), WebDriver::Chromium);
}

#[test]
fn driver_that_never_answers() {
    let mut state = LaunchState::new();
    let mut connects = 0;
    let mut sleeps = 0;
    let mut kills = 0;
    let mut spawns = 0;
    let mut trace: Vec<LaunchAction> = Vec::new();
    let failure;
    loop {
        let action = state.action();
        trace.push(action);
        match action {
            LaunchAction::Spawn => {
                spawns += 1;
                state = state.next(LaunchEvent::Spawned);
            }
            LaunchAction::Connect => {
                connects += 1;
                state = state.next(LaunchEvent::Refused);
            }
            LaunchAction::Sleep => {
                sleeps += 1;
                state = state.next(LaunchEvent::Slept);
            }
            LaunchAction::Kill => {
                kills += 1;
                state = state.next(LaunchEvent::Killed);
            }
            LaunchAction::Done => panic!("an unreachable driver was reported ready"),
            LaunchAction::Fail(reason) => {
                failure = reason;
                break;
            }
        }
        assert!(trace.len() < 100);
    }
    assert_eq!(failure, LaunchFailure::Unreachable);
    assert_eq!(spawns, 1);
    assert_eq!(connects, 10);
    assert_eq!(sleeps, 10);
    assert_eq!(kills, 1);
    assert_eq!(trace.len(), 23);
    assert_eq!(trace[0], LaunchAction::Spawn);
    for round in 0..10 {
        assert_eq!(trace[1 + 2 * round], LaunchAction::Connect);
        assert_eq!(trace[2 + 2 * round], LaunchAction::Sleep);
    }
    assert_eq!(trace[21], LaunchAction::Kill);
    assert_eq!(trace[22], LaunchAction::Fail(LaunchFailure::Unreachable));
    assert_eq!(state, LaunchState::Failed(LaunchFailure::Unreachable));
}

#[test]
fn driver_that_answers_at_once() {
    let state = LaunchState::new().next(LaunchEvent::Spawned);
    assert_eq!(state, LaunchState::Probing { failed: 0 });
    assert_eq!(state.action(), LaunchAction::Connect);
    let state = state.next(LaunchEvent::Connected);
    assert_eq!(state, LaunchState::Ready);
    assert_eq!(state.action(), LaunchAction::Done);
}

#[test]
fn driver_that_answers_on_the_last_attempt() {
    let mut state = LaunchState::new().next(LaunchEvent::Spawned);
    for failed in 1..=9u8 {
        state = state.next(LaunchEvent::Refused);
        assert_eq!(state, LaunchState::Waiting { failed });
        state = state.next(LaunchEvent::Slept);
        assert_eq!(state, LaunchState::Probing { failed });
    }
    state = state.next(LaunchEvent::Connected);
    assert_eq!(state, LaunchState::Ready);
}

#[test]
fn tenth_refusal_ends_the_attempts() {
    let mut state = LaunchState::new().next(LaunchEvent::Spawned);
    for _ in 0..9 {
        state = state.next(LaunchEvent::Refused).next(LaunchEvent::Slept);
    }
    assert_eq!(state, LaunchState::Probing { failed: 9 });
    state = state.next(LaunchEvent::Refused);
    assert_eq!(state, LaunchState::Waiting { failed: 10 });
    assert_eq!(state.action(), LaunchAction::Sleep);
    state = state.next(LaunchEvent::Slept);
    assert_eq!(state, LaunchState::Stopping);
    assert_eq!(state.action(), LaunchAction::Kill);
    assert_eq!(state.next(LaunchEvent::Connected), LaunchState::Stopping);
}

#[test]
fn driver_that_cannot_be_started() {
    let state = LaunchState::new();
    assert_eq!(state.action(), LaunchAction::Spawn);
    let state = state.next(LaunchEvent::SpawnFailed);
    assert_eq!(state, LaunchState::Failed(LaunchFailure::Spawn));
    assert_eq!(state.action(), LaunchAction::Fail(LaunchFailure::Spawn));
}

#[test]
fn reports_out_of_turn_change_nothing() {
    let idle = LaunchState::new();
    for event in [
        LaunchEvent::Connected,
        LaunchEvent::Refused,
        LaunchEvent::Slept,
        LaunchEvent::Killed,
    ] {
        assert_eq!(idle.next(event), LaunchState::Idle);
    }
    let probing = LaunchState::Probing { failed: 3 };
    for event in [
        LaunchEvent::Spawned,
        LaunchEvent::SpawnFailed,
        LaunchEvent::Slept,
        LaunchEvent::Killed,
    ] {
        assert_eq!(probing.next(event), probing);
    }
    let waiting = LaunchState::Waiting { failed: 3 };
    for event in [
        LaunchEvent::Spawned,
        LaunchEvent::Connected,
        LaunchEvent::Refused,
        LaunchEvent::Killed,
    ] {
        assert_eq!(waiting.next(event), waiting);
    }
    for event in [
        LaunchEvent::Spawned,
        LaunchEvent::SpawnFailed,
        LaunchEvent::Connected,
        LaunchEvent::Refused,
        LaunchEvent::Slept,
        LaunchEvent::Killed,
    ] {
        assert_eq!(LaunchState::Ready.next(event), LaunchState::Ready);
        let failed = LaunchState::Failed(LaunchFailure::Unreachable);
        assert_eq!(failed.next(event), failed);
    }
}
