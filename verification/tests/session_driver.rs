use waymouse::command::{Command, PressState, Request, Step};
use waymouse::session::{Action, Driver, Outcome, SessionError};

/// Drives one session, reporting the scripted outcome for each action in
/// turn (and success once the script runs out), and returns every action the
/// driver produced, the terminal one included.
fn drive(cmd: &Command, script: &[Outcome]) -> Vec<Action> {
    let mut driver = Driver::new(cmd);
    let mut actions: Vec<Action> = Vec::new();
    let mut i: usize = 0;
    loop {
        let action = driver.next_action();
        actions.push(action);
        match action {
            Action::Finish | Action::Abort { .. } => return actions,
            _ => {
                let outcome = if i < script.len() { script[i] } else { Outcome::Success };
                driver.advance(outcome);
                i += 1;
            }
        }
    }
}

#[test]
fn successful_move_run_performs_the_full_choreography() {
    let x_bits = 100.5f64.to_bits();
    let y_bits = (-20.0f64).to_bits();
    let actions = drive(&Command::Move { x_bits, y_bits }, &[]);
    assert_eq!(
        actions,
        vec![
            Action::Connect,
            Action::InitialRoundtrip,
            Action::CheckCapability,
            Action::CreateDevice,
            Action::EmitRequest { req: Request::Motion { x_bits, y_bits } },
            Action::EmitRequest { req: Request::Frame },
            Action::Roundtrip,
            Action::Finish,
        ]
    );
    // Exactly two round-trips: the discovery one and the final one.
    let roundtrips = actions
        .iter()
        .filter(|a| matches!(a, Action::InitialRoundtrip | Action::Roundtrip))
        .count();
    assert_eq!(roundtrips, 2);
}

#[test]
fn failed_initial_roundtrip_terminates_before_any_device_or_request() {
    let cmd = Command::ButtonClick { code: 272, count: 3, delay_ms: 50 };
    let actions = drive(&cmd, &[Outcome::Success, Outcome::Failure]);
    assert_eq!(
        actions,
        vec![
            Action::Connect,
            Action::InitialRoundtrip,
            Action::Abort { error: SessionError::RoundtripFailed },
        ]
    );
    assert!(actions.iter().all(|a| !matches!(
        a,
        Action::CreateDevice | Action::EmitRequest { .. }
    )));
}

#[test]
fn failed_connect_aborts_immediately() {
    let actions = drive(&Command::ButtonDown { code: 272 }, &[Outcome::Failure]);
    assert_eq!(
        actions,
        vec![Action::Connect, Action::Abort { error: SessionError::ConnectionFailed }]
    );
}

#[test]
fn missing_capability_aborts_after_discovery() {
    let actions = drive(
        &Command::ButtonUp { code: 273 },
        &[Outcome::Success, Outcome::Success, Outcome::Failure],
    );
    assert_eq!(
        actions,
        vec![
            Action::Connect,
            Action::InitialRoundtrip,
            Action::CheckCapability,
            Action::Abort { error: SessionError::CapabilityNotFound },
        ]
    );
}

#[test]
fn rejected_device_creation_aborts_before_any_request() {
    let actions = drive(
        &Command::ButtonDown { code: 272 },
        &[Outcome::Success, Outcome::Success, Outcome::Success, Outcome::Failure],
    );
    assert_eq!(
        actions,
        vec![
            Action::Connect,
            Action::InitialRoundtrip,
            Action::CheckCapability,
            Action::CreateDevice,
            Action::Abort { error: SessionError::ObjectCreationFailed },
        ]
    );
}

#[test]
fn failed_final_roundtrip_is_fatal() {
    let script = [
        Outcome::Success, // connect
        Outcome::Success, // discovery round-trip
        Outcome::Success, // capability check
        Outcome::Success, // device creation
        Outcome::Success, // press
        Outcome::Success, // trailing frame
        Outcome::Failure, // final round-trip
    ];
    let actions = drive(&Command::ButtonDown { code: 272 }, &script);
    assert_eq!(
        actions,
        vec![
            Action::Connect,
            Action::InitialRoundtrip,
            Action::CheckCapability,
            Action::CreateDevice,
            Action::EmitRequest {
                req: Request::Button { code: 272, state: PressState::Pressed },
            },
            Action::EmitRequest { req: Request::Frame },
            Action::Roundtrip,
            Action::Abort { error: SessionError::RoundtripFailed },
        ]
    );
}

#[test]
fn click_run_sleeps_between_repetitions_only() {
    let cmd = Command::ButtonClick { code: 272, count: 2, delay_ms: 25 };
    let actions = drive(&cmd, &[]);
    let sleeps: Vec<&Action> =
        actions.iter().filter(|a| matches!(a, Action::SleepMs { .. })).collect();
    assert_eq!(sleeps, vec![&Action::SleepMs { ms: 25 }]);
    // The sleep sits strictly between the two press/release pairs.
    let press = Action::EmitRequest {
        req: Request::Button { code: 272, state: PressState::Pressed },
    };
    let sleep_at = actions.iter().position(|a| matches!(a, Action::SleepMs { .. })).unwrap();
    let first_press = actions.iter().position(|a| *a == press).unwrap();
    let last_press = actions.iter().rposition(|a| *a == press).unwrap();
    assert!(first_press < sleep_at && sleep_at < last_press);
}

#[test]
fn each_error_has_its_single_line_diagnostic() {
    assert_eq!(
        SessionError::CapabilityNotFound.message(),
        "zwlr_virtual_pointer_manager_v1 not found, does your compositor support it?"
    );
    assert_eq!(
        SessionError::ConnectionFailed.message(),
        "could not connect to the display server"
    );
    assert_eq!(
        SessionError::ObjectCreationFailed.message(),
        "the server rejected creation of the virtual pointer"
    );
    assert_eq!(
        SessionError::RoundtripFailed.message(),
        "a round-trip to the display server failed"
    );
}

#[test]
fn steps_match_the_original_click_loop_shape() {
    // count press/release pairs, count frames in all (the last supplied by
    // the session wrap-up), and count - 1 pauses.
    let cmd = Command::ButtonClick { code: 274, count: 4, delay_ms: 10 };
    let actions = drive(&cmd, &[]);
    let presses = actions
        .iter()
        .filter(|a| {
            matches!(
                a,
                Action::EmitRequest { req: Request::Button { state: PressState::Pressed, .. } }
            )
        })
        .count();
    let releases = actions
        .iter()
        .filter(|a| {
            matches!(
                a,
                Action::EmitRequest { req: Request::Button { state: PressState::Released, .. } }
            )
        })
        .count();
    let frames = actions
        .iter()
        .filter(|a| matches!(a, Action::EmitRequest { req: Request::Frame }))
        .count();
    let pauses = actions.iter().filter(|a| matches!(a, Action::SleepMs { .. })).count();
    // count - 1 intermediate round-trips plus the final one.
    let barriers = actions.iter().filter(|a| matches!(a, Action::Roundtrip)).count();
    assert_eq!((presses, releases, frames, pauses, barriers), (4, 4, 4, 3, 4));
}

#[test]
fn plan_steps_and_driver_actions_agree() {
    let cmd = Command::Scroll { horizontal: false, amount_bits: 2.5f64.to_bits() };
    let actions = drive(&cmd, &[]);
    let plan = waymouse::command::plan_session(&cmd);
    let emitted: Vec<Action> = actions[4..actions.len() - 1]
        .iter()
        .copied()
        .collect();
    let expected: Vec<Action> = plan
        .iter()
        .map(|s| match s {
            Step::Emit { req } => Action::EmitRequest { req: *req },
            Step::Roundtrip => Action::Roundtrip,
            Step::SleepMs { ms } => Action::SleepMs { ms: *ms },
        })
        .collect();
    assert_eq!(emitted, expected);
}
