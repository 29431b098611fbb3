use waymouse::command::{
    Command, MouseButton, PressState, Request, ScrollAxis, ScrollSource, Step, plan_command,
    plan_session,
};

fn press(code: u32) -> Step {
    Step::Emit { req: Request::Button { code, state: PressState::Pressed } }
}

fn release(code: u32) -> Step {
    Step::Emit { req: Request::Button { code, state: PressState::Released } }
}

fn frame() -> Step {
    Step::Emit { req: Request::Frame }
}

#[test]
fn button_codes_match_the_fixed_mapping() {
    assert_eq!(MouseButton::Left.code(), 272);
    assert_eq!(MouseButton::Right.code(), 273);
    assert_eq!(MouseButton::Middle.code(), 274);
}

#[test]
fn vertical_scroll_emits_source_stop_value_in_order() {
    let amount_bits = 5.0f64.to_bits();
    let plan = plan_command(&Command::Scroll { horizontal: false, amount_bits });
    assert_eq!(
        plan,
        vec![
            Step::Emit { req: Request::AxisSource { source: ScrollSource::Wheel } },
            Step::Emit { req: Request::AxisStop { axis: ScrollAxis::Vertical } },
            Step::Emit { req: Request::AxisValue { axis: ScrollAxis::Vertical, amount_bits } },
        ]
    );
}

#[test]
fn horizontal_scroll_selects_the_horizontal_axis_identically() {
    let amount_bits = 5.0f64.to_bits();
    let plan = plan_command(&Command::Scroll { horizontal: true, amount_bits });
    assert_eq!(
        plan,
        vec![
            Step::Emit { req: Request::AxisSource { source: ScrollSource::Wheel } },
            Step::Emit { req: Request::AxisStop { axis: ScrollAxis::Horizontal } },
            Step::Emit { req: Request::AxisValue { axis: ScrollAxis::Horizontal, amount_bits } },
        ]
    );
}

#[test]
fn triple_click_interleaves_frames_roundtrips_and_delays() {
    let plan = plan_command(&Command::ButtonClick { code: 272, count: 3, delay_ms: 50 });
    assert_eq!(
        plan,
        vec![
            press(272),
            release(272),
            frame(),
            Step::Roundtrip,
            Step::SleepMs { ms: 50 },
            press(272),
            release(272),
            frame(),
            Step::Roundtrip,
            Step::SleepMs { ms: 50 },
            press(272),
            release(272),
        ]
    );
    // The trailing frame and final round-trip come from the session wrap-up,
    // never from the click loop itself.
    let session = plan_session(&Command::ButtonClick { code: 272, count: 3, delay_ms: 50 });
    let mut expected = plan;
    expected.push(frame());
    expected.push(Step::Roundtrip);
    assert_eq!(session, expected);
}

#[test]
fn single_click_has_no_intermediate_frames_or_delays() {
    let session = plan_session(&Command::ButtonClick { code: 273, count: 1, delay_ms: 100 });
    assert_eq!(session, vec![press(273), release(273), frame(), Step::Roundtrip]);
}

#[test]
fn zero_count_click_emits_nothing_but_the_trailing_frame() {
    let session = plan_session(&Command::ButtonClick { code: 272, count: 0, delay_ms: 100 });
    assert_eq!(session, vec![frame(), Step::Roundtrip]);
}

#[test]
fn button_down_emits_one_press_and_no_release() {
    let session = plan_session(&Command::ButtonDown { code: 272 });
    assert_eq!(session, vec![press(272), frame(), Step::Roundtrip]);
}

#[test]
fn button_up_emits_one_release_only() {
    let session = plan_session(&Command::ButtonUp { code: 274 });
    assert_eq!(session, vec![release(274), frame(), Step::Roundtrip]);
}

#[test]
fn move_plan_forwards_the_exact_coordinate_bits() {
    let x_bits = 100.5f64.to_bits();
    let y_bits = (-20.0f64).to_bits();
    let session = plan_session(&Command::Move { x_bits, y_bits });
    assert_eq!(
        session,
        vec![
            Step::Emit { req: Request::Motion { x_bits, y_bits } },
            frame(),
            Step::Roundtrip,
        ]
    );
    // The bit patterns decode back to exactly the numbers the user typed.
    match session[0] {
        Step::Emit { req: Request::Motion { x_bits: x, y_bits: y } } => {
            assert_eq!(f64::from_bits(x), 100.5);
            assert_eq!(f64::from_bits(y), -20.0);
        }
        _ => panic!("first step must be the motion request"),
    }
}
