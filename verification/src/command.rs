//! User commands and the ordered request plans they unfold into.
//!
//! A parsed command is turned into a sequence of [`Step`]s: request emissions,
//! blocking round-trip barriers, and timed pauses between repeated clicks.
//! The planner is the whole command interpreter; the caller only has to walk
//! the plan in order.

use vstd::prelude::*;

verus! {

/// A physical mouse button, as named on the command line.
#[derive(Clone, Copy, Debug, PartialEq, Eq, Structural)]
pub enum MouseButton {
    Left,
    Right,
    Middle,
}

impl MouseButton {
    /// The hardware button code each button name stands for.
    pub open spec fn spec_code(self) -> u32 {
        match self {
            MouseButton::Left => 272,
            MouseButton::Right => 273,
            MouseButton::Middle => 274,
        }
    }

    /// Maps a button name to its hardware button code.
    pub fn code(self) -> (c: u32)
        ensures
            c == self.spec_code(),
    {
        match self {
            MouseButton::Left => 272,
            MouseButton::Right => 273,
            MouseButton::Middle => 274,
        }
    }
}

/// One of the two scroll axes of the pointer protocol.
#[derive(Clone, Copy, Debug, PartialEq, Eq, Structural)]
pub enum ScrollAxis {
    Horizontal,
    Vertical,
}

/// The device class a scroll gesture is attributed to. This tool always
/// reports wheel scrolling, but the choice is recorded in the plan rather
/// than buried at the transport edge.
#[derive(Clone, Copy, Debug, PartialEq, Eq, Structural)]
pub enum ScrollSource {
    Wheel,
}

/// The state carried by a button request.
#[derive(Clone, Copy, Debug, PartialEq, Eq, Structural)]
pub enum PressState {
    Pressed,
    Released,
}

/// One parsed user command.
///
/// Coordinates and scroll amounts are carried as the IEEE 754 bit patterns of
/// the user's numbers. The session logic never interprets them; it only
/// forwards them, and the transport edge turns them back into the protocol's
/// floating-point arguments.
#[derive(Clone, Copy, Debug, PartialEq, Eq, Structural)]
pub enum Command {
    Move { x_bits: u64, y_bits: u64 },
    Scroll { horizontal: bool, amount_bits: u64 },
    ButtonClick { code: u32, count: u32, delay_ms: u64 },
    ButtonDown { code: u32 },
    ButtonUp { code: u32 },
}

/// One virtual-pointer request, exactly as handed to the transport.
#[derive(Clone, Copy, Debug, PartialEq, Eq, Structural)]
pub enum Request {
    Motion { x_bits: u64, y_bits: u64 },
    AxisSource { source: ScrollSource },
    AxisStop { axis: ScrollAxis },
    AxisValue { axis: ScrollAxis, amount_bits: u64 },
    Button { code: u32, state: PressState },
    Frame,
}

/// Whether a request carries a scalar magnitude — one the wire protocol takes
/// as a floating-point argument. Such requests are turned back into protocol
/// arguments at the transport edge; everything else the device emits itself.
pub open spec fn carries_scalar(req: Request) -> bool {
    match req {
        Request::Motion { .. } => true,
        Request::AxisValue { .. } => true,
        _ => false,
    }
}

/// One step of a session plan: a request emission, a blocking round-trip
/// barrier, or a timed pause between repeated clicks.
#[derive(Clone, Copy, Debug, PartialEq, Eq, Structural)]
pub enum Step {
    Emit { req: Request },
    Roundtrip,
    SleepMs { ms: u64 },
}

/// The scroll axis a command's `horizontal` flag selects.
pub open spec fn axis_of(horizontal: bool) -> ScrollAxis {
    if horizontal {
        ScrollAxis::Horizontal
    } else {
        ScrollAxis::Vertical
    }
}

/// A button-press emission step.
pub open spec fn press_step(code: u32) -> Step {
    Step::Emit { req: Request::Button { code, state: PressState::Pressed } }
}

/// A button-release emission step.
pub open spec fn release_step(code: u32) -> Step {
    Step::Emit { req: Request::Button { code, state: PressState::Released } }
}

/// A frame-boundary emission step.
pub open spec fn frame_step() -> Step {
    Step::Emit { req: Request::Frame }
}

/// The steps of a click command on its own: `count` press/release pairs,
/// separated (never followed) by a frame, a round-trip and a pause, so that
/// each click but the last reaches the server as a completed gesture before
/// the inter-click delay elapses. The final pair's frame is supplied once by
/// the session wrap-up, not here.
pub open spec fn click_steps(code: u32, count: nat, delay_ms: u64) -> Seq<Step>
    decreases count,
{
    if count == 0 {
        Seq::empty()
    } else if count == 1 {
        seq![press_step(code), release_step(code)]
    } else {
        seq![
            press_step(code),
            release_step(code),
            frame_step(),
            Step::Roundtrip,
            Step::SleepMs { ms: delay_ms },
        ] + click_steps(code, (count - 1) as nat, delay_ms)
    }
}

/// The steps a single command emits, before the session wrap-up.
pub open spec fn command_steps(cmd: Command) -> Seq<Step> {
    match cmd {
        Command::Move { x_bits, y_bits } => seq![Step::Emit { req: Request::Motion { x_bits, y_bits } }],
        Command::Scroll { horizontal, amount_bits } => seq![
            Step::Emit { req: Request::AxisSource { source: ScrollSource::Wheel } },
            Step::Emit { req: Request::AxisStop { axis: axis_of(horizontal) } },
            Step::Emit { req: Request::AxisValue { axis: axis_of(horizontal), amount_bits } },
        ],
        Command::ButtonClick { code, count, delay_ms } => click_steps(code, count as nat, delay_ms),
        Command::ButtonDown { code } => seq![press_step(code)],
        Command::ButtonUp { code } => seq![release_step(code)],
    }
}

/// The full per-session plan: the command's own steps, closed by the one
/// trailing frame and the final synchronizing round-trip.
pub open spec fn session_steps(cmd: Command) -> Seq<Step> {
    command_steps(cmd) + seq![frame_step(), Step::Roundtrip]
}

/// Builds the step sequence of one command, exactly as `command_steps` gives it.
pub fn plan_command(cmd: &Command) -> (steps: Vec<Step>)
    ensures
        steps@ == command_steps(*cmd),
{
    let mut steps: Vec<Step> = Vec::new();
    match cmd {
        Command::Move { x_bits, y_bits } => {
            steps.push(Step::Emit { req: Request::Motion { x_bits: *x_bits, y_bits: *y_bits } });
            assert(steps@ =~= command_steps(*cmd));
        },
        Command::Scroll { horizontal, amount_bits } => {
            let axis = if *horizontal {
                ScrollAxis::Horizontal
            } else {
                ScrollAxis::Vertical
            };
            steps.push(Step::Emit { req: Request::AxisSource { source: ScrollSource::Wheel } });
            steps.push(Step::Emit { req: Request::AxisStop { axis } });
            steps.push(Step::Emit { req: Request::AxisValue { axis, amount_bits: *amount_bits } });
            assert(steps@ =~= command_steps(*cmd));
        },
        Command::ButtonClick { code, count, delay_ms } => {
            let code: u32 = *code;
            let count: u32 = *count;
            let delay_ms: u64 = *delay_ms;
            let mut n: u32 = 0;
            while n < count
                invariant
                    n <= count,
                    steps@ + click_steps(code, (count - n) as nat, delay_ms)
                        == click_steps(code, count as nat, delay_ms),
                decreases count - n,
            {
                let ghost before: Seq<Step> = steps@;
                let ghost remaining: nat = (count - n) as nat;
                steps.push(Step::Emit { req: Request::Button { code, state: PressState::Pressed } });
                steps.push(Step::Emit { req: Request::Button { code, state: PressState::Released } });
                if n != count - 1 {
                    steps.push(Step::Emit { req: Request::Frame });
                    steps.push(Step::Roundtrip);
                    steps.push(Step::SleepMs { ms: delay_ms });
                    proof {
                        assert(steps@ =~= before + seq![
                            press_step(code),
                            release_step(code),
                            frame_step(),
                            Step::Roundtrip,
                            Step::SleepMs { ms: delay_ms },
                        ]);
                        assert(remaining > 1);
                        assert(steps@ + click_steps(code, (remaining - 1) as nat, delay_ms)
                            =~= before + click_steps(code, remaining, delay_ms));
                    }
                } else {
                    proof {
                        assert(steps@ =~= before + seq![press_step(code), release_step(code)]);
                        assert(remaining == 1);
                        assert(steps@ + click_steps(code, 0, delay_ms) =~= steps@);
                        assert(steps@ =~= before + click_steps(code, 1, delay_ms));
                    }
                }
                n = n + 1;
            }
            proof {
                assert(steps@ + click_steps(code, 0, delay_ms) =~= steps@);
                assert(steps@ =~= command_steps(*cmd));
            }
        },
        Command::ButtonDown { code } => {
            steps.push(Step::Emit { req: Request::Button { code: *code, state: PressState::Pressed } });
            assert(steps@ =~= command_steps(*cmd));
        },
        Command::ButtonUp { code } => {
            steps.push(Step::Emit { req: Request::Button { code: *code, state: PressState::Released } });
            assert(steps@ =~= command_steps(*cmd));
        },
    }
    steps
}

/// Builds the full session plan: the command's steps, then the single trailing
/// frame and the final round-trip.
pub fn plan_session(cmd: &Command) -> (steps: Vec<Step>)
    ensures
        steps@ == session_steps(*cmd),
{
    let mut steps = plan_command(cmd);
    steps.push(Step::Emit { req: Request::Frame });
    steps.push(Step::Roundtrip);
    assert(steps@ =~= session_steps(*cmd));
    steps
}

/// A step classification, used to state what a plan contains.
#[derive(Clone, Copy, Debug, PartialEq, Eq, Structural)]
pub enum StepKind {
    Press,
    Release,
    FrameMark,
    Barrier,
    Pause,
}

/// Whether a step falls under a classification.
pub open spec fn step_has_kind(s: Step, k: StepKind) -> bool {
    match k {
        StepKind::Press => s matches Step::Emit { req: Request::Button { state: PressState::Pressed, .. } },
        StepKind::Release => s matches Step::Emit { req: Request::Button { state: PressState::Released, .. } },
        StepKind::FrameMark => s == frame_step(),
        StepKind::Barrier => s == Step::Roundtrip,
        StepKind::Pause => s matches Step::SleepMs { .. },
    }
}

/// How many steps of a sequence fall under a classification.
pub open spec fn count_kind(s: Seq<Step>, k: StepKind) -> nat
    decreases s.len(),
{
    if s.len() == 0 {
        0
    } else {
        (if step_has_kind(s[0], k) {
            1nat
        } else {
            0nat
        }) + count_kind(s.drop_first(), k)
    }
}

/// Counting distributes over concatenation.
pub proof fn lemma_count_kind_add(a: Seq<Step>, b: Seq<Step>, k: StepKind)
    ensures
        count_kind(a + b, k) == count_kind(a, k) + count_kind(b, k),
    decreases a.len(),
{
    if a.len() == 0 {
        assert(a + b =~= b);
    } else {
        assert((a + b).drop_first() =~= a.drop_first() + b);
        lemma_count_kind_add(a.drop_first(), b, k);
    }
}

/// The counts of a one-click pair: one press, one release, nothing else.
proof fn lemma_click_pair_counts(code: u32, k: StepKind)
    ensures
        count_kind(seq![press_step(code), release_step(code)], k) == (
        if k == StepKind::Press || k == StepKind::Release {
            1nat
        } else {
            0nat
        }),
{
    reveal_with_fuel(count_kind, 3);
    let s = seq![press_step(code), release_step(code)];
    assert(s.drop_first() =~= seq![release_step(code)]);
    assert(seq![release_step(code)].drop_first() =~= Seq::<Step>::empty());
}

/// The counts of one click repetition together with its separator.
proof fn lemma_click_block_counts(code: u32, delay_ms: u64, k: StepKind)
    ensures
        count_kind(
            seq![
                press_step(code),
                release_step(code),
                frame_step(),
                Step::Roundtrip,
                Step::SleepMs { ms: delay_ms },
            ],
            k,
        ) == 1nat,
{
    reveal_with_fuel(count_kind, 6);
    let s = seq![
        press_step(code),
        release_step(code),
        frame_step(),
        Step::Roundtrip,
        Step::SleepMs { ms: delay_ms },
    ];
    assert(s.drop_first() =~= seq![
        release_step(code),
        frame_step(),
        Step::Roundtrip,
        Step::SleepMs { ms: delay_ms },
    ]);
    assert(s.drop_first().drop_first() =~= seq![
        frame_step(),
        Step::Roundtrip,
        Step::SleepMs { ms: delay_ms },
    ]);
    assert(s.drop_first().drop_first().drop_first() =~= seq![
        Step::Roundtrip,
        Step::SleepMs { ms: delay_ms },
    ]);
    assert(s.drop_first().drop_first().drop_first().drop_first() =~= seq![
        Step::SleepMs { ms: delay_ms },
    ]);
    assert(s.drop_first().drop_first().drop_first().drop_first().drop_first()
        =~= Seq::<Step>::empty());
}

/// Law: a click command's own steps hold exactly `count` presses, `count`
/// releases, and `count - 1` intermediate frames, round-trips and pauses.
pub proof fn lemma_click_counts(code: u32, count: nat, delay_ms: u64)
    requires
        count >= 1,
    ensures
        count_kind(click_steps(code, count, delay_ms), StepKind::Press) == count,
        count_kind(click_steps(code, count, delay_ms), StepKind::Release) == count,
        count_kind(click_steps(code, count, delay_ms), StepKind::FrameMark) == count - 1,
        count_kind(click_steps(code, count, delay_ms), StepKind::Barrier) == count - 1,
        count_kind(click_steps(code, count, delay_ms), StepKind::Pause) == count - 1,
    decreases count,
{
    if count == 1 {
        lemma_click_pair_counts(code, StepKind::Press);
        lemma_click_pair_counts(code, StepKind::Release);
        lemma_click_pair_counts(code, StepKind::FrameMark);
        lemma_click_pair_counts(code, StepKind::Barrier);
        lemma_click_pair_counts(code, StepKind::Pause);
    } else {
        let block = seq![
            press_step(code),
            release_step(code),
            frame_step(),
            Step::Roundtrip,
            Step::SleepMs { ms: delay_ms },
        ];
        let rest = click_steps(code, (count - 1) as nat, delay_ms);
        lemma_click_counts(code, (count - 1) as nat, delay_ms);
        lemma_count_kind_add(block, rest, StepKind::Press);
        lemma_count_kind_add(block, rest, StepKind::Release);
        lemma_count_kind_add(block, rest, StepKind::FrameMark);
        lemma_count_kind_add(block, rest, StepKind::Barrier);
        lemma_count_kind_add(block, rest, StepKind::Pause);
        lemma_click_block_counts(code, delay_ms, StepKind::Press);
        lemma_click_block_counts(code, delay_ms, StepKind::Release);
        lemma_click_block_counts(code, delay_ms, StepKind::FrameMark);
        lemma_click_block_counts(code, delay_ms, StepKind::Barrier);
        lemma_click_block_counts(code, delay_ms, StepKind::Pause);
    }
}

/// Law: over a whole click session — the command's steps closed by the single
/// trailing frame and final round-trip — there are exactly `count`
/// press/release pairs, `count` frames, `count` round-trips, and `count - 1`
/// inter-click pauses. The trailing frame comes from the session wrap-up
/// alone, never from the click loop.
pub proof fn lemma_click_session_counts(code: u32, count: u32, delay_ms: u64)
    requires
        count >= 1,
    ensures
        count_kind(session_steps(Command::ButtonClick { code, count, delay_ms }), StepKind::Press)
            == count,
        count_kind(session_steps(Command::ButtonClick { code, count, delay_ms }), StepKind::Release)
            == count,
        count_kind(session_steps(Command::ButtonClick { code, count, delay_ms }), StepKind::FrameMark)
            == count,
        count_kind(session_steps(Command::ButtonClick { code, count, delay_ms }), StepKind::Barrier)
            == count,
        count_kind(session_steps(Command::ButtonClick { code, count, delay_ms }), StepKind::Pause)
            == count - 1,
{
    let cmd = Command::ButtonClick { code, count, delay_ms };
    let tail = seq![frame_step(), Step::Roundtrip];
    lemma_click_counts(code, count as nat, delay_ms);
    lemma_count_kind_add(command_steps(cmd), tail, StepKind::Press);
    lemma_count_kind_add(command_steps(cmd), tail, StepKind::Release);
    lemma_count_kind_add(command_steps(cmd), tail, StepKind::FrameMark);
    lemma_count_kind_add(command_steps(cmd), tail, StepKind::Barrier);
    lemma_count_kind_add(command_steps(cmd), tail, StepKind::Pause);
    reveal_with_fuel(count_kind, 3);
    assert(tail.drop_first() =~= seq![Step::Roundtrip]);
    assert(seq![Step::Roundtrip].drop_first() =~= Seq::<Step>::empty());
}

/// Law: a single click emits a press and a release with no intermediate frame,
/// round-trip or pause; the one trailing frame and final round-trip come from
/// the session wrap-up.
pub proof fn lemma_single_click_session(code: u32, delay_ms: u64)
    ensures
        session_steps(Command::ButtonClick { code, count: 1, delay_ms }) == seq![
            press_step(code),
            release_step(code),
            frame_step(),
            Step::Roundtrip,
        ],
{
    assert(session_steps(Command::ButtonClick { code, count: 1, delay_ms }) =~= seq![
        press_step(code),
        release_step(code),
        frame_step(),
        Step::Roundtrip,
    ]);
}

/// Law: a button-down command emits a single press request and the one
/// trailing frame; no matching release is synthesized.
pub proof fn lemma_button_down_session(code: u32)
    ensures
        session_steps(Command::ButtonDown { code }) == seq![
            press_step(code),
            frame_step(),
            Step::Roundtrip,
        ],
{
    assert(session_steps(Command::ButtonDown { code }) =~= seq![
        press_step(code),
        frame_step(),
        Step::Roundtrip,
    ]);
}

/// Law: a scroll command emits exactly the ordered triple of an axis-source
/// declaration (always the wheel), an axis-stop on the selected axis, and the
/// axis value on that same axis; the `horizontal` flag alone selects the axis.
pub proof fn lemma_scroll_triple(horizontal: bool, amount_bits: u64)
    ensures
        command_steps(Command::Scroll { horizontal, amount_bits }) == seq![
            Step::Emit { req: Request::AxisSource { source: ScrollSource::Wheel } },
            Step::Emit { req: Request::AxisStop { axis: axis_of(horizontal) } },
            Step::Emit { req: Request::AxisValue { axis: axis_of(horizontal), amount_bits } },
        ],
{
}

} // verus!
