use triangle_setup::event_loop::{
    initial_state, on_event, window_title, ControlFlow, LoopState, Signal, EXIT_ON_CLOSE,
    WINDOW_TITLE,
};

fn state_after(signals: &[Signal]) -> (LoopState, Option<ControlFlow>) {
    let mut state = initial_state();
    let mut flow = None;
    for signal in signals {
        let (next, decided) = on_event(state, *signal);
        state = next;
        flow = Some(decided);
    }
    (state, flow)
}

#[test]
fn window_title_is_fixed() {
    assert_eq!(window_title(), "my window");
    assert_eq!(WINDOW_TITLE, "my window");
}

#[test]
fn loop_starts_running() {
    assert_eq!(initial_state(), LoopState::Running);
}

#[test]
fn close_request_stops_a_running_loop() {
    assert_eq!(
        on_event(LoopState::Running, Signal::CloseRequested),
        (LoopState::Exiting, ControlFlow::ExitWithCode(0))
    );
}

#[test]
fn other_events_keep_a_running_loop_waiting() {
    assert_eq!(on_event(LoopState::Running, Signal::Other), (LoopState::Running, ControlFlow::Wait));
}

#[test]
fn exiting_loop_stays_exiting() {
    assert_eq!(
        on_event(LoopState::Exiting, Signal::Other),
        (LoopState::Exiting, ControlFlow::ExitWithCode(0))
    );
    assert_eq!(
        on_event(LoopState::Exiting, Signal::CloseRequested),
        (LoopState::Exiting, ControlFlow::ExitWithCode(0))
    );
}

#[test]
fn exit_code_on_close_is_zero() {
    assert_eq!(EXIT_ON_CLOSE, 0);
    let (_, flow) = on_event(initial_state(), Signal::CloseRequested);
    assert_eq!(flow, ControlFlow::ExitWithCode(EXIT_ON_CLOSE));
}

#[test]
fn loop_never_polls() {
    for state in [LoopState::Running, LoopState::Exiting] {
        for signal in [Signal::CloseRequested, Signal::Other] {
            assert_ne!(on_event(state, signal).1, ControlFlow::Poll);
        }
    }
}

#[test]
fn loop_exits_in_the_iteration_of_the_close_request() {
    let signals = [Signal::Other, Signal::Other, Signal::CloseRequested];
    assert_eq!(state_after(&signals[..2]), (LoopState::Running, Some(ControlFlow::Wait)));
    assert_eq!(state_after(&signals), (LoopState::Exiting, Some(ControlFlow::ExitWithCode(0))));
}

#[test]
fn loop_runs_exactly_until_the_first_close_request() {
    // Every sequence of up to eight events.
    for length in 0..=8usize {
        for pattern in 0..(1u32 << length) {
            let signals: Vec<Signal> = (0..length)
                .map(|i| if pattern >> i & 1 == 1 { Signal::CloseRequested } else { Signal::Other })
                .collect();
            let expected = if signals.contains(&Signal::CloseRequested) {
                LoopState::Exiting
            } else {
                LoopState::Running
            };
            assert_eq!(state_after(&signals).0, expected);
        }
    }
}
