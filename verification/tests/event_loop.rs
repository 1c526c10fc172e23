use ethproxy::event_loop::{
    start, step, Action, Event, Fault, State, CONSOLE_CHUNK, FRAME_CHUNK, WAIT_MILLIS,
};

type S = State<Vec<u8>>;
type A = Action<Vec<u8>>;
type E = Event<Vec<u8>>;

fn go(state: S, event: E) -> (S, A) {
    step(state, event).unwrap()
}

#[test]
fn session_starts_at_the_top() {
    assert_eq!(start(), (S::AtTop, A::SampleFlag));
}

#[test]
fn constants_are_as_documented() {
    assert_eq!(WAIT_MILLIS, 200);
    assert_eq!(CONSOLE_CHUNK, 64);
    assert_eq!(FRAME_CHUNK, 1600);
}

#[test]
fn set_flag_ends_the_session() {
    assert_eq!(go(S::AtTop, E::Flag(true)), (S::Stopped, A::Exit));
}

#[test]
fn unset_flag_starts_a_bounded_wait() {
    assert_eq!(go(S::AtTop, E::Flag(false)), (S::Waiting, A::Wait { millis: 200 }));
}

#[test]
fn idle_wait_goes_back_to_the_top() {
    let woke = E::Woke { ready: 0, console: false, frame: false };
    assert_eq!(go(S::Waiting, woke), (S::AtTop, A::SampleFlag));
    let woke = E::Woke { ready: 0, console: true, frame: true };
    assert_eq!(go(S::Waiting, woke), (S::AtTop, A::SampleFlag));
}

#[test]
fn flag_is_seen_within_one_wait() {
    let (state, action) = start();
    assert_eq!(action, A::SampleFlag);
    let (state, action) = go(state, E::Flag(false));
    assert_eq!(action, A::Wait { millis: 200 });
    let (state, action) = go(state, E::Woke { ready: 0, console: false, frame: false });
    assert_eq!(action, A::SampleFlag);
    assert_eq!(go(state, E::Flag(true)), (S::Stopped, A::Exit));
}

#[test]
fn failed_wait_aborts() {
    let woke = E::Woke { ready: -1, console: false, frame: false };
    assert_eq!(go(S::Waiting, woke), (S::Stopped, A::Abort(Fault::WaitFailed)));
}

#[test]
fn console_comes_before_frames() {
    let woke = E::Woke { ready: 2, console: true, frame: true };
    assert_eq!(go(S::Waiting, woke), (S::ReadingConsole, A::ReadConsole { max: 64 }));
}

#[test]
fn ready_frame_source_is_read() {
    let woke = E::Woke { ready: 1, console: false, frame: true };
    assert_eq!(go(S::Waiting, woke), (S::ReadingFrame, A::ReadFrame { max: 1600 }));
}

#[test]
fn wake_without_a_ready_source_prompts() {
    let woke = E::Woke { ready: 1, console: false, frame: false };
    assert_eq!(go(S::Waiting, woke), (S::Prompting, A::Prompt));
}

#[test]
fn console_input_is_forwarded_with_its_length() {
    let read = E::Read { count: 6, data: b"hello\n".to_vec() };
    let (state, action) = go(S::ReadingConsole, read);
    assert_eq!(action, A::Send { bytes: vec![0x06, 0x00, 0x00, 0x00] });
    assert_eq!(state, S::SendingLength { payload: b"hello\n".to_vec() });
    let (state, action) = go(state, E::Wrote { count: 4 });
    assert_eq!(action, A::Send { bytes: b"hello\n".to_vec() });
    assert_eq!(state, S::SendingPayload { len: 6 });
    let (state, action) = go(state, E::Wrote { count: 6 });
    assert_eq!(action, A::Receive { count: 4 });
    assert_eq!(state, S::ReceivingLength);
}

#[test]
fn backend_answer_is_reported() {
    let (state, action) =
        go(S::ReceivingLength, E::Read { count: 4, data: vec![0x03, 0x00, 0x00, 0x00] });
    assert_eq!(action, A::Receive { count: 3 });
    assert_eq!(state, S::ReceivingPayload { due: 3 });
    let (state, action) = go(state, E::Read { count: 3, data: vec![0x01, 0x02, 0x03] });
    assert_eq!(action, A::Report { payload: vec![0x01, 0x02, 0x03] });
    assert_eq!(state, S::Reporting);
    let (state, action) = go(state, E::Shown(true));
    assert_eq!((state.clone(), action), (S::Prompting, A::Prompt));
    assert_eq!(go(state, E::Shown(true)), (S::AtTop, A::SampleFlag));
}

#[test]
fn empty_answer_is_reported() {
    let (state, action) = go(S::ReceivingLength, E::Read { count: 4, data: vec![0, 0, 0, 0] });
    assert_eq!(action, A::Receive { count: 0 });
    let (state, action) = go(state, E::Read { count: 0, data: vec![] });
    assert_eq!((state, action), (S::Reporting, A::Report { payload: vec![] }));
}

#[test]
fn failed_frame_read_is_logged_and_the_loop_goes_on() {
    let (state, action) = go(S::ReadingFrame, E::Read { count: -1, data: vec![] });
    assert_eq!(action, A::LogReadFailure);
    assert_eq!(state, S::Logging);
    assert_eq!(go(state, E::Shown(true)), (S::AtTop, A::SampleFlag));
}

#[test]
fn empty_frame_read_is_logged_and_the_loop_goes_on() {
    let (state, action) = go(S::ReadingFrame, E::Read { count: 0, data: vec![1, 2, 3] });
    assert_eq!((state, action), (S::Logging, A::LogReadFailure));
    let (state, action) = go(S::ReadingFrame, E::Read { count: isize::MIN, data: vec![] });
    assert_eq!((state, action), (S::Logging, A::LogReadFailure));
}

#[test]
fn frame_is_forwarded_with_its_length() {
    let frame: Vec<u8> = (0..1600).map(|i| (i % 251) as u8).collect();
    let (state, action) = go(S::ReadingFrame, E::Read { count: 1600, data: frame.clone() });
    assert_eq!(action, A::Send { bytes: vec![0x40, 0x06, 0x00, 0x00] });
    let (state, action) = go(state, E::Wrote { count: 4 });
    assert_eq!(action, A::Send { bytes: frame });
    assert_eq!(state, S::SendingPayload { len: 1600 });
}

#[test]
fn end_of_console_input_ends_the_session() {
    let read = E::Read { count: 0, data: vec![] };
    assert_eq!(go(S::ReadingConsole, read), (S::Stopped, A::Exit));
    let read = E::Read { count: 0, data: vec![9; 64] };
    assert_eq!(go(S::ReadingConsole, read), (S::Stopped, A::Exit));
}

#[test]
fn failed_console_read_aborts() {
    let read = E::Read { count: -1, data: vec![] };
    assert_eq!(go(S::ReadingConsole, read), (S::Stopped, A::Abort(Fault::ConsoleFailed)));
}

#[test]
fn chunk_is_what_was_counted() {
    let mut buffer = vec![0u8; 64];
    buffer[..3].copy_from_slice(b"abc");
    let (state, action) = go(S::ReadingConsole, E::Read { count: 3, data: buffer });
    assert_eq!(action, A::Send { bytes: vec![3, 0, 0, 0] });
    assert_eq!(state, S::SendingLength { payload: b"abc".to_vec() });
}

#[test]
fn chunk_is_no_longer_than_was_asked() {
    let (state, action) = go(S::ReadingConsole, E::Read { count: 100, data: vec![7; 100] });
    assert_eq!(action, A::Send { bytes: vec![64, 0, 0, 0] });
    assert_eq!(state, S::SendingLength { payload: vec![7; 64] });
    let (state, action) = go(S::ReadingFrame, E::Read { count: 2000, data: vec![7; 2000] });
    assert_eq!(action, A::Send { bytes: vec![0x40, 0x06, 0, 0] });
    assert_eq!(state, S::SendingLength { payload: vec![7; 1600] });
}

#[test]
fn chunk_is_no_longer_than_the_data() {
    let (state, action) = go(S::ReadingFrame, E::Read { count: 10, data: vec![1, 2] });
    assert_eq!(action, A::Send { bytes: vec![2, 0, 0, 0] });
    assert_eq!(state, S::SendingLength { payload: vec![1, 2] });
}

#[test]
fn short_write_of_the_length_aborts() {
    let state = S::SendingLength { payload: vec![1, 2, 3] };
    assert_eq!(go(state.clone(), E::Wrote { count: 3 }), (S::Stopped, A::Abort(Fault::ShortWrite)));
    assert_eq!(go(state.clone(), E::Wrote { count: -1 }), (S::Stopped, A::Abort(Fault::ShortWrite)));
    assert_eq!(go(state, E::Wrote { count: 0 }), (S::Stopped, A::Abort(Fault::ShortWrite)));
}

#[test]
fn short_write_of_the_payload_aborts() {
    let state = S::SendingPayload { len: 6 };
    assert_eq!(go(state.clone(), E::Wrote { count: 5 }), (S::Stopped, A::Abort(Fault::ShortWrite)));
    assert_eq!(go(state.clone(), E::Wrote { count: -1 }), (S::Stopped, A::Abort(Fault::ShortWrite)));
    assert_eq!(go(state, E::Wrote { count: 7 }), (S::Stopped, A::Abort(Fault::ShortWrite)));
}

#[test]
fn short_read_of_the_length_aborts() {
    let read = E::Read { count: 3, data: vec![3, 0, 0] };
    assert_eq!(go(S::ReceivingLength, read), (S::Stopped, A::Abort(Fault::ShortRead)));
    let read = E::Read { count: 0, data: vec![] };
    assert_eq!(go(S::ReceivingLength, read), (S::Stopped, A::Abort(Fault::ShortRead)));
    let read = E::Read { count: -1, data: vec![] };
    assert_eq!(go(S::ReceivingLength, read), (S::Stopped, A::Abort(Fault::ShortRead)));
    let read = E::Read { count: 4, data: vec![3, 0] };
    assert_eq!(go(S::ReceivingLength, read), (S::Stopped, A::Abort(Fault::ShortRead)));
}

#[test]
fn short_read_of_the_payload_aborts() {
    let state = S::ReceivingPayload { due: 3 };
    let read = E::Read { count: 2, data: vec![1, 2] };
    assert_eq!(go(state.clone(), read), (S::Stopped, A::Abort(Fault::ShortRead)));
    let read = E::Read { count: -1, data: vec![] };
    assert_eq!(go(state.clone(), read), (S::Stopped, A::Abort(Fault::ShortRead)));
    let read = E::Read { count: 3, data: vec![1, 2] };
    assert_eq!(go(state, read), (S::Stopped, A::Abort(Fault::ShortRead)));
}

#[test]
fn failed_output_aborts() {
    for state in [S::Logging, S::Reporting, S::Prompting] {
        assert_eq!(go(state, E::Shown(false)), (S::Stopped, A::Abort(Fault::OutputFailed)));
    }
}

#[test]
fn nothing_follows_stopped() {
    assert_eq!(step(S::Stopped, E::Flag(false)), None);
    assert_eq!(step(S::Stopped, E::Flag(true)), None);
    assert_eq!(step(S::Stopped, E::Shown(true)), None);
    assert_eq!(step(S::Stopped, E::Wrote { count: 4 }), None);
    assert_eq!(step(S::Stopped, E::Read { count: 1, data: vec![1] }), None);
    assert_eq!(step(S::Stopped, E::Woke { ready: 1, console: true, frame: true }), None);
}

#[test]
fn event_must_answer_the_action() {
    assert_eq!(step(S::AtTop, E::Read { count: 1, data: vec![1] }), None);
    assert_eq!(step(S::AtTop, E::Woke { ready: 1, console: true, frame: false }), None);
    assert_eq!(step(S::Waiting, E::Flag(true)), None);
    assert_eq!(step(S::ReadingConsole, E::Wrote { count: 1 }), None);
    assert_eq!(step(S::ReadingFrame, E::Shown(true)), None);
    assert_eq!(step(S::SendingLength { payload: vec![] }, E::Read { count: 4, data: vec![0; 4] }), None);
    assert_eq!(step(S::SendingPayload { len: 0 }, E::Flag(false)), None);
    assert_eq!(step(S::ReceivingLength, E::Wrote { count: 4 }), None);
    assert_eq!(step(S::ReceivingPayload { due: 1 }, E::Shown(true)), None);
    assert_eq!(step(S::Reporting, E::Flag(true)), None);
    assert_eq!(step(S::Prompting, E::Wrote { count: 0 }), None);
    assert_eq!(step(S::Logging, E::Flag(true)), None);
}

/// Drives the machine with scripted outcomes, as a driver would, and gives
/// the actions that it asked for.
fn drive(script: Vec<E>) -> Vec<A> {
    let (mut state, first) = start();
    let mut actions = vec![first];
    for event in script {
        let (next, action) = step(state, event).unwrap();
        state = next;
        actions.push(action);
    }
    actions
}

#[test]
fn whole_session_console_then_frame_then_interrupt() {
    let actions = drive(vec![
        E::Flag(false),
        E::Woke { ready: 1, console: true, frame: false },
        E::Read { count: 6, data: b"hello\n".to_vec() },
        E::Wrote { count: 4 },
        E::Wrote { count: 6 },
        E::Read { count: 4, data: vec![3, 0, 0, 0] },
        E::Read { count: 3, data: vec![1, 2, 3] },
        E::Shown(true),
        E::Shown(true),
        E::Flag(false),
        E::Woke { ready: 1, console: false, frame: true },
        E::Read { count: -1, data: vec![] },
        E::Shown(true),
        E::Flag(false),
        E::Woke { ready: 0, console: false, frame: false },
        E::Flag(true),
    ]);
    assert_eq!(
        actions,
        vec![
            A::SampleFlag,
            A::Wait { millis: 200 },
            A::ReadConsole { max: 64 },
            A::Send { bytes: vec![6, 0, 0, 0] },
            A::Send { bytes: b"hello\n".to_vec() },
            A::Receive { count: 4 },
            A::Receive { count: 3 },
            A::Report { payload: vec![1, 2, 3] },
            A::Prompt,
            A::SampleFlag,
            A::Wait { millis: 200 },
            A::ReadFrame { max: 1600 },
            A::LogReadFailure,
            A::SampleFlag,
            A::Wait { millis: 200 },
            A::SampleFlag,
            A::Exit,
        ]
    );
}

#[test]
fn what_is_sent_comes_back_when_the_backend_echoes() {
    let payload: Vec<u8> = (0..300).map(|i| (i % 256) as u8).collect();
    let (state, first) = go(S::ReadingFrame, E::Read { count: 300, data: payload.clone() });
    let (state, second) = go(state, E::Wrote { count: 4 });
    let (state, _) = go(state, E::Wrote { count: 300 });
    let (header, body) = match (first, second) {
        (A::Send { bytes: header }, A::Send { bytes: body }) => (header, body),
        other => panic!("two writes were due, not {:?}", other),
    };
    let (state, action) = go(state, E::Read { count: 4, data: header });
    assert_eq!(action, A::Receive { count: 300 });
    let (_, action) = go(state, E::Read { count: 300, data: body });
    assert_eq!(action, A::Report { payload });
}
