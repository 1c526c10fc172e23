//! The proxy's event loop as a state machine.
//!
//! The loop is single-threaded and does one thing at a time. It samples the
//! termination flag, waits a bounded time for the console or the frame source
//! to become ready, takes one chunk from one of them (the console first), sends
//! it to the backend as a length-prefixed message, receives the backend's
//! answer in the same format and reports it to the operator.
//!
//! Nothing here touches a descriptor. The machine names the next operation as
//! an [`Action`]; a driver performs it and hands back what happened as an
//! [`Event`]; [`step`] decides what follows. A state other than
//! [`State::Stopped`] is the running session, at the point where the answer to
//! one particular action is awaited.

use vstd::prelude::*;
use crate::framing::{
    declared_length, decode_length, encoded, length_bytes, length_field, lemma_length_round_trip,
    MAX_PAYLOAD,
};

verus! {

/// Upper bound, in milliseconds, of one wait for readiness. The termination
/// flag is sampled again after every wait, so this bounds how long a request
/// to terminate can go unnoticed while both sources are idle.
pub const WAIT_MILLIS: i32 = 200;

/// Most bytes taken from the console in one read.
pub const CONSOLE_CHUNK: usize = 64;

/// Most bytes taken from the frame source in one read.
pub const FRAME_CHUNK: usize = 1600;

/// Why a session ended other than in an orderly way.
#[derive(Clone, Copy, Debug, PartialEq, Eq, Structural)]
pub enum Fault {
    /// The wait for readiness itself failed.
    WaitFailed,
    /// Reading the console failed.
    ConsoleFailed,
    /// A line could not be written to the operator.
    OutputFailed,
    /// A write to the backend failed or took fewer bytes than it was given.
    ShortWrite,
    /// A read from the backend failed or gave fewer bytes than were due.
    ShortRead,
}

/// Where the session stands. `B` is the representation of byte strings:
/// `Vec<u8>` in running code, `Seq<u8>` in specifications.
#[derive(Clone, Debug, PartialEq, Eq)]
pub enum State<B> {
    /// At the top of the loop: the sample of the termination flag is awaited.
    AtTop,
    /// The bounded wait for readiness is in progress.
    Waiting,
    /// A read of the console is in progress.
    ReadingConsole,
    /// A read of the frame source is in progress.
    ReadingFrame,
    /// A failed read of the frame source is being logged.
    Logging,
    /// The length field of `payload` is being written to the backend.
    SendingLength { payload: B },
    /// A payload of `len` bytes is being written to the backend.
    SendingPayload { len: usize },
    /// The length field of the backend's answer is being read.
    ReceivingLength,
    /// The `due` bytes of the backend's answer are being read.
    ReceivingPayload { due: u32 },
    /// The backend's answer is being reported to the operator.
    Reporting,
    /// The prompt is being written.
    Prompting,
    /// The session is over. Nothing follows.
    Stopped,
}

/// What the driver is to do next.
#[derive(Clone, Debug, PartialEq, Eq)]
pub enum Action<B> {
    /// Read the termination flag. Answered by [`Event::Flag`].
    SampleFlag,
    /// Wait until the console or the frame source is ready, `millis`
    /// milliseconds at most. Answered by [`Event::Woke`].
    Wait { millis: i32 },
    /// Read up to `max` bytes from the console. Answered by [`Event::Read`].
    ReadConsole { max: usize },
    /// Read up to `max` bytes from the frame source. Answered by
    /// [`Event::Read`].
    ReadFrame { max: usize },
    /// Tell the operator that reading the frame source failed. Answered by
    /// [`Event::Shown`].
    LogReadFailure,
    /// Write `bytes` to the backend in one write. Answered by
    /// [`Event::Wrote`].
    Send { bytes: B },
    /// Read `count` bytes from the backend into a buffer of exactly that
    /// size. Answered by [`Event::Read`].
    Receive { count: usize },
    /// Tell the operator the backend's answer. Answered by [`Event::Shown`].
    Report { payload: B },
    /// Write the prompt and flush. Answered by [`Event::Shown`].
    Prompt,
    /// Leave the loop in good order.
    Exit,
    /// Leave the loop with a failure.
    Abort(Fault),
}

/// What came of the action that the driver performed.
#[derive(Clone, Debug, PartialEq, Eq)]
pub enum Event<B> {
    /// The termination flag, as sampled.
    Flag(bool),
    /// The wait returned `ready`: the number of sources that are ready, 0
    /// when the time elapsed or a signal cut the wait short, negative on
    /// failure. `console` and `frame` say which source is ready.
    Woke { ready: i32, console: bool, frame: bool },
    /// A read returned `count`; `data` holds the bytes that it stored.
    Read { count: isize, data: B },
    /// A write returned `count`.
    Wrote { count: isize },
    /// A line was written to the operator, or could not be.
    Shown(bool),
}

impl View for State<Vec<u8>> {
    type V = State<Seq<u8>>;

    open spec fn view(&self) -> State<Seq<u8>> {
        match *self {
            State::AtTop => State::AtTop,
            State::Waiting => State::Waiting,
            State::ReadingConsole => State::ReadingConsole,
            State::ReadingFrame => State::ReadingFrame,
            State::Logging => State::Logging,
            State::SendingLength { payload } => State::SendingLength { payload: payload@ },
            State::SendingPayload { len } => State::SendingPayload { len },
            State::ReceivingLength => State::ReceivingLength,
            State::ReceivingPayload { due } => State::ReceivingPayload { due },
            State::Reporting => State::Reporting,
            State::Prompting => State::Prompting,
            State::Stopped => State::Stopped,
        }
    }
}

impl View for Action<Vec<u8>> {
    type V = Action<Seq<u8>>;

    open spec fn view(&self) -> Action<Seq<u8>> {
        match *self {
            Action::SampleFlag => Action::SampleFlag,
            Action::Wait { millis } => Action::Wait { millis },
            Action::ReadConsole { max } => Action::ReadConsole { max },
            Action::ReadFrame { max } => Action::ReadFrame { max },
            Action::LogReadFailure => Action::LogReadFailure,
            Action::Send { bytes } => Action::Send { bytes: bytes@ },
            Action::Receive { count } => Action::Receive { count },
            Action::Report { payload } => Action::Report { payload: payload@ },
            Action::Prompt => Action::Prompt,
            Action::Exit => Action::Exit,
            Action::Abort(fault) => Action::Abort(fault),
        }
    }
}

impl View for Event<Vec<u8>> {
    type V = Event<Seq<u8>>;

    open spec fn view(&self) -> Event<Seq<u8>> {
        match *self {
            Event::Flag(set) => Event::Flag(set),
            Event::Woke { ready, console, frame } => Event::Woke { ready, console, frame },
            Event::Read { count, data } => Event::Read { count, data: data@ },
            Event::Wrote { count } => Event::Wrote { count },
            Event::Shown(ok) => Event::Shown(ok),
        }
    }
}

/// The first `n` bytes of `data`, or all of it where it has fewer.
pub open spec fn cut(data: Seq<u8>, n: nat) -> Seq<u8> {
    if n <= data.len() {
        data.take(n as int)
    } else {
        data
    }
}

/// The chunk that a read of at most `max` bytes delivered when it returned a
/// positive `count`: no more than was counted and no more than was asked.
pub open spec fn chunk(count: int, data: Seq<u8>, max: nat) -> Seq<u8>
    recommends
        count > 0,
{
    cut(
        data,
        if count <= max {
            count as nat
        } else {
            max
        },
    )
}

/// The session ends with `fault`.
pub open spec fn abort(fault: Fault) -> (State<Seq<u8>>, Action<Seq<u8>>) {
    (State::Stopped, Action::Abort(fault))
}

/// A chunk was obtained: its length field goes to the backend first.
pub open spec fn forward(message: Seq<u8>) -> (State<Seq<u8>>, Action<Seq<u8>>)
    recommends
        message.len() <= FRAME_CHUNK,
{
    (
        State::SendingLength { payload: message },
        Action::Send { bytes: length_field(message.len()) },
    )
}

/// The transition function of the loop: the state that follows `state` on
/// `event` and the next action, or `None` where `event` does not answer the
/// action that `state` awaits (in particular, always in `Stopped`).
pub open spec fn spec_step(state: State<Seq<u8>>, event: Event<Seq<u8>>) -> Option<
    (State<Seq<u8>>, Action<Seq<u8>>),
> {
    match (state, event) {
        (State::AtTop, Event::Flag(set)) => Some(
            if set {
                (State::Stopped, Action::Exit)
            } else {
                (State::Waiting, Action::Wait { millis: WAIT_MILLIS })
            },
        ),
        (State::Waiting, Event::Woke { ready, console, frame }) => Some(
            if ready < 0 {
                abort(Fault::WaitFailed)
            } else if ready == 0 {
                (State::AtTop, Action::SampleFlag)
            } else if console {
                (State::ReadingConsole, Action::ReadConsole { max: CONSOLE_CHUNK })
            } else if frame {
                (State::ReadingFrame, Action::ReadFrame { max: FRAME_CHUNK })
            } else {
                (State::Prompting, Action::Prompt)
            },
        ),
        (State::ReadingConsole, Event::Read { count, data }) => Some(
            if count < 0 {
                abort(Fault::ConsoleFailed)
            } else if count == 0 {
                (State::Stopped, Action::Exit)
            } else {
                forward(chunk(count as int, data, CONSOLE_CHUNK as nat))
            },
        ),
        (State::ReadingFrame, Event::Read { count, data }) => Some(
            if count <= 0 {
                (State::Logging, Action::LogReadFailure)
            } else {
                forward(chunk(count as int, data, FRAME_CHUNK as nat))
            },
        ),
        (State::Logging, Event::Shown(ok)) => Some(
            if ok {
                (State::AtTop, Action::SampleFlag)
            } else {
                abort(Fault::OutputFailed)
            },
        ),
        (State::SendingLength { payload }, Event::Wrote { count }) => Some(
            if count == 4 {
                (State::SendingPayload { len: payload.len() as usize }, Action::Send { bytes: payload })
            } else {
                abort(Fault::ShortWrite)
            },
        ),
        (State::SendingPayload { len }, Event::Wrote { count }) => Some(
            if count == len {
                (State::ReceivingLength, Action::Receive { count: 4 })
            } else {
                abort(Fault::ShortWrite)
            },
        ),
        (State::ReceivingLength, Event::Read { count, data }) => Some(
            if count == 4 && data.len() >= 4 {
                let due: u32 = declared_length(cut(data, 4)) as u32;
                (State::ReceivingPayload { due }, Action::Receive { count: due as usize })
            } else {
                abort(Fault::ShortRead)
            },
        ),
        (State::ReceivingPayload { due }, Event::Read { count, data }) => Some(
            if count == due && data.len() >= due {
                (State::Reporting, Action::Report { payload: cut(data, due as nat) })
            } else {
                abort(Fault::ShortRead)
            },
        ),
        (State::Reporting, Event::Shown(ok)) => Some(
            if ok {
                (State::Prompting, Action::Prompt)
            } else {
                abort(Fault::OutputFailed)
            },
        ),
        (State::Prompting, Event::Shown(ok)) => Some(
            if ok {
                (State::AtTop, Action::SampleFlag)
            } else {
                abort(Fault::OutputFailed)
            },
        ),
        _ => None,
    }
}

/// A transition as specifications see it.
pub open spec fn transition_view(
    transition: Option<(State<Vec<u8>>, Action<Vec<u8>>)>,
) -> Option<(State<Seq<u8>>, Action<Seq<u8>>)> {
    match transition {
        Some((state, action)) => Some((state@, action@)),
        None => None,
    }
}

/// The state in which a session begins and its first action: the loop is
/// running and samples the termination flag.
pub fn start() -> (begin: (State<Vec<u8>>, Action<Vec<u8>>))
    ensures
        begin.0@ == State::<Seq<u8>>::AtTop,
        begin.1@ == Action::<Seq<u8>>::SampleFlag,
{
    (State::AtTop, Action::SampleFlag)
}

/// Keeps of `data` what a read of at most `max` bytes that returned `count`
/// has delivered.
fn take_chunk(count: isize, data: Vec<u8>, max: usize) -> (message: Vec<u8>)
    requires
        count > 0,
    ensures
        message@ == chunk(count as int, data@, max as nat),
{
    let mut message = data;
    if count as usize <= max {
        message.truncate(count as usize);
    } else {
        message.truncate(max);
    }
    message
}

/// Begins the exchange with the backend for `message`.
fn begin_exchange(message: Vec<u8>) -> (next: (State<Vec<u8>>, Action<Vec<u8>>))
    requires
        message@.len() <= FRAME_CHUNK,
    ensures
        (next.0@, next.1@) == forward(message@),
{
    let field: [u8; 4] = length_bytes(message.len() as u32);
    let mut bytes: Vec<u8> = Vec::with_capacity(4);
    bytes.push(field[0]);
    bytes.push(field[1]);
    bytes.push(field[2]);
    bytes.push(field[3]);
    assert(bytes@ =~= length_field(message@.len()));
    (State::SendingLength { payload: message }, Action::Send { bytes })
}

/// One transition of the loop. The driver calls this with the state it holds
/// and the outcome of the action it was last given, performs the action that
/// comes back, and so on until the action is [`Action::Exit`] or
/// [`Action::Abort`]. `None` means that `event` is not an answer to the
/// action that `state` awaits; the state is then lost to the caller, who
/// broke the protocol.
pub fn step(state: State<Vec<u8>>, event: Event<Vec<u8>>) -> (next: Option<
    (State<Vec<u8>>, Action<Vec<u8>>),
>)
    ensures
        transition_view(next) == spec_step(state@, event@),
{
    match (state, event) {
        (State::AtTop, Event::Flag(set)) => {
            if set {
                Some((State::Stopped, Action::Exit))
            } else {
                Some((State::Waiting, Action::Wait { millis: WAIT_MILLIS }))
            }
        },
        (State::Waiting, Event::Woke { ready, console, frame }) => {
            if ready < 0 {
                Some((State::Stopped, Action::Abort(Fault::WaitFailed)))
            } else if ready == 0 {
                Some((State::AtTop, Action::SampleFlag))
            } else if console {
                Some((State::ReadingConsole, Action::ReadConsole { max: CONSOLE_CHUNK }))
            } else if frame {
                Some((State::ReadingFrame, Action::ReadFrame { max: FRAME_CHUNK }))
            } else {
                Some((State::Prompting, Action::Prompt))
            }
        },
        (State::ReadingConsole, Event::Read { count, data }) => {
            if count < 0 {
                Some((State::Stopped, Action::Abort(Fault::ConsoleFailed)))
            } else if count == 0 {
                Some((State::Stopped, Action::Exit))
            } else {
                Some(begin_exchange(take_chunk(count, data, CONSOLE_CHUNK)))
            }
        },
        (State::ReadingFrame, Event::Read { count, data }) => {
            if count <= 0 {
                Some((State::Logging, Action::LogReadFailure))
            } else {
                Some(begin_exchange(take_chunk(count, data, FRAME_CHUNK)))
            }
        },
        (State::Logging, Event::Shown(ok)) => {
            if ok {
                Some((State::AtTop, Action::SampleFlag))
            } else {
                Some((State::Stopped, Action::Abort(Fault::OutputFailed)))
            }
        },
        (State::SendingLength { payload }, Event::Wrote { count }) => {
            if count == 4 {
                let len: usize = payload.len();
                Some((State::SendingPayload { len }, Action::Send { bytes: payload }))
            } else {
                Some((State::Stopped, Action::Abort(Fault::ShortWrite)))
            }
        },
        (State::SendingPayload { len }, Event::Wrote { count }) => {
            if count >= 0 && count as usize == len {
                Some((State::ReceivingLength, Action::Receive { count: 4 }))
            } else {
                Some((State::Stopped, Action::Abort(Fault::ShortWrite)))
            }
        },
        (State::ReceivingLength, Event::Read { count, data }) => {
            if count == 4 && data.len() >= 4 {
                let field: [u8; 4] = [data[0], data[1], data[2], data[3]];
                assert(field@ =~= cut(data@, 4));
                let due: u32 = decode_length(&field);
                Some((State::ReceivingPayload { due }, Action::Receive { count: due as usize }))
            } else {
                Some((State::Stopped, Action::Abort(Fault::ShortRead)))
            }
        },
        (State::ReceivingPayload { due }, Event::Read { count, data }) => {
            if count >= 0 && count as usize == due as usize && data.len() >= due as usize {
                let mut payload = data;
                payload.truncate(due as usize);
                Some((State::Reporting, Action::Report { payload }))
            } else {
                Some((State::Stopped, Action::Abort(Fault::ShortRead)))
            }
        },
        (State::Reporting, Event::Shown(ok)) => {
            if ok {
                Some((State::Prompting, Action::Prompt))
            } else {
                Some((State::Stopped, Action::Abort(Fault::OutputFailed)))
            }
        },
        (State::Prompting, Event::Shown(ok)) => {
            if ok {
                Some((State::AtTop, Action::SampleFlag))
            } else {
                Some((State::Stopped, Action::Abort(Fault::OutputFailed)))
            }
        },
        _ => None,
    }
}

/// How many answers a running session is from the top of the loop, at most.
pub open spec fn distance_to_top(state: State<Seq<u8>>) -> nat {
    match state {
        State::AtTop => 0,
        State::Prompting => 1,
        State::Logging => 1,
        State::Reporting => 2,
        State::ReceivingPayload { .. } => 3,
        State::ReceivingLength => 4,
        State::SendingPayload { .. } => 5,
        State::SendingLength { .. } => 6,
        State::ReadingConsole => 7,
        State::ReadingFrame => 7,
        State::Waiting => 8,
        State::Stopped => 0,
    }
}

/// The transition to `state` with `action`.
pub open spec fn goes_to(state: State<Seq<u8>>, action: Action<Seq<u8>>) -> Option<
    (State<Seq<u8>>, Action<Seq<u8>>),
> {
    Some((state, action))
}

/// A set termination flag ends the session where it is sampled: at the top of
/// the loop the machine takes the flag and nothing else, so no readiness of
/// either source and no pending input can come before it, and on a set flag
/// the next state is `Stopped` and the action `Exit`, with no further
/// operation on any descriptor.
pub proof fn lemma_set_flag_stops(event: Event<Seq<u8>>)
    ensures
        spec_step(State::AtTop, Event::Flag(true)) == goes_to(State::Stopped, Action::Exit),
        spec_step(State::AtTop, event) is Some ==> event is Flag,
{
}

/// The flag is sampled again after the operations of one iteration at most:
/// every transition out of a state below the top of the loop either ends the
/// session or moves strictly closer to the top.
pub proof fn lemma_iteration_returns_to_top(state: State<Seq<u8>>, event: Event<Seq<u8>>)
    requires
        state != State::<Seq<u8>>::AtTop,
        spec_step(state, event) is Some,
    ensures
        spec_step(state, event).unwrap().0 == State::<Seq<u8>>::Stopped || distance_to_top(
            spec_step(state, event).unwrap().0,
        ) < distance_to_top(state),
{
}

/// The only wait that the machine ever asks for is the one at the top of the
/// loop after an unset flag, and it is bounded by `WAIT_MILLIS`.
pub proof fn lemma_wait_is_bounded(state: State<Seq<u8>>, event: Event<Seq<u8>>)
    requires
        spec_step(state, event) is Some,
        spec_step(state, event).unwrap().1 is Wait,
    ensures
        state == State::<Seq<u8>>::AtTop,
        event == Event::<Seq<u8>>::Flag(false),
        spec_step(state, event) == goes_to(State::Waiting, Action::Wait { millis: WAIT_MILLIS }),
{
}

/// A wait that elapses with nothing ready is no error; the loop goes back to
/// the top and samples the flag.
pub proof fn lemma_idle_wait_returns_to_top(console: bool, frame: bool)
    ensures
        spec_step(State::Waiting, Event::Woke { ready: 0, console, frame }) == goes_to(
            State::AtTop,
            Action::SampleFlag,
        ),
{
}

/// When both sources are ready the console is read, not the frame source.
pub proof fn lemma_console_comes_first(ready: i32, frame: bool)
    requires
        ready > 0,
    ensures
        spec_step(State::Waiting, Event::Woke { ready, console: true, frame }) == goes_to(
            State::ReadingConsole,
            Action::ReadConsole { max: CONSOLE_CHUNK },
        ),
{
}

/// A read of the frame source that returns zero or less never ends the
/// session and forwards nothing: it is logged, and the loop goes on from the
/// top.
pub proof fn lemma_failed_frame_read_is_transient(count: isize, data: Seq<u8>)
    requires
        count <= 0,
    ensures
        spec_step(State::ReadingFrame, Event::Read { count, data }) == goes_to(
            State::Logging,
            Action::LogReadFailure,
        ),
        spec_step(State::Logging, Event::Shown(true)) == goes_to(State::AtTop, Action::SampleFlag),
{
}

/// A read of the console that returns exactly zero bytes always ends the
/// session, in good order.
pub proof fn lemma_console_end_stops(data: Seq<u8>)
    ensures
        spec_step(State::ReadingConsole, Event::Read { count: 0, data }) == goes_to(
            State::Stopped,
            Action::Exit,
        ),
{
}

/// Every message that the loop forwards is a chunk of at most `max` bytes, so
/// its length always fits the length field; and it is the start of what the
/// read stored.
pub proof fn lemma_chunk_is_bounded(count: int, data: Seq<u8>, max: nat)
    requires
        count > 0,
    ensures
        chunk(count, data, max).len() <= max,
        chunk(count, data, max).len() <= count,
        chunk(count, data, max).len() <= data.len(),
        chunk(count, data, max) == data.take(chunk(count, data, max).len() as int),
        count <= max && count <= data.len() ==> chunk(count, data, max) == data.take(count),
{
}

/// A chunk goes to the backend as the wire format has it, in two writes:
/// its length field, which declares the chunk's length exactly, then the
/// chunk itself. The backend's length field is awaited only after both
/// writes took all their bytes.
pub proof fn lemma_chunk_is_sent_framed(message: Seq<u8>)
    requires
        message.len() <= FRAME_CHUNK,
    ensures
        forward(message) == (
            State::SendingLength { payload: message },
            Action::Send { bytes: length_field(message.len()) },
        ),
        spec_step(State::SendingLength { payload: message }, Event::Wrote { count: 4 }) == goes_to(
            State::SendingPayload { len: message.len() as usize },
            Action::Send { bytes: message },
        ),
        spec_step(
            State::SendingPayload { len: message.len() as usize },
            Event::Wrote { count: message.len() as isize },
        ) == goes_to(State::ReceivingLength, Action::Receive { count: 4 }),
        length_field(message.len()) + message == encoded(message),
        declared_length(length_field(message.len())) == message.len(),
{
    lemma_length_round_trip(message.len());
}

/// An answer that the backend sends in the wire format, read as its length
/// field and then its payload, is reported to the operator exactly as sent.
pub proof fn lemma_answer_is_reported(payload: Seq<u8>)
    requires
        payload.len() <= MAX_PAYLOAD,
        payload.len() <= isize::MAX,
    ensures
        spec_step(
            State::ReceivingLength,
            Event::Read { count: 4, data: length_field(payload.len()) },
        ) == goes_to(
            State::ReceivingPayload { due: payload.len() as u32 },
            Action::Receive { count: payload.len() as usize },
        ),
        spec_step(
            State::ReceivingPayload { due: payload.len() as u32 },
            Event::Read { count: payload.len() as isize, data: payload },
        ) == goes_to(State::Reporting, Action::Report { payload }),
{
    lemma_length_round_trip(payload.len());
    assert(cut(length_field(payload.len()), 4) =~= length_field(payload.len()));
    assert(cut(payload, payload.len()) =~= payload);
}

/// A short or failed transfer on the backend connection ends the session: the
/// framing cannot be trusted after a partial transfer.
pub proof fn lemma_short_transfer_is_fatal(state: State<Seq<u8>>, count: isize, data: Seq<u8>)
    ensures
        (state matches State::SendingLength { .. } && count != 4) ==> spec_step(
            state,
            Event::Wrote { count },
        ) == Some(abort(Fault::ShortWrite)),
        (state matches State::SendingPayload { len } && count != len) ==> spec_step(
            state,
            Event::Wrote { count },
        ) == Some(abort(Fault::ShortWrite)),
        (state == State::<Seq<u8>>::ReceivingLength && count != 4) ==> spec_step(
            state,
            Event::Read { count, data },
        ) == Some(abort(Fault::ShortRead)),
        (state matches State::ReceivingPayload { due } && count != due) ==> spec_step(
            state,
            Event::Read { count, data },
        ) == Some(abort(Fault::ShortRead)),
{
}

/// Nothing follows `Stopped`.
pub proof fn lemma_stopped_is_final(event: Event<Seq<u8>>)
    ensures
        spec_step(State::Stopped, event) is None,
{
}

} // verus!
