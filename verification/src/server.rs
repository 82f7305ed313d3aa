//! The decisions of the demo server: opening a socket, routing client frames
//! to the session, and the session loop's input, resize and frame cadence.
//! The socket, the channels, the runtime session and the clock stay with the
//! caller, which performs what these functions decide.
use crate::base64::{base64, decoded};
use crate::wire::{ClientMessage, ServerMessage, VERSION};
use vstd::prelude::*;

verus! {

/// Microseconds between rendered frames. Output arrives in bursts far faster
/// than a display can use, so the terminal is fed as fast as bytes appear but
/// only projected on this cadence.
pub const FRAME_INTERVAL_US: u64 = 16_000;

/// Most history rows one request may ask for.
pub const HISTORY_ROWS_LIMIT: u16 = 500;

/// A client request for the session thread.
#[derive(Debug)]
pub enum Command {
    Input(Vec<u8>),
    Resize { cols: u16, rows: u16 },
    History { start: u64, count: u16 },
}

/// What the first frame of a socket decides.
#[derive(Debug, PartialEq, Eq)]
pub enum Opening {
    /// A `hello` of this version: start a session of this geometry.
    Start { cols: u16, rows: u16 },
    /// A message of another version: answer with this error, then close.
    Unsupported { version: u32 },
    /// Anything else: close without guessing.
    Close,
}

/// The first text frame of a socket, already parsed (`None` if it was not a
/// client message). The first message must establish the geometry.
pub fn open_session(message: Option<&ClientMessage>) -> (opening: Opening)
    ensures
        match message {
            None => opening == Opening::Close,
            Some(m) => if m.spec_version() != VERSION {
                opening == Opening::Unsupported { version: m.spec_version() }
            } else {
                match m {
                    ClientMessage::Hello { cols, rows, .. } => opening == Opening::Start {
                        cols: *cols,
                        rows: *rows,
                    },
                    _ => opening == Opening::Close,
                }
            },
        },
{
    match message {
        None => Opening::Close,
        Some(message) => {
            let version = message.version();
            if version != VERSION {
                return Opening::Unsupported { version };
            }
            match message {
                ClientMessage::Hello { cols, rows, .. } => Opening::Start { cols: *cols, rows: *rows },
                _ => Opening::Close,
            }
        },
    }
}

/// What a later client frame becomes.
#[derive(Debug)]
pub enum Routing {
    /// Hand this command to the session.
    Forward(Command),
    /// Nothing to do for this frame.
    Skip,
    /// The client changed protocol version: stop serving it.
    Stop,
}

/// Route one parsed client frame. Input arrives base64-encoded; a repeated
/// `hello` is ignored.
pub fn route(message: ClientMessage) -> (routing: Routing)
    ensures
        message.spec_version() != VERSION ==> routing is Stop,
        message.spec_version() == VERSION ==> match message {
            ClientMessage::Hello { .. } => routing is Skip,
            ClientMessage::Input { data, .. } => match routing {
                Routing::Forward(Command::Input(bytes)) => bytes@ == decoded(vstd::utf8::encode_utf8(data@)),
                _ => false,
            },
            ClientMessage::Resize { cols, rows, .. } => match routing {
                Routing::Forward(Command::Resize { cols: c, rows: r }) => c == cols && r == rows,
                _ => false,
            },
            ClientMessage::History { start, count, .. } => match routing {
                Routing::Forward(Command::History { start: s, count: n }) => s == start && n
                    == count,
                _ => false,
            },
        },
{
    if message.version() != VERSION {
        return Routing::Stop;
    }
    match message {
        ClientMessage::Hello { .. } => Routing::Skip,
        ClientMessage::Input { data, .. } => Routing::Forward(Command::Input(base64(data.as_str()))),
        ClientMessage::Resize { cols, rows, .. } => Routing::Forward(Command::Resize { cols, rows }),
        ClientMessage::History { start, count, .. } => Routing::Forward(
            Command::History { start, count },
        ),
    }
}

/// Whether a message ends the socket once sent: an exit or an error.
pub fn ends_socket(message: &ServerMessage) -> (ends: bool)
    ensures
        ends == (message is Exit || message is Error),
{
    match message {
        ServerMessage::Exit { .. } => true,
        ServerMessage::Error { .. } => true,
        _ => false,
    }
}

/// History rows actually requested for a client's `count`.
pub fn history_rows(count: u16) -> (rows: u16)
    ensures
        rows == if count < HISTORY_ROWS_LIMIT {
            count
        } else {
            HISTORY_ROWS_LIMIT
        },
{
    if count < HISTORY_ROWS_LIMIT {
        count
    } else {
        HISTORY_ROWS_LIMIT
    }
}

/// The session loop between iterations: input waiting to be written, whether
/// a write or resize is outstanding, the last resize generation, whether the
/// projection is stale, when the next frame may be drawn, and the child's exit.
pub struct SessionLoop {
    pending_input: Vec<u8>,
    writing: bool,
    resizing: bool,
    generation: u64,
    dirty: bool,
    next_frame_us: u64,
    exited: Option<Option<i32>>,
}

/// The session loop as a mathematical value.
pub struct SessionLoopView {
    pub pending_input: Seq<u8>,
    pub writing: bool,
    pub resizing: bool,
    pub generation: u64,
    pub dirty: bool,
    pub next_frame_us: u64,
    pub exited: Option<Option<i32>>,
}

impl View for SessionLoop {
    type V = SessionLoopView;

    closed spec fn view(&self) -> SessionLoopView {
        SessionLoopView {
            pending_input: self.pending_input@,
            writing: self.writing,
            resizing: self.resizing,
            generation: self.generation,
            dirty: self.dirty,
            next_frame_us: self.next_frame_us,
            exited: self.exited,
        }
    }
}

/// Whether a frame is drawn at `now_us`: always once the child has exited, so
/// its last output is never left undrawn; otherwise only when something is
/// stale and the cadence allows.
pub open spec fn frame_due_spec(state: SessionLoopView, now_us: u64) -> bool {
    state.exited is Some || (state.dirty && now_us >= state.next_frame_us)
}

/// The state after a write is taken: nothing pending, and a write outstanding.
/// A write is taken only when none is outstanding and input is waiting.
pub open spec fn take_write_spec(state: SessionLoopView) -> (SessionLoopView, Option<Seq<u8>>) {
    if !state.writing && state.pending_input.len() > 0 {
        (
            SessionLoopView { pending_input: Seq::empty(), writing: true, ..state },
            Some(state.pending_input),
        )
    } else {
        (state, None)
    }
}

impl SessionLoop {
    /// A fresh loop at `now_us`: nothing pending, generation zero, and a frame owed.
    pub fn new(now_us: u64) -> (session: Self)
        ensures
            session@ == (SessionLoopView {
                pending_input: Seq::empty(),
                writing: false,
                resizing: false,
                generation: 0,
                dirty: true,
                next_frame_us: now_us,
                exited: None,
            }),
    {
        SessionLoop {
            pending_input: Vec::new(),
            writing: false,
            resizing: false,
            generation: 0,
            dirty: true,
            next_frame_us: now_us,
            exited: None,
        }
    }

    /// Queue client keystrokes. Only one write may be in flight, so input is
    /// queued rather than dropped: typing faster than the child reads loses nothing.
    pub fn queue_input(&mut self, bytes: Vec<u8>)
        ensures
            final(self)@ == (SessionLoopView {
                pending_input: old(self)@.pending_input + bytes@,
                ..old(self)@
            }),
    {
        let mut bytes = bytes;
        self.pending_input.append(&mut bytes);
    }

    /// Everything queued, as one write, if no write is outstanding.
    pub fn take_write(&mut self) -> (write: Option<Vec<u8>>)
        ensures
            (final(self)@, match write {
                Some(bytes) => Some(bytes@),
                None => None,
            }) == take_write_spec(old(self)@),
    {
        if self.writing || self.pending_input.len() == 0 {
            return None;
        }
        let mut bytes: Vec<u8> = Vec::new();
        std::mem::swap(&mut bytes, &mut self.pending_input);
        self.writing = true;
        Some(bytes)
    }

    /// The outstanding write completed.
    pub fn write_finished(&mut self)
        ensures
            final(self)@ == (SessionLoopView { writing: false, ..old(self)@ }),
    {
        self.writing = false;
    }

    /// A client resize: the next control generation, a resize now outstanding,
    /// and a projection owed immediately so the old geometry does not linger.
    pub fn begin_resize(&mut self) -> (generation: u64)
        requires
            old(self)@.generation < u64::MAX,
        ensures
            generation == old(self)@.generation + 1,
            final(self)@ == (SessionLoopView {
                generation,
                resizing: true,
                dirty: true,
                ..old(self)@
            }),
    {
        self.generation = self.generation + 1;
        self.resizing = true;
        self.dirty = true;
        self.generation
    }

    /// The outstanding OS resize completed.
    pub fn resize_finished(&mut self)
        ensures
            final(self)@ == (SessionLoopView { resizing: false, ..old(self)@ }),
    {
        self.resizing = false;
    }

    /// The last control generation handed out.
    pub fn generation(&self) -> (generation: u64)
        ensures
            generation == self@.generation,
    {
        self.generation
    }

    /// Whether a write or resize is outstanding.
    pub fn outstanding(&self) -> (writing_or_resizing: (bool, bool))
        ensures
            writing_or_resizing == (self@.writing, self@.resizing),
    {
        (self.writing, self.resizing)
    }

    /// Output was fed to the terminal this iteration (or not). Anything fed
    /// leaves the projection stale until a frame actually goes out.
    pub fn output_fed(&mut self, fed: bool)
        ensures
            final(self)@ == (SessionLoopView { dirty: old(self)@.dirty || fed, ..old(self)@ }),
    {
        self.dirty = self.dirty || fed;
    }

    /// The child completed with this exit code, if it had one.
    pub fn child_exited(&mut self, status: Option<i32>)
        ensures
            final(self)@ == (SessionLoopView { exited: Some(status), ..old(self)@ }),
    {
        self.exited = Some(status);
    }

    /// Whether to project a frame at `now_us`; when it is due, the next one is
    /// scheduled a frame interval later.
    pub fn frame_due(&mut self, now_us: u64) -> (due: bool)
        ensures
            due == frame_due_spec(old(self)@, now_us),
            due ==> final(self)@ == (SessionLoopView {
                next_frame_us: now_us.saturating_add(FRAME_INTERVAL_US),
                ..old(self)@
            }),
            !due ==> final(self)@ == old(self)@,
    {
        let due = self.exited.is_some() || (self.dirty && now_us >= self.next_frame_us);
        if due {
            self.next_frame_us = now_us.saturating_add(FRAME_INTERVAL_US);
        }
        due
    }

    /// The frame went out: the projection is no longer stale.
    pub fn frame_projected(&mut self)
        ensures
            final(self)@ == (SessionLoopView { dirty: false, ..old(self)@ }),
    {
        self.dirty = false;
    }

    /// The child's exit, once reported; the loop ends after sending it.
    pub fn exit_status(&self) -> (exited: Option<Option<i32>>)
        ensures
            exited == self@.exited,
    {
        self.exited
    }

    /// How long to sleep when nothing arrived and nothing is owed: a short nap
    /// while a frame is still pending, a longer one otherwise; `None` means
    /// there is work and the loop should not sleep.
    pub fn idle_sleep_ms(&self, fed: bool) -> (sleep: Option<u64>)
        ensures
            sleep == if !fed && !self@.writing && self@.pending_input.len() == 0 {
                Some(if self@.dirty {
                    1u64
                } else {
                    4u64
                })
            } else {
                None
            },
    {
        if !fed && !self.writing && self.pending_input.len() == 0 {
            Some(if self.dirty {
                1
            } else {
                4
            })
        } else {
            None
        }
    }
}

/// One step of the input path: client bytes queued, a write taken, or the
/// outstanding write finished.
pub enum InputStep {
    Queue(Seq<u8>),
    Take,
    Finish,
}

/// The input path over a run of steps from `state`: the bytes handed to
/// writes, in order, and the state afterwards.
pub open spec fn run_input(state: SessionLoopView, steps: Seq<InputStep>) -> (Seq<u8>, SessionLoopView)
    decreases steps.len(),
{
    if steps.len() == 0 {
        (Seq::empty(), state)
    } else {
        let (written, before) = run_input(state, steps.drop_last());
        match steps.last() {
            InputStep::Queue(bytes) => (
                written,
                SessionLoopView { pending_input: before.pending_input + bytes, ..before },
            ),
            InputStep::Take => {
                let (after, taken) = take_write_spec(before);
                match taken {
                    Some(bytes) => (written + bytes, after),
                    None => (written, after),
                }
            },
            InputStep::Finish => (written, SessionLoopView { writing: false, ..before }),
        }
    }
}

/// All bytes queued by a run of steps, in order.
pub open spec fn queued_bytes(steps: Seq<InputStep>) -> Seq<u8>
    decreases steps.len(),
{
    if steps.len() == 0 {
        Seq::empty()
    } else {
        match steps.last() {
            InputStep::Queue(bytes) => queued_bytes(steps.drop_last()) + bytes,
            _ => queued_bytes(steps.drop_last()),
        }
    }
}

/// Keystrokes are never lost or reordered: whatever has been written, followed
/// by what is still pending, is exactly what was pending before followed by
/// everything queued since.
pub proof fn input_is_written_in_order_without_loss(state: SessionLoopView, steps: Seq<InputStep>)
    ensures
        ({
            let (written, after) = run_input(state, steps);
            written + after.pending_input == state.pending_input + queued_bytes(steps)
        }),
    decreases steps.len(),
{
    if steps.len() > 0 {
        input_is_written_in_order_without_loss(state, steps.drop_last());
        let (written, before) = run_input(state, steps.drop_last());
        match steps.last() {
            InputStep::Queue(bytes) => {
                assert(written + (before.pending_input + bytes) =~= (written + before.pending_input)
                    + bytes);
                assert(state.pending_input + (queued_bytes(steps.drop_last()) + bytes) =~= (
                state.pending_input + queued_bytes(steps.drop_last())) + bytes);
            },
            InputStep::Take => {
                let (after, taken) = take_write_spec(before);
                if taken is Some {
                    assert(written + before.pending_input + Seq::<u8>::empty() =~= written
                        + before.pending_input);
                }
            },
            InputStep::Finish => {},
        }
    }
}

/// At most one write is ever outstanding: a write is only taken when none is.
pub proof fn one_write_at_a_time(state: SessionLoopView)
    requires
        state.writing,
    ensures
        take_write_spec(state) == (state, None::<Seq<u8>>),
{
}

/// While the child runs, frames are at least one frame interval apart: once a
/// frame is drawn at `now_us`, none is due again before `now_us` plus the interval.
pub proof fn frames_respect_the_cadence(state: SessionLoopView, now_us: u64, later_us: u64)
    requires
        state.exited is None,
        now_us <= u64::MAX - FRAME_INTERVAL_US,
        later_us < now_us + FRAME_INTERVAL_US,
    ensures
        !frame_due_spec(
            SessionLoopView { next_frame_us: now_us.saturating_add(FRAME_INTERVAL_US), ..state },
            later_us,
        ),
{
}

/// Once the child has exited, a frame is always due, so its last output is drawn.
pub proof fn exit_always_draws(state: SessionLoopView, now_us: u64)
    requires
        state.exited is Some,
    ensures
        frame_due_spec(state, now_us),
{
}

} // verus!
