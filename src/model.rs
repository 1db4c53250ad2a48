//! The abstract state of the session registry and the effect of each operation
//! on it. Every operation of `TerminalManager` is proved to act exactly as the
//! step function of the same name here.

use vstd::prelude::*;
use vstd::utf8::*;

verus! {

/// Terminal dimensions in character cells.
#[derive(Clone, Copy, Debug, PartialEq, Eq, Structural)]
pub struct PtySize {
    pub rows: u16,
    pub cols: u16,
}

pub const DEFAULT_ROWS: u16 = 24;

pub const DEFAULT_COLS: u16 = 80;

/// The size a newly opened pseudo-terminal gets: 24 rows by 80 columns.
pub open spec fn default_size() -> PtySize {
    PtySize { rows: DEFAULT_ROWS, cols: DEFAULT_COLS }
}

/// What can go wrong in a session operation.
#[derive(Clone, Debug, PartialEq, Eq)]
pub enum TerminalError {
    /// The segment id names no live session.
    SessionNotFound,
    /// The operating system refused to allocate a pseudo-terminal.
    PtyOpenError(String),
    /// The shell could not be launched; the session stays usable for a retry.
    SpawnFailure(String),
    /// A write, read or resize failed against the operating system.
    IoError(String),
    /// The buffered output is not (yet) valid UTF-8; nothing was consumed.
    InvalidEncoding,
}

/// One session as the registry sees it.
pub struct SessionView<H> {
    /// The native handles of the session, opaque to the registry.
    pub pty: H,
    /// Whether the shell has been launched; never reverts to false.
    pub spawned: bool,
    /// Whether the read side reached end of stream (the shell exited).
    pub exited: bool,
    /// The last size requested for the pseudo-terminal.
    pub size: PtySize,
    /// Bytes produced by the shell that the client has not read yet.
    pub output: Seq<u8>,
    /// Bytes written by the client that have not been handed to the shell yet.
    pub input: Seq<u8>,
}

/// What a poll of a session's output yields.
pub enum ReadView {
    Data(Seq<char>),
    NoData,
    Exited,
}

/// The registry: segment id to session.
pub type Sessions<H> = Map<Seq<char>, SessionView<H>>;

pub open spec fn fresh_session<H>(pty: H) -> SessionView<H> {
    SessionView {
        pty,
        spawned: false,
        exited: false,
        size: default_size(),
        output: Seq::empty(),
        input: Seq::empty(),
    }
}

/// A pseudo-terminal must be opened for `id` exactly when no session holds it.
pub open spec fn open_request_step<H>(m: Sessions<H>, id: Seq<char>) -> Option<PtySize> {
    if m.contains_key(id) {
        None
    } else {
        Some(default_size())
    }
}

/// Creation is idempotent: an existing session is kept and the new handles
/// are not stored. Otherwise a failed open is reported and a successful one
/// becomes a fresh, unspawned session.
pub open spec fn create_step<H>(m: Sessions<H>, id: Seq<char>, opened: Result<H, String>) -> (
    Sessions<H>,
    Result<(), TerminalError>,
) {
    if m.contains_key(id) {
        (m, Ok(()))
    } else {
        match opened {
            Ok(pty) => (m.insert(id, fresh_session(pty)), Ok(())),
            Err(e) => (m, Err(TerminalError::PtyOpenError(e))),
        }
    }
}

/// `Ok(true)` when the shell still has to be launched, `Ok(false)` when it runs.
pub open spec fn spawn_request_step<H>(m: Sessions<H>, id: Seq<char>) -> Result<
    bool,
    TerminalError,
> {
    if !m.contains_key(id) {
        Err(TerminalError::SessionNotFound)
    } else {
        Ok(!m[id].spawned)
    }
}

/// Records the outcome of a launch: only a successful one sets `spawned`.
pub open spec fn spawn_finished_step<H>(
    m: Sessions<H>,
    id: Seq<char>,
    launched: Result<(), String>,
) -> (Sessions<H>, Result<(), TerminalError>) {
    if !m.contains_key(id) {
        (m, Err(TerminalError::SessionNotFound))
    } else {
        match launched {
            Ok(()) => (m.insert(id, SessionView { spawned: true, ..m[id] }), Ok(())),
            Err(e) => (m, Err(TerminalError::SpawnFailure(e))),
        }
    }
}

/// Client bytes are queued for the shell behind those queued before.
pub open spec fn write_step<H>(m: Sessions<H>, id: Seq<char>, bytes: Seq<u8>) -> (
    Sessions<H>,
    Result<(), TerminalError>,
) {
    if !m.contains_key(id) {
        (m, Err(TerminalError::SessionNotFound))
    } else {
        (m.insert(id, SessionView { input: m[id].input + bytes, ..m[id] }), Ok(()))
    }
}

/// Hands over everything queued for the shell, oldest first, and empties the queue.
pub open spec fn take_input_step<H>(m: Sessions<H>, id: Seq<char>) -> (
    Sessions<H>,
    Result<Seq<u8>, TerminalError>,
) {
    if !m.contains_key(id) {
        (m, Err(TerminalError::SessionNotFound))
    } else {
        (m.insert(id, SessionView { input: Seq::empty(), ..m[id] }), Ok(m[id].input))
    }
}

/// Bytes read from the shell are appended to the session's pending output.
pub open spec fn feed_step<H>(m: Sessions<H>, id: Seq<char>, bytes: Seq<u8>) -> (
    Sessions<H>,
    Result<(), TerminalError>,
) {
    if !m.contains_key(id) {
        (m, Err(TerminalError::SessionNotFound))
    } else {
        (m.insert(id, SessionView { output: m[id].output + bytes, ..m[id] }), Ok(()))
    }
}

/// The read side reached end of stream.
pub open spec fn exit_step<H>(m: Sessions<H>, id: Seq<char>) -> (
    Sessions<H>,
    Result<(), TerminalError>,
) {
    if !m.contains_key(id) {
        (m, Err(TerminalError::SessionNotFound))
    } else {
        (m.insert(id, SessionView { exited: true, ..m[id] }), Ok(()))
    }
}

/// A poll never blocks. Pending output that is valid UTF-8 is delivered whole
/// and consumed; pending output that is not is left in place and flagged; with
/// nothing pending the poll says whether the shell has exited.
pub open spec fn read_step<H>(m: Sessions<H>, id: Seq<char>) -> (
    Sessions<H>,
    Result<ReadView, TerminalError>,
) {
    if !m.contains_key(id) {
        (m, Err(TerminalError::SessionNotFound))
    } else if m[id].output.len() == 0 {
        (m, Ok(if m[id].exited { ReadView::Exited } else { ReadView::NoData }))
    } else if valid_utf8(m[id].output) {
        (
            m.insert(id, SessionView { output: Seq::empty(), ..m[id] }),
            Ok(ReadView::Data(decode_utf8(m[id].output))),
        )
    } else {
        (m, Err(TerminalError::InvalidEncoding))
    }
}

/// Records new dimensions and returns them for the native pseudo-terminal.
pub open spec fn resize_step<H>(m: Sessions<H>, id: Seq<char>, rows: u16, cols: u16) -> (
    Sessions<H>,
    Result<PtySize, TerminalError>,
) {
    if !m.contains_key(id) {
        (m, Err(TerminalError::SessionNotFound))
    } else {
        let size = PtySize { rows, cols };
        (m.insert(id, SessionView { size, ..m[id] }), Ok(size))
    }
}

/// Closing removes the session, whether or not it existed.
pub open spec fn close_step<H>(m: Sessions<H>, id: Seq<char>) -> Sessions<H> {
    m.remove(id)
}

} // verus!
