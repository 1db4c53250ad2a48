//! The session registry: the single authority on which segment ids have a
//! live pseudo-terminal session, and the owner of each session's state.

use vstd::prelude::*;
use vstd::utf8::*;

use vstd::string::StrSliceExecFns;

use crate::model::{
    close_step, create_step, exit_step, feed_step, fresh_session, open_request_step, read_step,
    resize_step, spawn_finished_step, spawn_request_step, take_input_step, write_step, PtySize,
    ReadView, SessionView, Sessions, TerminalError, DEFAULT_COLS, DEFAULT_ROWS,
};
use crate::text::text_from_utf8;

verus! {

/// One pseudo-terminal session. `H` holds the native handles (the
/// pseudo-terminal pair, its reader and writer, the child process).
pub struct TerminalSession<H> {
    segment_id: String,
    pty: H,
    spawned: bool,
    exited: bool,
    size: PtySize,
    output: Vec<u8>,
    input: Vec<u8>,
}

impl<H> View for TerminalSession<H> {
    type V = SessionView<H>;

    closed spec fn view(&self) -> SessionView<H> {
        SessionView {
            pty: self.pty,
            spawned: self.spawned,
            exited: self.exited,
            size: self.size,
            output: self.output@,
            input: self.input@,
        }
    }
}

impl<H> TerminalSession<H> {
    pub closed spec fn id(&self) -> Seq<char> {
        self.segment_id@
    }

    pub fn segment_id(&self) -> (r: &String)
        ensures
            r@ == self.id(),
    {
        &self.segment_id
    }

    pub fn pty(&self) -> (r: &H)
        ensures
            *r == self@.pty,
    {
        &self.pty
    }

    pub fn into_pty(self) -> (r: H)
        ensures
            r == self@.pty,
    {
        self.pty
    }

    pub fn is_spawned(&self) -> (r: bool)
        ensures
            r == self@.spawned,
    {
        self.spawned
    }

    pub fn size(&self) -> (r: PtySize)
        ensures
            r == self@.size,
    {
        self.size
    }
}

/// The result of polling a session's output.
#[derive(Debug, PartialEq, Eq)]
pub enum ReadOutcome {
    /// Text the shell produced since the previous poll.
    Data(String),
    /// Nothing new yet.
    NoData,
    /// The shell exited and all its output has been read.
    Exited,
}

pub open spec fn read_outcome_view(r: Result<ReadOutcome, TerminalError>) -> Result<
    ReadView,
    TerminalError,
> {
    match r {
        Ok(ReadOutcome::Data(s)) => Ok(ReadView::Data(s@)),
        Ok(ReadOutcome::NoData) => Ok(ReadView::NoData),
        Ok(ReadOutcome::Exited) => Ok(ReadView::Exited),
        Err(e) => Err(e),
    }
}

pub open spec fn bytes_view(r: Result<Vec<u8>, TerminalError>) -> Result<Seq<u8>, TerminalError> {
    match r {
        Ok(v) => Ok(v@),
        Err(e) => Err(e),
    }
}

/// Segment id to session; at most one session per id.
pub struct TerminalManager<H> {
    sessions: Vec<TerminalSession<H>>,
    model: Ghost<Sessions<H>>,
}

impl<H> View for TerminalManager<H> {
    type V = Sessions<H>;

    closed spec fn view(&self) -> Sessions<H> {
        self.model@
    }
}

impl<H> TerminalManager<H> {
    /// The session list holds each id once and agrees with the model.
    pub closed spec fn wf(&self) -> bool {
        Self::agrees(self.sessions@, self.model@)
    }

    spec fn agrees(s: Seq<TerminalSession<H>>, m: Sessions<H>) -> bool {
        &&& forall|i: int, j: int|
            0 <= i < s.len() && 0 <= j < s.len() && i != j ==> #[trigger] s[i].id()
                != #[trigger] s[j].id()
        &&& forall|i: int|
            0 <= i < s.len() ==> m.contains_key(#[trigger] s[i].id()) && m[s[i].id()] == s[i]@
        &&& forall|k: Seq<char>|
            #[trigger] m.contains_key(k) ==> exists|i: int| 0 <= i < s.len() && #[trigger] s[i].id() == k
    }

    proof fn lemma_update(s: Seq<TerminalSession<H>>, m: Sessions<H>, i: int, t: TerminalSession<H>)
        requires
            Self::agrees(s, m),
            0 <= i < s.len(),
            t.id() == s[i].id(),
        ensures
            Self::agrees(s.update(i, t), m.insert(t.id(), t@)),
    {
        let s2 = s.update(i, t);
        let m2 = m.insert(t.id(), t@);
        assert forall|k: Seq<char>| #[trigger] m2.contains_key(k) implies exists|j: int|
            0 <= j < s2.len() && #[trigger] s2[j].id() == k by {
            if k == t.id() {
                assert(s2[i].id() == k);
            } else {
                let j = choose|j: int| 0 <= j < s.len() && #[trigger] s[j].id() == k;
                assert(s2[j].id() == k);
            }
        }
    }

    proof fn lemma_remove(s: Seq<TerminalSession<H>>, m: Sessions<H>, i: int)
        requires
            Self::agrees(s, m),
            0 <= i < s.len(),
        ensures
            Self::agrees(s.remove(i), m.remove(s[i].id())),
    {
        let s2 = s.remove(i);
        let m2 = m.remove(s[i].id());
        assert forall|a: int, b: int|
            0 <= a < s2.len() && 0 <= b < s2.len() && a != b implies #[trigger] s2[a].id()
            != #[trigger] s2[b].id() by {
            let a0 = if a < i { a } else { a + 1 };
            let b0 = if b < i { b } else { b + 1 };
            assert(s2[a] == s[a0] && s2[b] == s[b0]);
        }
        assert forall|a: int| 0 <= a < s2.len() implies m2.contains_key(#[trigger] s2[a].id())
            && m2[s2[a].id()] == s2[a]@ by {
            let a0 = if a < i { a } else { a + 1 };
            assert(s2[a] == s[a0]);
            assert(s[a0].id() != s[i].id());
        }
        assert forall|k: Seq<char>| #[trigger] m2.contains_key(k) implies exists|j: int|
            0 <= j < s2.len() && #[trigger] s2[j].id() == k by {
            let j = choose|j: int| 0 <= j < s.len() && #[trigger] s[j].id() == k;
            if j < i {
                assert(s2[j].id() == k);
            } else {
                assert(j != i);
                assert(s2[j - 1].id() == k);
            }
        }
    }

    pub fn new() -> (r: Self)
        ensures
            r.wf(),
            r@ == Map::<Seq<char>, SessionView<H>>::empty(),
    {
        TerminalManager { sessions: Vec::new(), model: Ghost(Map::empty()) }
    }

    /// The position of `id` in the session list.
    fn find(&self, id: &String) -> (r: Option<usize>)
        requires
            self.wf(),
        ensures
            match r {
                Some(i) => i < self.sessions@.len() && self.sessions@[i as int].id() == id@
                    && self@.contains_key(id@),
                None => !self@.contains_key(id@),
            },
    {
        let mut i: usize = 0;
        while i < self.sessions.len()
            invariant
                self.wf(),
                i <= self.sessions@.len(),
                forall|j: int| 0 <= j < i ==> #[trigger] self.sessions@[j].id() != id@,
            decreases self.sessions@.len() - i,
        {
            if self.sessions[i].segment_id == *id {
                return Some(i);
            }
            i += 1;
        }
        None
    }

    pub fn contains(&self, id: &String) -> (r: bool)
        requires
            self.wf(),
        ensures
            r == self@.contains_key(id@),
    {
        self.find(id).is_some()
    }

    pub fn len(&self) -> (r: usize)
        requires
            self.wf(),
        ensures
            r == self@.len(),
    {
        proof {
            self.lemma_len();
        }
        self.sessions.len()
    }

    proof fn lemma_len(&self)
        requires
            self.wf(),
        ensures
            self@.dom().finite(),
            self@.len() == self.sessions@.len(),
    {
        let ids = Seq::new(self.sessions@.len(), |i: int| self.sessions@[i].id());
        assert forall|k: Seq<char>| self@.dom().contains(k) <==> ids.to_set().contains(k) by {
            if self@.contains_key(k) {
                let i = choose|i: int|
                    0 <= i < self.sessions@.len() && #[trigger] self.sessions@[i].id() == k;
                assert(ids[i] == k);
            }
            if ids.to_set().contains(k) {
                let i = choose|i: int| 0 <= i < ids.len() && ids[i] == k;
                assert(self.sessions@[i].id() == k);
            }
        }
        assert(self@.dom() =~= ids.to_set());
        assert forall|i: int, j: int|
            0 <= i < ids.len() && 0 <= j < ids.len() && i != j implies ids[i] != ids[j] by {}
        ids.unique_seq_to_set();
    }

    /// The session for `id`, if there is one.
    pub fn session(&self, id: &String) -> (r: Option<&TerminalSession<H>>)
        requires
            self.wf(),
        ensures
            match r {
                Some(s) => self@.contains_key(id@) && s@ == self@[id@] && s.id() == id@,
                None => !self@.contains_key(id@),
            },
    {
        match self.find(id) {
            Some(i) => Some(&self.sessions[i]),
            None => None,
        }
    }

    /// The size to open a pseudo-terminal with, or `None` when `id` already
    /// has a session and nothing must be opened.
    pub fn open_request(&self, id: &String) -> (r: Option<PtySize>)
        requires
            self.wf(),
        ensures
            r == open_request_step(self@, id@),
    {
        if self.contains(id) {
            None
        } else {
            Some(PtySize { rows: DEFAULT_ROWS, cols: DEFAULT_COLS })
        }
    }

    /// Stores a newly opened pseudo-terminal under `id`. Idempotent: an
    /// existing session is kept, and `opened` is dropped.
    pub fn create(&mut self, id: String, opened: Result<H, String>) -> (r: Result<(), TerminalError>)
        requires
            old(self).wf(),
        ensures
            final(self).wf(),
            (final(self)@, r) == create_step(old(self)@, id@, opened),
    {
        if self.contains(&id) {
            return Ok(());
        }
        match opened {
            Ok(pty) => {
                let session = TerminalSession {
                    segment_id: id,
                    pty,
                    spawned: false,
                    exited: false,
                    size: PtySize { rows: DEFAULT_ROWS, cols: DEFAULT_COLS },
                    output: Vec::new(),
                    input: Vec::new(),
                };
                proof {
                    assert(session@ == fresh_session(pty));
                }
                self.push_new(session);
                Ok(())
            },
            Err(e) => Err(TerminalError::PtyOpenError(e)),
        }
    }

    fn push_new(&mut self, session: TerminalSession<H>)
        requires
            old(self).wf(),
            !old(self)@.contains_key(session.id()),
        ensures
            final(self).wf(),
            final(self)@ == old(self)@.insert(session.id(), session@),
    {
        let ghost k = session.id();
        let ghost v = session@;
        self.sessions.push(session);
        self.model = Ghost(self.model@.insert(k, v));
        proof {
            let n = self.sessions@.len() - 1;
            assert(self.sessions@[n].id() == k);
            assert forall|kk: Seq<char>| #[trigger] self.model@.contains_key(kk) implies exists|
                i: int,
            |
                0 <= i < self.sessions@.len() && #[trigger] self.sessions@[i].id() == kk by {
                if kk == k {
                    assert(self.sessions@[n].id() == kk);
                } else {
                    assert(old(self).model@.contains_key(kk));
                    let i = choose|i: int|
                        0 <= i < old(self).sessions@.len() && #[trigger] old(
                            self,
                        ).sessions@[i].id() == kk;
                    assert(self.sessions@[i] == old(self).sessions@[i]);
                }
            }
        }
    }

    /// Whether the shell for `id` still has to be launched.
    pub fn spawn_request(&self, id: &String) -> (r: Result<bool, TerminalError>)
        requires
            self.wf(),
        ensures
            r == spawn_request_step(self@, id@),
    {
        match self.find(id) {
            Some(i) => Ok(!self.sessions[i].spawned),
            None => Err(TerminalError::SessionNotFound),
        }
    }

    /// Records the outcome of launching the shell for `id`. A failed launch
    /// leaves the session unspawned, so that the caller may retry.
    pub fn spawn_finished(&mut self, id: &String, launched: Result<(), String>) -> (r: Result<
        (),
        TerminalError,
    >)
        requires
            old(self).wf(),
        ensures
            final(self).wf(),
            (final(self)@, r) == spawn_finished_step(old(self)@, id@, launched),
    {
        let i = match self.find(id) {
            Some(i) => i,
            None => return Err(TerminalError::SessionNotFound),
        };
        match launched {
            Ok(()) => {
                let ghost s0 = self.sessions@;
                self.sessions[i].spawned = true;
                self.commit(Ghost(s0), i);
                proof {
                    assert(self@ == old(self)@.insert(
                        id@,
                        SessionView { spawned: true, ..old(self)@[id@] },
                    ));
                }
                Ok(())
            },
            Err(e) => Err(TerminalError::SpawnFailure(e)),
        }
    }

    /// Re-establishes the model after the session at `i` changed in place.
    fn commit(&mut self, s0: Ghost<Seq<TerminalSession<H>>>, i: usize)
        requires
            TerminalManager::agrees(s0@, old(self).model@),
            i < s0@.len(),
            old(self).sessions@ == s0@.update(i as int, old(self).sessions@[i as int]),
            old(self).sessions@[i as int].id() == s0@[i as int].id(),
        ensures
            final(self).wf(),
            final(self).sessions@ == old(self).sessions@,
            final(self)@ == old(self)@.insert(
                old(self).sessions@[i as int].id(),
                old(self).sessions@[i as int]@,
            ),
    {
        let ghost t = self.sessions@[i as int];
        proof {
            TerminalManager::lemma_update(s0@, self.model@, i as int, t);
        }
        self.model = Ghost(self.model@.insert(t.id(), t@));
    }

    /// Queues `data` for the shell of `id`, behind everything queued before.
    pub fn write(&mut self, id: &String, data: &str) -> (r: Result<(), TerminalError>)
        requires
            old(self).wf(),
        ensures
            final(self).wf(),
            (final(self)@, r) == write_step(old(self)@, id@, encode_utf8(data@)),
    {
        let i = match self.find(id) {
            Some(i) => i,
            None => return Err(TerminalError::SessionNotFound),
        };
        let mut bytes = data.as_bytes_vec();
        let ghost s0 = self.sessions@;
        self.sessions[i].input.append(&mut bytes);
        self.commit(Ghost(s0), i);
        proof {
            assert(self@ == old(self)@.insert(
                id@,
                SessionView { input: old(self)@[id@].input + encode_utf8(data@), ..old(self)@[id@] },
            ));
        }
        Ok(())
    }

    /// Takes everything queued for the shell of `id`, oldest first.
    pub fn take_input(&mut self, id: &String) -> (r: Result<Vec<u8>, TerminalError>)
        requires
            old(self).wf(),
        ensures
            final(self).wf(),
            (final(self)@, bytes_view(r)) == take_input_step(old(self)@, id@),
    {
        let i = match self.find(id) {
            Some(i) => i,
            None => return Err(TerminalError::SessionNotFound),
        };
        let ghost s0 = self.sessions@;
        let mut queued: Vec<u8> = Vec::new();
        std::mem::swap(&mut queued, &mut self.sessions[i].input);
        self.commit(Ghost(s0), i);
        proof {
            assert(queued@ =~= old(self)@[id@].input);
            assert(self@ == old(self)@.insert(
                id@,
                SessionView { input: Seq::empty(), ..old(self)@[id@] },
            ));
        }
        Ok(queued)
    }

    /// Appends bytes that the shell of `id` produced to its pending output.
    pub fn feed_output(&mut self, id: &String, chunk: Vec<u8>) -> (r: Result<(), TerminalError>)
        requires
            old(self).wf(),
        ensures
            final(self).wf(),
            (final(self)@, r) == feed_step(old(self)@, id@, chunk@),
    {
        let i = match self.find(id) {
            Some(i) => i,
            None => return Err(TerminalError::SessionNotFound),
        };
        let ghost fed = chunk@;
        let mut chunk = chunk;
        let ghost s0 = self.sessions@;
        self.sessions[i].output.append(&mut chunk);
        self.commit(Ghost(s0), i);
        proof {
            assert(self@ == old(self)@.insert(
                id@,
                SessionView { output: old(self)@[id@].output + fed, ..old(self)@[id@] },
            ));
        }
        Ok(())
    }

    /// Records that the output of `id` reached end of stream.
    pub fn mark_exited(&mut self, id: &String) -> (r: Result<(), TerminalError>)
        requires
            old(self).wf(),
        ensures
            final(self).wf(),
            (final(self)@, r) == exit_step(old(self)@, id@),
    {
        let i = match self.find(id) {
            Some(i) => i,
            None => return Err(TerminalError::SessionNotFound),
        };
        let ghost s0 = self.sessions@;
        self.sessions[i].exited = true;
        self.commit(Ghost(s0), i);
        proof {
            assert(self@ == old(self)@.insert(id@, SessionView { exited: true, ..old(self)@[id@] }));
        }
        Ok(())
    }

    /// Polls the pending output of `id` without blocking.
    pub fn read(&mut self, id: &String) -> (r: Result<ReadOutcome, TerminalError>)
        requires
            old(self).wf(),
        ensures
            final(self).wf(),
            (final(self)@, read_outcome_view(r)) == read_step(old(self)@, id@),
    {
        let i = match self.find(id) {
            Some(i) => i,
            None => return Err(TerminalError::SessionNotFound),
        };
        if self.sessions[i].output.len() == 0 {
            if self.sessions[i].exited {
                return Ok(ReadOutcome::Exited);
            } else {
                return Ok(ReadOutcome::NoData);
            }
        }
        let ghost s0 = self.sessions@;
        let mut pending: Vec<u8> = Vec::new();
        std::mem::swap(&mut pending, &mut self.sessions[i].output);
        match text_from_utf8(pending) {
            Ok(text) => {
                self.commit(Ghost(s0), i);
                proof {
                    assert(self@ == old(self)@.insert(
                        id@,
                        SessionView { output: Seq::empty(), ..old(self)@[id@] },
                    ));
                }
                Ok(ReadOutcome::Data(text))
            },
            Err(bytes) => {
                self.sessions[i].output = bytes;
                assert(self.sessions@ =~= s0.update(i as int, self.sessions@[i as int]));
                self.commit(Ghost(s0), i);
                proof {
                    assert(self.sessions@[i as int]@ == old(self)@[id@]);
                    assert(self@ =~= old(self)@);
                }
                Err(TerminalError::InvalidEncoding)
            },
        }
    }

    /// Records new dimensions for `id` and returns them, to be applied to the
    /// native pseudo-terminal.
    pub fn resize(&mut self, id: &String, rows: u16, cols: u16) -> (r: Result<PtySize, TerminalError>)
        requires
            old(self).wf(),
        ensures
            final(self).wf(),
            (final(self)@, r) == resize_step(old(self)@, id@, rows, cols),
    {
        let i = match self.find(id) {
            Some(i) => i,
            None => return Err(TerminalError::SessionNotFound),
        };
        let size = PtySize { rows, cols };
        let ghost s0 = self.sessions@;
        self.sessions[i].size = size;
        self.commit(Ghost(s0), i);
        proof {
            assert(self@ == old(self)@.insert(id@, SessionView { size, ..old(self)@[id@] }));
        }
        Ok(size)
    }

    /// Removes the session of `id` and hands it back for teardown. Closing an
    /// unknown id is not an error.
    pub fn close(&mut self, id: &String) -> (r: Option<TerminalSession<H>>)
        requires
            old(self).wf(),
        ensures
            final(self).wf(),
            final(self)@ == close_step(old(self)@, id@),
            match r {
                Some(s) => old(self)@.contains_key(id@) && s@ == old(self)@[id@] && s.id() == id@,
                None => !old(self)@.contains_key(id@),
            },
    {
        match self.find(id) {
            Some(i) => {
                proof {
                    TerminalManager::lemma_remove(self.sessions@, self.model@, i as int);
                }
                let session = self.sessions.remove(i);
                self.model = Ghost(self.model@.remove(id@));
                Some(session)
            },
            None => {
                proof {
                    assert(self@.remove(id@) =~= self@);
                }
                None
            },
        }
    }
}

} // verus!
