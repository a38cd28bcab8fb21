use vstd::prelude::*;
use vstd::slice::slice_subrange;
use vstd::slice::slice_to_vec;

use crate::transform::{
    drops_all, event_for, forwarded_bytes, forwarded_part, lemma_dropping_forwards_nothing,
    lemma_forwarded_push, lemma_pass_through_forwards_what_was_read, passes_through, read_bytes,
    ChunkRecord, Direction, EventHandler,
};

verus! {

/// Size of the scratch buffer that every read fills.
pub const CHUNK_CAPACITY: usize = 1024;

/// What the driver has to do next on the engine's behalf.
#[derive(Clone, Copy, Debug, PartialEq, Eq, Structural)]
pub enum Action {
    /// Capture the external input's terminal attributes; report with `on_mode_saved`.
    SaveMode,
    /// Put the external input into raw mode; report with `on_raw_mode`.
    EnterRawMode,
    /// Wait, without timeout, until the external input or the pty master is readable;
    /// report with `on_wait`.
    Wait,
    /// Read at most `CHUNK_CAPACITY` bytes from the source of the direction
    /// (external input for `Input`, pty master for `Output`); report with `on_read`.
    Read(Direction),
    /// Write `pending()` to the destination of the direction (pty master for
    /// `Input`, external output for `Output`); report with `on_written`.
    Write(Direction),
    /// Put back the attributes from `saved_mode()`; report with `on_restored`.
    RestoreMode,
    /// The session is over; `outcome()` is its result.
    Finished,
}

/// Which watched descriptors a readiness notification reported.
#[derive(Clone, Copy, Debug, PartialEq, Eq, Structural)]
pub struct Readiness {
    pub input: bool,
    pub pty: bool,
}

/// How a non-blocking read ended.
pub enum ReadOutcome<'a> {
    /// The bytes read, in the scratch buffer; an empty slice is end of file.
    Data(&'a mut [u8]),
    /// Nothing more to read for now.
    WouldBlock,
    /// The far end is gone: the session has ended.
    DeviceGone,
    /// Any other failure, by its OS error code.
    Failed(i32),
}

/// The abstract state of a forwarding session.
pub struct ForwarderView<T> {
    pub action: Action,
    /// The pty master was reported ready together with the external input and
    /// has not been served yet in this notification.
    pub pty_ready: bool,
    /// Every chunk read so far and the transform's answer to it.
    pub trace: Seq<ChunkRecord>,
    /// Bytes delivered to the child.
    pub to_child: Seq<u8>,
    /// Bytes delivered to the external output.
    pub to_external: Seq<u8>,
    /// The undelivered rest of the chunk being written, with its direction.
    pub pending: Option<(Direction, Seq<u8>)>,
    /// The external input's attributes as captured before raw mode.
    pub saved: Option<T>,
    /// The attributes put back on the external input, in order.
    pub restored: Seq<T>,
    /// The fatal error that ends the session, if any.
    pub error: Option<i32>,
}

impl<T> ForwarderView<T> {
    pub open spec fn delivered(self, d: Direction) -> Seq<u8> {
        match d {
            Direction::Input => self.to_child,
            Direction::Output => self.to_external,
        }
    }

    pub open spec fn outstanding(self, d: Direction) -> Seq<u8> {
        match self.pending {
            Some(p) => if p.0 == d {
                p.1
            } else {
                Seq::empty()
            },
            None => Seq::empty(),
        }
    }

    pub open spec fn outcome(self) -> Result<(), i32> {
        match self.error {
            None => Ok(()),
            Some(e) => Err(e),
        }
    }

    /// The state with `bytes` added to what direction `d` has delivered.
    pub open spec fn deliver(self, d: Direction, bytes: Seq<u8>) -> Self {
        match d {
            Direction::Input => ForwarderView { to_child: self.to_child + bytes, ..self },
            Direction::Output => ForwarderView { to_external: self.to_external + bytes, ..self },
        }
    }

    /// The state once the transform's answer to a chunk is taken: the answer
    /// is recorded and, unless it is empty, becomes the pending write.
    pub open spec fn after_chunk(self, rec: ChunkRecord) -> Self {
        let out = forwarded_part(rec);
        ForwarderView {
            action: if out.len() > 0 {
                Action::Write(rec.direction)
            } else {
                Action::Read(rec.direction)
            },
            trace: self.trace.push(rec),
            pending: if out.len() > 0 {
                Some((rec.direction, out))
            } else {
                None
            },
            ..self
        }
    }

    /// Where reading goes on once direction `d` has nothing more to give.
    pub open spec fn after_drain(self, d: Direction) -> Action {
        if d == Direction::Input && self.pty_ready {
            Action::Read(Direction::Output)
        } else {
            Action::Wait
        }
    }
}

/// The forwarding engine's decisions, driven one action at a time.
///
/// The driver asks `action()`, performs it on the real descriptors, and reports
/// what happened through the matching `on_*` method. `T` is the driver's terminal
/// attribute snapshot, which the engine keeps and hands back for restoring.
pub struct Forwarder<T> {
    action: Action,
    pty_ready: bool,
    chunk: Vec<u8>,
    sent: usize,
    chunk_dir: Option<Direction>,
    saved: Option<T>,
    error: Option<i32>,
    trace: Ghost<Seq<ChunkRecord>>,
    to_child: Ghost<Seq<u8>>,
    to_external: Ghost<Seq<u8>>,
    restored: Ghost<Seq<T>>,
}

impl<T> View for Forwarder<T> {
    type V = ForwarderView<T>;

    closed spec fn view(&self) -> ForwarderView<T> {
        ForwarderView {
            action: self.action,
            pty_ready: self.pty_ready,
            trace: self.trace@,
            to_child: self.to_child@,
            to_external: self.to_external@,
            pending: match self.chunk_dir {
                Some(d) => Some((d, self.chunk@.subrange(self.sent as int, self.chunk@.len() as int))),
                None => None,
            },
            saved: self.saved,
            restored: self.restored@,
            error: self.error,
        }
    }
}

impl<T> Forwarder<T> {
    /// The session's invariant.
    pub closed spec fn wf(&self) -> bool {
        &&& self.sent <= self.chunk@.len()
        &&& self@.to_child + self@.outstanding(Direction::Input) == forwarded_bytes(
            self@.trace,
            Direction::Input,
        )
        &&& self@.to_external + self@.outstanding(Direction::Output) == forwarded_bytes(
            self@.trace,
            Direction::Output,
        )
        &&& match self.action {
            Action::SaveMode => {
                &&& self.saved is None
                &&& self.error is None
                &&& self.chunk_dir is None
                &&& self.restored@.len() == 0
            },
            Action::EnterRawMode | Action::Wait | Action::Read(_) => {
                &&& self.saved is Some
                &&& self.error is None
                &&& self.chunk_dir is None
                &&& self.restored@.len() == 0
            },
            Action::Write(d) => {
                &&& self.saved is Some
                &&& self.error is None
                &&& self.chunk_dir == Some(d)
                &&& self.sent < self.chunk@.len()
                &&& self.restored@.len() == 0
            },
            Action::RestoreMode => {
                &&& self.saved is Some
                &&& self.chunk_dir is Some ==> self.error is Some
                &&& self.restored@.len() == 0
            },
            Action::Finished => {
                &&& self.chunk_dir is Some ==> self.error is Some
                &&& self.error is None ==> self.saved is Some && self.restored@ == seq![
                    self.saved->Some_0,
                ]
                &&& self.restored@.len() <= 1
                &&& self.restored@.len() == 1 ==> self.saved is Some && self.restored@[0]
                    == self.saved->Some_0
            },
        }
        &&& self.pty_ready ==> (self.action == Action::Read(Direction::Input) || self.action
            == Action::Write(Direction::Input))
    }

    /// A session about to capture the external input's attributes.
    pub fn new() -> (r: Self)
        ensures
            r.wf(),
            r@ == (ForwarderView::<T> {
                action: Action::SaveMode,
                pty_ready: false,
                trace: Seq::empty(),
                to_child: Seq::empty(),
                to_external: Seq::empty(),
                pending: None,
                saved: None,
                restored: Seq::empty(),
                error: None,
            }),
    {
        let r = Forwarder {
            action: Action::SaveMode,
            pty_ready: false,
            chunk: Vec::new(),
            sent: 0,
            chunk_dir: None,
            saved: None,
            error: None,
            trace: Ghost(Seq::empty()),
            to_child: Ghost(Seq::empty()),
            to_external: Ghost(Seq::empty()),
            restored: Ghost(Seq::empty()),
        };
        proof {
            assert(r@.to_child + r@.outstanding(Direction::Input) =~= Seq::<u8>::empty());
            assert(r@.to_external + r@.outstanding(Direction::Output) =~= Seq::<u8>::empty());
        }
        r
    }

    /// What the driver has to do next.
    pub fn action(&self) -> (r: Action)
        ensures
            r == self@.action,
    {
        self.action
    }

    /// The bytes still to be written for the current chunk.
    pub fn pending(&self) -> (r: &[u8])
        requires
            self.wf(),
            self@.action is Write,
        ensures
            self@.pending is Some,
            self@.pending->Some_0.0 == self@.action->Write_0,
            r@ == self@.pending->Some_0.1,
            r@.len() > 0,
    {
        slice_subrange(self.chunk.as_slice(), self.sent, self.chunk.len())
    }

    /// The attributes captured before raw mode, to be put back.
    pub fn saved_mode(&self) -> (r: &Option<T>)
        ensures
            *r == self@.saved,
    {
        &self.saved
    }

    /// The session's result: `Ok` after a clean end, else the first fatal error.
    pub fn outcome(&self) -> (r: Result<(), i32>)
        ensures
            r == self@.outcome(),
    {
        match self.error {
            None => Ok(()),
            Some(e) => Err(e),
        }
    }

    /// Reports the capture of the external input's attributes.
    pub fn on_mode_saved(&mut self, r: Result<T, i32>)
        requires
            old(self).wf(),
            old(self)@.action == Action::SaveMode,
        ensures
            final(self).wf(),
            match r {
                Ok(t) => final(self)@ == (ForwarderView {
                    action: Action::EnterRawMode,
                    saved: Some(t),
                    ..old(self)@
                }),
                Err(e) => final(self)@ == (ForwarderView {
                    action: Action::Finished,
                    error: Some(e),
                    ..old(self)@
                }),
            },
    {
        match r {
            Ok(t) => {
                self.saved = Some(t);
                self.action = Action::EnterRawMode;
            },
            Err(e) => {
                self.error = Some(e);
                self.action = Action::Finished;
            },
        }
    }

    /// Reports the switch to raw mode. A failure still restores the saved
    /// attributes, as the switch may have been partly applied.
    pub fn on_raw_mode(&mut self, r: Result<(), i32>)
        requires
            old(self).wf(),
            old(self)@.action == Action::EnterRawMode,
        ensures
            final(self).wf(),
            match r {
                Ok(()) => final(self)@ == (ForwarderView { action: Action::Wait, ..old(self)@ }),
                Err(e) => final(self)@ == (ForwarderView {
                    action: Action::RestoreMode,
                    error: Some(e),
                    ..old(self)@
                }),
            },
    {
        match r {
            Ok(()) => {
                self.action = Action::Wait;
            },
            Err(e) => {
                self.error = Some(e);
                self.action = Action::RestoreMode;
            },
        }
    }

    /// Reports a readiness notification. The external input is served before
    /// the pty master.
    pub fn on_wait(&mut self, r: Result<Readiness, i32>)
        requires
            old(self).wf(),
            old(self)@.action == Action::Wait,
        ensures
            final(self).wf(),
            match r {
                Ok(ready) => final(self)@ == (ForwarderView {
                    action: if ready.input {
                        Action::Read(Direction::Input)
                    } else if ready.pty {
                        Action::Read(Direction::Output)
                    } else {
                        Action::Wait
                    },
                    pty_ready: ready.input && ready.pty,
                    ..old(self)@
                }),
                Err(e) => final(self)@ == (ForwarderView {
                    action: Action::RestoreMode,
                    error: Some(e),
                    ..old(self)@
                }),
            },
    {
        match r {
            Ok(ready) => {
                self.pty_ready = ready.input && ready.pty;
                self.action = if ready.input {
                    Action::Read(Direction::Input)
                } else if ready.pty {
                    Action::Read(Direction::Output)
                } else {
                    Action::Wait
                };
            },
            Err(e) => {
                self.error = Some(e);
                self.action = Action::RestoreMode;
            },
        }
    }

    /// Reports a read from the source of the current direction. A chunk goes
    /// through the transform; what it forwards becomes the pending write, and an
    /// empty answer or `None` goes straight on to the next read.
    pub fn on_read<H: EventHandler>(&mut self, handler: &mut H, outcome: ReadOutcome<'_>)
        requires
            old(self).wf(),
            old(self)@.action is Read,
        ensures
            final(self).wf(),
            ({
                let d = old(self)@.action->Read_0;
                match outcome {
                    ReadOutcome::Data(s) => if s@.len() == 0 {
                        final(self)@ == (ForwarderView {
                            action: Action::RestoreMode,
                            pty_ready: false,
                            ..old(self)@
                        })
                    } else {
                        exists|f: Option<Seq<u8>>|
                            final(self)@ == old(self)@.after_chunk(
                                ChunkRecord { direction: d, read: s@, forwarded: f },
                            )
                    },
                    ReadOutcome::WouldBlock => final(self)@ == (ForwarderView {
                        action: old(self)@.after_drain(d),
                        pty_ready: false,
                        ..old(self)@
                    }),
                    ReadOutcome::DeviceGone => final(self)@ == (ForwarderView {
                        action: Action::RestoreMode,
                        pty_ready: false,
                        ..old(self)@
                    }),
                    ReadOutcome::Failed(e) => final(self)@ == (ForwarderView {
                        action: Action::RestoreMode,
                        pty_ready: false,
                        error: Some(e),
                        ..old(self)@
                    }),
                }
            }),
    {
        let d = match self.action {
            Action::Read(d) => d,
            _ => Direction::Input,
        };
        match outcome {
            ReadOutcome::Data(s) => {
                if s.len() == 0 {
                    self.pty_ready = false;
                    self.action = Action::RestoreMode;
                } else {
                    let original = slice_to_vec(s);
                    let forwarded = handler.handle(event_for(d, s));
                    self.on_transformed(original.as_slice(), forwarded);
                }
            },
            ReadOutcome::WouldBlock => {
                self.action = if d == Direction::Input && self.pty_ready {
                    Action::Read(Direction::Output)
                } else {
                    Action::Wait
                };
                self.pty_ready = false;
            },
            ReadOutcome::DeviceGone => {
                self.pty_ready = false;
                self.action = Action::RestoreMode;
            },
            ReadOutcome::Failed(e) => {
                self.pty_ready = false;
                self.error = Some(e);
                self.action = Action::RestoreMode;
            },
        }
    }

    /// Takes the transform's answer for a chunk just read in the current
    /// direction: the forwarded bytes become the pending write, while `None` or
    /// an empty answer goes straight on to the next read.
    pub fn on_transformed(&mut self, chunk: &[u8], forwarded: Option<&[u8]>)
        requires
            old(self).wf(),
            old(self)@.action is Read,
        ensures
            final(self).wf(),
            final(self)@ == old(self)@.after_chunk(
                ChunkRecord {
                    direction: old(self)@.action->Read_0,
                    read: chunk@,
                    forwarded: match forwarded {
                        Some(b) => Some(b@),
                        None => None,
                    },
                },
            ),
    {
        let d = match self.action {
            Action::Read(d) => d,
            _ => Direction::Input,
        };
        let ghost f: Option<Seq<u8>> = match forwarded {
            Some(b) => Some(b@),
            None => None,
        };
        let ghost rec = ChunkRecord { direction: d, read: chunk@, forwarded: f };
        proof {
            lemma_forwarded_push(self.trace@, rec, Direction::Input);
            lemma_forwarded_push(self.trace@, rec, Direction::Output);
        }
        self.trace = Ghost(self.trace@.push(rec));
        match forwarded {
            Some(b) => {
                if b.len() > 0 {
                    self.chunk = slice_to_vec(b);
                    self.sent = 0;
                    self.chunk_dir = Some(d);
                    self.action = Action::Write(d);
                    proof {
                        assert(self.chunk@.subrange(0, self.chunk@.len() as int) =~= self.chunk@);
                    }
                }
            },
            None => {},
        }
        proof {
            assert(self@.to_child + self@.outstanding(Direction::Input) =~= forwarded_bytes(
                self@.trace,
                Direction::Input,
            ));
            assert(self@.to_external + self@.outstanding(Direction::Output) =~= forwarded_bytes(
                self@.trace,
                Direction::Output,
            ));
        }
    }

    /// Reports a write of `pending()`. A short write leaves the rest pending; a
    /// failed one is fatal, with no retry.
    pub fn on_written(&mut self, r: Result<usize, i32>)
        requires
            old(self).wf(),
            old(self)@.action is Write,
        ensures
            final(self).wf(),
            ({
                let d = old(self)@.action->Write_0;
                let rest = old(self)@.pending->Some_0.1;
                match r {
                    Ok(n) => if n >= rest.len() {
                        final(self)@ == (ForwarderView {
                            action: Action::Read(d),
                            pending: None,
                            ..old(self)@.deliver(d, rest)
                        })
                    } else {
                        final(self)@ == (ForwarderView {
                            pending: Some((d, rest.subrange(n as int, rest.len() as int))),
                            ..old(self)@.deliver(d, rest.subrange(0, n as int))
                        })
                    },
                    Err(e) => final(self)@ == (ForwarderView {
                        action: Action::RestoreMode,
                        pty_ready: false,
                        error: Some(e),
                        ..old(self)@
                    }),
                }
            }),
    {
        let d = match self.action {
            Action::Write(d) => d,
            _ => Direction::Input,
        };
        let ghost rest = self@.pending->Some_0.1;
        match r {
            Ok(n) => {
                let remaining = self.chunk.len() - self.sent;
                let ghost part: Seq<u8> = if n >= remaining {
                    rest
                } else {
                    rest.subrange(0, n as int)
                };
                match d {
                    Direction::Input => {
                        self.to_child = Ghost(self.to_child@ + part);
                    },
                    Direction::Output => {
                        self.to_external = Ghost(self.to_external@ + part);
                    },
                }
                if n >= remaining {
                    self.sent = self.chunk.len();
                    self.chunk_dir = None;
                    self.action = Action::Read(d);
                } else {
                    self.sent = self.sent + n;
                    proof {
                        assert(rest.subrange(0, n as int) + rest.subrange(n as int, rest.len() as int)
                            =~= rest);
                        assert(self.chunk@.subrange(self.sent as int, self.chunk@.len() as int)
                            =~= rest.subrange(n as int, rest.len() as int));
                    }
                }
                proof {
                    assert(self@.to_child + self@.outstanding(Direction::Input)
                        =~= forwarded_bytes(self@.trace, Direction::Input));
                    assert(self@.to_external + self@.outstanding(Direction::Output)
                        =~= forwarded_bytes(self@.trace, Direction::Output));
                }
            },
            Err(e) => {
                self.pty_ready = false;
                self.error = Some(e);
                self.action = Action::RestoreMode;
            },
        }
    }

    /// Reports the restoring of the saved attributes. The session is then over;
    /// a fatal error from before is kept as its result.
    pub fn on_restored(&mut self, r: Result<(), i32>)
        requires
            old(self).wf(),
            old(self)@.action == Action::RestoreMode,
        ensures
            final(self).wf(),
            match r {
                Ok(()) => final(self)@ == (ForwarderView {
                    action: Action::Finished,
                    restored: seq![old(self)@.saved->Some_0],
                    ..old(self)@
                }),
                Err(e) => final(self)@ == (ForwarderView {
                    action: Action::Finished,
                    error: if old(self)@.error is Some {
                        old(self)@.error
                    } else {
                        Some(e)
                    },
                    ..old(self)@
                }),
            },
    {
        match r {
            Ok(()) => {
                let ghost t = self.saved->Some_0;
                self.restored = Ghost(Seq::empty().push(t));
            },
            Err(e) => {
                if self.error.is_none() {
                    self.error = Some(e);
                }
            },
        }
        self.action = Action::Finished;
    }
}

/// In each direction, what has reached the destination followed by what is
/// still pending is exactly what the transform forwarded, chunk by chunk in read
/// order; a dropped chunk contributes nothing. No read or wait is asked for
/// while a chunk is still pending.
pub proof fn lemma_delivery_follows_transform<T>(s: &Forwarder<T>, d: Direction)
    requires
        s.wf(),
    ensures
        s@.delivered(d) + s@.outstanding(d) == forwarded_bytes(s@.trace, d),
        s@.delivered(d).is_prefix_of(forwarded_bytes(s@.trace, d)),
        s@.action is Read || s@.action is Wait ==> s@.pending is None,
        s@.action is Write ==> s@.pending is Some && s@.pending->Some_0.0 == s@.action->Write_0
            && s@.pending->Some_0.1.len() > 0,
{
    let f = forwarded_bytes(s@.trace, d);
    let del = s@.delivered(d);
    assert(del.len() <= f.len());
    assert forall|i: int| 0 <= i < del.len() implies del[i] == f[i] by {
        assert(f[i] == (del + s@.outstanding(d))[i]);
    }
}

/// A session that ended cleanly delivered every byte the transform forwarded,
/// in both directions; a chunk is only ever cut short by a fatal error.
pub proof fn lemma_clean_end_delivers_everything<T>(s: &Forwarder<T>)
    requires
        s.wf(),
        s@.action == Action::Finished,
        s@.outcome() is Ok,
    ensures
        s@.pending is None,
        s@.to_child == forwarded_bytes(s@.trace, Direction::Input),
        s@.to_external == forwarded_bytes(s@.trace, Direction::Output),
{
    assert(s@.to_child + s@.outstanding(Direction::Input) =~= s@.to_child);
    assert(s@.to_external + s@.outstanding(Direction::Output) =~= s@.to_external);
}

/// With a transform that passes both directions through, a session that ended
/// cleanly delivered to each side exactly the bytes read from the other.
pub proof fn lemma_identity_is_passthrough<T>(s: &Forwarder<T>)
    requires
        s.wf(),
        s@.action == Action::Finished,
        s@.outcome() is Ok,
        passes_through(s@.trace, Direction::Input),
        passes_through(s@.trace, Direction::Output),
    ensures
        s@.to_child == read_bytes(s@.trace, Direction::Input),
        s@.to_external == read_bytes(s@.trace, Direction::Output),
{
    lemma_clean_end_delivers_everything(s);
    lemma_pass_through_forwards_what_was_read(s@.trace, Direction::Input);
    lemma_pass_through_forwards_what_was_read(s@.trace, Direction::Output);
}

/// With a transform that drops every input chunk and passes output through,
/// the child never receives a byte, while everything read from the child is
/// delivered or pending for the external output.
pub proof fn lemma_muted_input<T>(s: &Forwarder<T>)
    requires
        s.wf(),
        drops_all(s@.trace, Direction::Input),
        passes_through(s@.trace, Direction::Output),
    ensures
        s@.to_child == Seq::<u8>::empty(),
        s@.to_external + s@.outstanding(Direction::Output) == read_bytes(
            s@.trace,
            Direction::Output,
        ),
{
    lemma_dropping_forwards_nothing(s@.trace, Direction::Input);
    lemma_pass_through_forwards_what_was_read(s@.trace, Direction::Output);
    assert(s@.to_child.len() == 0);
}

/// The terminal attributes are put back at most once, and only when the session
/// ends. After a clean end they were put back exactly once, as captured before
/// raw mode.
pub proof fn lemma_mode_restored_once<T>(s: &Forwarder<T>)
    requires
        s.wf(),
    ensures
        s@.restored.len() <= 1,
        s@.action != Action::Finished ==> s@.restored.len() == 0,
        s@.restored.len() == 1 ==> s@.saved is Some && s@.restored[0] == s@.saved->Some_0,
        s@.action == Action::Finished && s@.outcome() is Ok ==> s@.saved is Some && s@.restored
            == seq![s@.saved->Some_0],
{
}

} // verus!
