//! The session lifecycle state machine and the outbound command sender.
//!
//! A session moves from `Idle` through `Connecting` to the live states
//! (`Open`, `Configured`, `Streaming`, `Finishing`) and ends in exactly one
//! terminal state (`Finished`, `Closed`, `Errored`). Terminal states are
//! final: once reached, every command is rejected with `SessionClosed`.
//! Each accepted command consumes one sequence number of the monotonic
//! event-id generator, so every outbound frame carries a fresh event id.
//!
//! Policy for commands issued out of the usual order (configure, then
//! append, then finish): any command is accepted in any live state and sent
//! as issued — the server is authoritative on acceptance — and issuance
//! order and event-id freshness are preserved. In particular an `append`
//! before any `configure` is permitted, and a repeated `finish` is a
//! harmless transport-level repetition that leaves the state at `Finishing`.

use vstd::prelude::*;
use crate::audio_format::AudioFormat;
use crate::codec::{
    append_frame_spec,
    build_append_frame,
    build_configure_frame,
    build_finish_frame,
    configure_frame_spec,
    finish_frame_spec,
    lemma_event_id_injective,
};

verus! {

/// Lifecycle state of one session.
#[derive(Clone, Copy, PartialEq, Eq, Structural, Debug)]
pub enum SessionState {
    Idle,
    Connecting,
    Open,
    Configured,
    Streaming,
    Finishing,
    Finished,
    Closed,
    Errored,
}

/// A live session has a transport: inbound events may arrive and commands
/// may be sent.
pub open spec fn is_live(st: SessionState) -> bool {
    st == SessionState::Open || st == SessionState::Configured || st == SessionState::Streaming
        || st == SessionState::Finishing
}

/// A terminal state is final; no operation may be issued afterward.
pub open spec fn is_terminal(st: SessionState) -> bool {
    st == SessionState::Finished || st == SessionState::Closed || st == SessionState::Errored
}

/// State after a configure command is issued.
pub open spec fn state_after_configure(st: SessionState) -> SessionState {
    if st == SessionState::Open || st == SessionState::Configured {
        SessionState::Configured
    } else {
        st
    }
}

/// State after an append command is issued.
pub open spec fn state_after_append(st: SessionState) -> SessionState {
    if st == SessionState::Finishing {
        st
    } else {
        SessionState::Streaming
    }
}

/// State after a finish command is issued.
pub open spec fn state_after_finish(st: SessionState) -> SessionState {
    SessionState::Finishing
}

/// The error a rejected command reports: `SessionClosed` once the session is
/// in a terminal state, `NotConnected` before the handshake has succeeded.
#[derive(Clone, Copy, PartialEq, Eq, Structural, Debug)]
pub enum SessionError {
    NotConnected,
    SessionClosed,
}

/// The error reported when a command is rejected in state `st`.
pub open spec fn reject_error(st: SessionState) -> SessionError {
    if is_terminal(st) {
        SessionError::SessionClosed
    } else {
        SessionError::NotConnected
    }
}

/// The caller's handle on one realtime session: the lifecycle state and the
/// monotonic event-id generator. The transport the frames travel on is owned
/// by the embedding program; every frame it writes is built here.
pub struct QwenTtsRealtime {
    pub state: SessionState,
    pub next_event_id: u64,
    pub issued: Ghost<Seq<nat>>,
}

impl QwenTtsRealtime {
    /// The id log matches the generator: the session has issued exactly the
    /// sequence numbers below `next_event_id`, in order.
    pub open spec fn wf(&self) -> bool {
        self.issued@ == Seq::new(self.next_event_id as nat, |i: int| i as nat)
    }

    /// A fresh session, not yet connected; no event id has been issued.
    pub fn new() -> (r: Self)
        ensures
            r.state == SessionState::Idle,
            r.next_event_id == 0,
            r.issued@ == Seq::<nat>::empty(),
            r.wf(),
    {
        let r = QwenTtsRealtime {
            state: SessionState::Idle,
            next_event_id: 0,
            issued: Ghost(Seq::empty()),
        };
        proof {
            assert(r.issued@ =~= Seq::new(0, |i: int| i as nat));
        }
        r
    }

    /// The handshake request has been sent.
    pub fn begin_connect(&mut self)
        requires
            old(self).state == SessionState::Idle,
        ensures
            final(self).state == SessionState::Connecting,
            final(self).next_event_id == old(self).next_event_id,
            final(self).issued == old(self).issued,
    {
        self.state = SessionState::Connecting;
    }

    /// The handshake succeeded: the session is open and the `on_open`
    /// reaction may fire.
    pub fn handshake_succeeded(&mut self)
        requires
            old(self).state == SessionState::Connecting,
        ensures
            final(self).state == SessionState::Open,
            final(self).next_event_id == old(self).next_event_id,
            final(self).issued == old(self).issued,
    {
        self.state = SessionState::Open;
    }

    /// The handshake failed: no session is produced and no callback fires.
    pub fn handshake_failed(&mut self)
        requires
            old(self).state == SessionState::Connecting,
        ensures
            final(self).state == SessionState::Errored,
            final(self).next_event_id == old(self).next_event_id,
            final(self).issued == old(self).issued,
    {
        self.state = SessionState::Errored;
    }

    /// The dispatch loop ended with the server's finish signal. Terminal
    /// states are final: marking an already-terminal session changes nothing.
    pub fn mark_finished(&mut self)
        ensures
            final(self).state == (if is_terminal(old(self).state) {
                old(self).state
            } else {
                SessionState::Finished
            }),
            final(self).next_event_id == old(self).next_event_id,
            final(self).issued == old(self).issued,
    {
        if !self.is_terminal_now() {
            self.state = SessionState::Finished;
        }
    }

    /// The remote end closed the transport. Terminal states are final.
    pub fn mark_closed(&mut self)
        ensures
            final(self).state == (if is_terminal(old(self).state) {
                old(self).state
            } else {
                SessionState::Closed
            }),
            final(self).next_event_id == old(self).next_event_id,
            final(self).issued == old(self).issued,
    {
        if !self.is_terminal_now() {
            self.state = SessionState::Closed;
        }
    }

    /// The transport failed. Terminal states are final.
    pub fn mark_errored(&mut self)
        ensures
            final(self).state == (if is_terminal(old(self).state) {
                old(self).state
            } else {
                SessionState::Errored
            }),
            final(self).next_event_id == old(self).next_event_id,
            final(self).issued == old(self).issued,
    {
        if !self.is_terminal_now() {
            self.state = SessionState::Errored;
        }
    }

    /// Whether the session is in a terminal state.
    pub fn is_terminal_now(&self) -> (r: bool)
        ensures
            r == is_terminal(self.state),
    {
        match self.state {
            SessionState::Finished => true,
            SessionState::Closed => true,
            SessionState::Errored => true,
            _ => false,
        }
    }

    /// Whether the session is live.
    pub fn is_live_now(&self) -> (r: bool)
        ensures
            r == is_live(self.state),
    {
        match self.state {
            SessionState::Open => true,
            SessionState::Configured => true,
            SessionState::Streaming => true,
            SessionState::Finishing => true,
            _ => false,
        }
    }

    /// Issues the configure command: on a live session, returns the
    /// `session.update` frame to write, carrying a fresh event id, the voice,
    /// the operating mode, and the requested response format and sample rate.
    /// On any other session the command is rejected and nothing changes.
    pub fn update_session(&mut self, voice: &str, response_format: &AudioFormat, mode: &str) -> (r:
        Result<String, SessionError>)
        requires
            old(self).wf(),
            old(self).next_event_id < u64::MAX,
        ensures
            final(self).wf(),
            match r {
                Ok(frame) => is_live(old(self).state) && frame@ == configure_frame_spec(
                    old(self).next_event_id as nat,
                    voice@,
                    response_format.format@,
                    response_format.sample_rate as nat,
                    mode@,
                ) && final(self).state == state_after_configure(old(self).state) && final(self).next_event_id == old(self).next_event_id + 1 && final(self).issued@ == old(
                    self,
                ).issued@.push(old(self).next_event_id as nat),
                Err(e) => !is_live(old(self).state) && e == reject_error(old(self).state) && *final(self) == *old(self),
            },
    {
        if !self.is_live_now() {
            return Err(self.rejection());
        }
        let id = self.take_event_id();
        if !self.is_streaming_or_finishing() {
            self.state = SessionState::Configured;
        }
        Ok(
            build_configure_frame(
                id,
                voice,
                response_format.format,
                response_format.sample_rate,
                mode,
            ),
        )
    }

    /// Issues one text increment: on a live session, returns the
    /// `input_text_buffer.append` frame to write, carrying a fresh event id
    /// and the literal text. Permitted before any configure (the server is
    /// authoritative); issuance order and id freshness are unchanged by that.
    /// On any other session the command is rejected and nothing changes.
    pub fn append_text(&mut self, text: &str) -> (r: Result<String, SessionError>)
        requires
            old(self).wf(),
            old(self).next_event_id < u64::MAX,
        ensures
            final(self).wf(),
            match r {
                Ok(frame) => is_live(old(self).state) && frame@ == append_frame_spec(
                    old(self).next_event_id as nat,
                    text@,
                ) && final(self).state == state_after_append(old(self).state) && final(self).next_event_id == old(self).next_event_id + 1 && final(self).issued@ == old(
                    self,
                ).issued@.push(old(self).next_event_id as nat),
                Err(e) => !is_live(old(self).state) && e == reject_error(old(self).state) && *final(self) == *old(self),
            },
    {
        if !self.is_live_now() {
            return Err(self.rejection());
        }
        let id = self.take_event_id();
        match self.state {
            SessionState::Finishing => {},
            _ => {
                self.state = SessionState::Streaming;
            },
        }
        Ok(build_append_frame(id, text))
    }

    /// Signals end of input: on a live session, returns the `session.finish`
    /// frame to write, carrying a fresh event id, and moves to `Finishing`.
    /// A second finish is accepted again (a harmless repetition on the
    /// transport; the server's `session.finished` event is the real end
    /// signal). On any other session the command is rejected and nothing
    /// changes.
    pub fn finish(&mut self) -> (r: Result<String, SessionError>)
        requires
            old(self).wf(),
            old(self).next_event_id < u64::MAX,
        ensures
            final(self).wf(),
            match r {
                Ok(frame) => is_live(old(self).state) && frame@ == finish_frame_spec(
                    old(self).next_event_id as nat,
                ) && final(self).state == state_after_finish(old(self).state) && final(self).next_event_id == old(self).next_event_id + 1 && final(self).issued@ == old(
                    self,
                ).issued@.push(old(self).next_event_id as nat),
                Err(e) => !is_live(old(self).state) && e == reject_error(old(self).state) && *final(self) == *old(self),
            },
    {
        if !self.is_live_now() {
            return Err(self.rejection());
        }
        let id = self.take_event_id();
        self.state = SessionState::Finishing;
        Ok(build_finish_frame(id))
    }

    /// The error a rejected command reports in the current state.
    fn rejection(&self) -> (e: SessionError)
        requires
            !is_live(self.state),
        ensures
            e == reject_error(self.state),
    {
        if self.is_terminal_now() {
            SessionError::SessionClosed
        } else {
            SessionError::NotConnected
        }
    }

    /// Whether a configure command leaves the state where it is.
    fn is_streaming_or_finishing(&self) -> (r: bool)
        ensures
            r == (self.state == SessionState::Streaming || self.state == SessionState::Finishing),
    {
        match self.state {
            SessionState::Streaming => true,
            SessionState::Finishing => true,
            _ => false,
        }
    }

    /// Consumes and returns the next event-id sequence number.
    fn take_event_id(&mut self) -> (id: u64)
        requires
            old(self).wf(),
            old(self).next_event_id < u64::MAX,
        ensures
            final(self).wf(),
            id == old(self).next_event_id,
            final(self).next_event_id == old(self).next_event_id + 1,
            final(self).issued@ == old(self).issued@.push(old(self).next_event_id as nat),
            final(self).state == old(self).state,
    {
        let id = self.next_event_id;
        self.next_event_id = self.next_event_id + 1;
        proof {
            self.issued@ = self.issued@.push(id as nat);
            assert(self.issued@ =~= Seq::new(self.next_event_id as nat, |i: int| i as nat));
        }
        id
    }

    /// Every outbound command of a session carries a distinct event id:
    /// the issued sequence numbers are pairwise distinct, and so are the
    /// event-id texts rendered from them.
    pub proof fn lemma_event_ids_distinct(&self)
        requires
            self.wf(),
        ensures
            forall|i: int, j: int|
                0 <= i < j < self.issued@.len() ==> self.issued@[i] != self.issued@[j],
            forall|i: int, j: int|
                0 <= i < j < self.issued@.len() ==> crate::codec::event_id_spec(self.issued@[i])
                    != crate::codec::event_id_spec(self.issued@[j]),
    {
        assert forall|i: int, j: int| 0 <= i < j < self.issued@.len() implies crate::codec::event_id_spec(
            self.issued@[i],
        ) != crate::codec::event_id_spec(self.issued@[j]) by {
            lemma_event_id_injective(self.issued@[i], self.issued@[j]);
        }
    }

    /// Policy shown for an append issued before any configure: it is
    /// permitted (the session is live), it moves the session to `Streaming`,
    /// and it consumes a fresh event id like every other command, so the
    /// ordering guarantees of later commands are unchanged.
    pub proof fn lemma_append_before_configure()
        ensures
            is_live(SessionState::Open),
            state_after_append(SessionState::Open) == SessionState::Streaming,
    {
    }

    /// A second finish is accepted without harm: after a finish the session
    /// is still live, a further finish stays at `Finishing`, and terminal
    /// transitions still come only from the dispatch loop.
    pub proof fn lemma_finish_repeatable()
        ensures
            is_live(SessionState::Finishing),
            state_after_finish(SessionState::Finishing) == SessionState::Finishing,
            !is_terminal(state_after_finish(SessionState::Finishing)),
    {
    }
}

} // verus!
