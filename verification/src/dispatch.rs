//! The event dispatch loop.
//!
//! A background task owns the readable half of the transport and hands each
//! arriving frame to this module's logic: text frames are decoded and
//! delivered to the callback, close frames end the session after an
//! `on_close`, other frames are ignored, and a read failure ends the session
//! abnormally. Every terminated run ends with exactly one `on_finish`, whose
//! reason distinguishes the server's finish signal from an abort, a remote
//! close and a transport failure. `run_model` is the mathematical model of
//! the loop; `run_frames` is the verified driver over a sequence of frames,
//! and the embedding program's async reader performs the same steps frame by
//! frame through `classify_frame` and `after_event`.

use vstd::prelude::*;
use crate::codec::{decode_event, decode_spec, EventModel, InboundEvent};

verus! {

/// One frame received from the transport, as the loop sees it: a text frame,
/// a close frame, any other frame (binary, control), or a read failure.
pub enum Frame {
    Text(String),
    Close,
    Other,
    ReadFailed,
}

/// Mathematical image of a `Frame`.
pub enum FrameModel {
    Text(Seq<char>),
    Close,
    Other,
    ReadFailed,
}

impl View for Frame {
    type V = FrameModel;

    open spec fn view(&self) -> FrameModel {
        match self {
            Frame::Text(s) => FrameModel::Text(s@),
            Frame::Close => FrameModel::Close,
            Frame::Other => FrameModel::Other,
            Frame::ReadFailed => FrameModel::ReadFailed,
        }
    }
}

/// View of a frame sequence.
pub open spec fn frames_view(s: Seq<Frame>) -> Seq<FrameModel> {
    s.map_values(|f: Frame| f@)
}

/// One callback delivery the loop makes before it ends: an inbound event, or
/// the close notice.
pub enum Delivery {
    Event(InboundEvent),
    Close,
}

/// Mathematical image of a `Delivery`.
pub enum DeliveryModel {
    Event(EventModel),
    Close,
}

impl View for Delivery {
    type V = DeliveryModel;

    open spec fn view(&self) -> DeliveryModel {
        match self {
            Delivery::Event(ev) => DeliveryModel::Event(ev@),
            Delivery::Close => DeliveryModel::Close,
        }
    }
}

/// View of a delivery sequence.
pub open spec fn deliveries_view(s: Seq<Delivery>) -> Seq<DeliveryModel> {
    s.map_values(|d: Delivery| d@)
}

/// Why a dispatch loop ended: the server's finish signal, a stop requested by
/// the callback, a close from the remote end, a transport failure, or a
/// cooperative cancellation by the caller (checked between frames, so a
/// stalled session can be torn down without waiting for the server).
#[derive(Clone, Copy, PartialEq, Eq, Structural, Debug)]
pub enum Termination {
    Finished,
    Aborted,
    ClosedByServer,
    TransportError,
    Cancelled,
}

/// The human-readable reason `on_finish` receives for each way the loop ends.
pub open spec fn reason_spec(t: Termination) -> Seq<char> {
    match t {
        Termination::Finished => "session.finished"@,
        Termination::Aborted => "aborted by callback"@,
        Termination::ClosedByServer => "connection closed by server"@,
        Termination::TransportError => "transport error"@,
        Termination::Cancelled => "cancelled by caller"@,
    }
}

/// The reason text for a termination.
pub fn reason_str(t: Termination) -> (r: &'static str)
    ensures
        r@ == reason_spec(t),
{
    match t {
        Termination::Finished => "session.finished",
        Termination::Aborted => "aborted by callback",
        Termination::ClosedByServer => "connection closed by server",
        Termination::TransportError => "transport error",
        Termination::Cancelled => "cancelled by caller",
    }
}

/// The message `on_close` receives when the remote end closes the transport.
pub open spec fn close_message_spec() -> Seq<char> {
    "Connection closed by server"@
}

/// Whether the loop stops after delivering `ev` and hearing the callback's
/// abort answer: the server's finish signal always stops it, and any other
/// event stops it exactly when the callback asked to abort.
pub open spec fn event_termination(ev: EventModel, abort: bool) -> Option<Termination> {
    if ev == EventModel::SessionFinished {
        Some(Termination::Finished)
    } else if abort {
        Some(Termination::Aborted)
    } else {
        None
    }
}

/// What one frame contributes to a run: the deliveries it causes and the
/// termination it forces, if any. A malformed text frame contributes nothing
/// and does not terminate.
pub open spec fn step_model(f: FrameModel, abort: bool) -> (Seq<DeliveryModel>, Option<
    Termination,
>) {
    match f {
        FrameModel::Text(s) => match decode_spec(s) {
            Some(ev) => (seq![DeliveryModel::Event(ev)], event_termination(ev, abort)),
            None => (Seq::empty(), None),
        },
        FrameModel::Close => (seq![DeliveryModel::Close], Some(Termination::ClosedByServer)),
        FrameModel::Other => (Seq::empty(), None),
        FrameModel::ReadFailed => (Seq::empty(), Some(Termination::TransportError)),
    }
}

/// The model of a dispatch run over a frame sequence: the deliveries made in
/// order and the termination, if one was reached. `aborts[i]` is the
/// callback's abort answer for frame `i` (ignored for frames that deliver no
/// event). Frames after the first terminating frame are never processed.
pub open spec fn run_model(frames: Seq<FrameModel>, aborts: Seq<bool>) -> (Seq<DeliveryModel>, Option<
    Termination,
>)
    decreases frames.len(),
{
    if frames.len() == 0 {
        (Seq::empty(), None)
    } else {
        let st = step_model(
            frames[0],
            if aborts.len() > 0 {
                aborts[0]
            } else {
                false
            },
        );
        if st.1 is Some {
            st
        } else {
            let rest = run_model(
                frames.drop_first(),
                if aborts.len() > 0 {
                    aborts.drop_first()
                } else {
                    aborts
                },
            );
            (st.0 + rest.0, rest.1)
        }
    }
}

/// Extending an unterminated run by one frame appends that frame's step;
/// extending a terminated run changes nothing.
pub proof fn lemma_run_push(frames: Seq<FrameModel>, aborts: Seq<bool>, f: FrameModel, b: bool)
    requires
        aborts.len() == frames.len(),
    ensures
        run_model(frames.push(f), aborts.push(b)) == (if run_model(frames, aborts).1 is Some {
            run_model(frames, aborts)
        } else {
            (run_model(frames, aborts).0 + step_model(f, b).0, step_model(f, b).1)
        }),
    decreases frames.len(),
{
    let lhs = run_model(frames.push(f), aborts.push(b));
    let stf = step_model(f, b);
    if frames.len() == 0 {
        assert(frames.push(f)[0] == f);
        assert(aborts.push(b)[0] == b);
        assert(frames.push(f).drop_first() =~= Seq::<FrameModel>::empty());
        assert(aborts.push(b).drop_first() =~= Seq::<bool>::empty());
        assert(run_model(frames, aborts) == (Seq::<DeliveryModel>::empty(), None::<Termination>));
        assert(run_model(frames.push(f).drop_first(), aborts.push(b).drop_first()) == (
            Seq::<DeliveryModel>::empty(),
            None::<Termination>,
        ));
        assert(stf.0 + Seq::<DeliveryModel>::empty() =~= stf.0);
        assert(Seq::<DeliveryModel>::empty() + stf.0 =~= stf.0);
        assert(lhs =~= (run_model(frames, aborts).0 + stf.0, stf.1));
    } else {
        assert(frames.push(f)[0] == frames[0]);
        assert(aborts.push(b)[0] == aborts[0]);
        assert(frames.push(f).drop_first() =~= frames.drop_first().push(f));
        assert(aborts.push(b).drop_first() =~= aborts.drop_first().push(b));
        let st0 = step_model(frames[0], aborts[0]);
        if st0.1 is Some {
            assert(lhs =~= run_model(frames, aborts));
        } else {
            lemma_run_push(frames.drop_first(), aborts.drop_first(), f, b);
            let rest = run_model(frames.drop_first(), aborts.drop_first());
            if rest.1 is Some {
                assert(lhs =~= run_model(frames, aborts));
            } else {
                assert(st0.0 + (rest.0 + stf.0) =~= (st0.0 + rest.0) + stf.0);
                assert(lhs =~= (run_model(frames, aborts).0 + stf.0, stf.1));
            }
        }
    }
}

/// A run that terminates within a prefix is unchanged by whatever frames
/// follow: nothing after the terminating frame is processed.
pub proof fn lemma_run_terminated_prefix(
    s1: Seq<FrameModel>,
    a1: Seq<bool>,
    s2: Seq<FrameModel>,
    a2: Seq<bool>,
)
    requires
        a1.len() == s1.len(),
        run_model(s1, a1).1 is Some,
    ensures
        run_model(s1 + s2, a1 + a2) == run_model(s1, a1),
    decreases s1.len(),
{
    assert(s1.len() > 0);
    assert((s1 + s2)[0] == s1[0]);
    assert((a1 + a2)[0] == a1[0]);
    let st0 = step_model(s1[0], a1[0]);
    if st0.1 is Some {
    } else {
        assert((s1 + s2).drop_first() =~= s1.drop_first() + s2);
        assert((a1 + a2).drop_first() =~= a1.drop_first() + a2);
        lemma_run_terminated_prefix(s1.drop_first(), a1.drop_first(), s2, a2);
        let rest = run_model(s1.drop_first(), a1.drop_first());
        assert(st0.0 + (rest.0 + Seq::<DeliveryModel>::empty()) =~= st0.0 + rest.0);
        assert(rest.0 + Seq::<DeliveryModel>::empty() =~= rest.0);
    }
}

/// A malformed inbound frame does not terminate the loop and delivers
/// nothing: the run over the remaining frames is exactly the run without it.
pub proof fn lemma_malformed_frame_skipped(
    s: Seq<char>,
    frames: Seq<FrameModel>,
    aborts: Seq<bool>,
    b: bool,
)
    requires
        decode_spec(s) is None,
    ensures
        run_model(seq![FrameModel::Text(s)] + frames, seq![b] + aborts) == run_model(
            frames,
            aborts,
        ),
{
    let all = seq![FrameModel::Text(s)] + frames;
    let allb = seq![b] + aborts;
    assert(all[0] == FrameModel::Text(s));
    assert(allb[0] == b);
    assert(all.drop_first() =~= frames);
    assert(allb.drop_first() =~= aborts);
    let r = run_model(frames, aborts);
    assert(Seq::<DeliveryModel>::empty() + r.0 =~= r.0);
}

/// The server's finish signal stops the loop at once: the finish event is
/// delivered, nothing after it is processed, and the reason handed to
/// `on_finish` is the one that names the signal, distinct from the reasons
/// of an abort, a remote close and a transport failure.
pub proof fn lemma_session_finished_stops(
    s: Seq<char>,
    frames: Seq<FrameModel>,
    aborts: Seq<bool>,
    b: bool,
)
    requires
        decode_spec(s) == Some(EventModel::SessionFinished),
    ensures
        run_model(seq![FrameModel::Text(s)] + frames, seq![b] + aborts) == (seq![
            DeliveryModel::Event(EventModel::SessionFinished),
        ], Some(Termination::Finished)),
        reason_spec(Termination::Finished) == "session.finished"@,
        reason_spec(Termination::Finished) != reason_spec(Termination::Aborted),
        reason_spec(Termination::Finished) != reason_spec(Termination::ClosedByServer),
        reason_spec(Termination::Finished) != reason_spec(Termination::TransportError),
        reason_spec(Termination::Finished) != reason_spec(Termination::Cancelled),
{
    let all = seq![FrameModel::Text(s)] + frames;
    let allb = seq![b] + aborts;
    assert(all[0] == FrameModel::Text(s));
    assert(allb[0] == b);
    reveal_strlit("session.finished");
    reveal_strlit("aborted by callback");
    reveal_strlit("connection closed by server");
    reveal_strlit("transport error");
    reveal_strlit("cancelled by caller");
    assert(reason_spec(Termination::Finished).len() == 16);
    assert(reason_spec(Termination::Aborted).len() == 19);
    assert(reason_spec(Termination::ClosedByServer).len() == 27);
    assert(reason_spec(Termination::TransportError).len() == 15);
}

// ---------------------------------------------------------------------------
// Whole-session callback ordering
// ---------------------------------------------------------------------------

/// One callback invocation, seen abstractly over a whole session.
pub enum CallModel {
    Open,
    Event(EventModel),
    Close,
    Finished(Seq<char>),
}

/// The call a delivery makes.
pub open spec fn delivery_call(d: DeliveryModel) -> CallModel {
    match d {
        DeliveryModel::Event(ev) => CallModel::Event(ev),
        DeliveryModel::Close => CallModel::Close,
    }
}

/// Every callback invocation of one session, in order. A failed handshake
/// produces no session and no invocation at all. A successful handshake
/// fires `on_open` once, before any inbound delivery; if the dispatch run
/// terminates, `on_finish` fires exactly once, last, with the run's reason.
pub open spec fn session_calls(
    handshake_ok: bool,
    frames: Seq<FrameModel>,
    aborts: Seq<bool>,
) -> Seq<CallModel> {
    if !handshake_ok {
        Seq::empty()
    } else {
        let r = run_model(frames, aborts);
        seq![CallModel::Open] + r.0.map_values(|d: DeliveryModel| delivery_call(d)) + (match r.1 {
            Some(t) => seq![CallModel::Finished(reason_spec(t))],
            None => Seq::empty(),
        })
    }
}

/// The callback contract over a whole session: no invocation without a
/// session; `on_open` first and only first; `on_finish` never before the
/// end, and exactly once, last, whenever the run terminates.
pub proof fn lemma_callback_order(handshake_ok: bool, frames: Seq<FrameModel>, aborts: Seq<bool>)
    ensures
        !handshake_ok ==> session_calls(handshake_ok, frames, aborts).len() == 0,
        handshake_ok ==> session_calls(handshake_ok, frames, aborts).len() >= 1 && session_calls(
            handshake_ok,
            frames,
            aborts,
        )[0] == CallModel::Open,
        forall|i: int|
            0 < i < session_calls(handshake_ok, frames, aborts).len() ==> session_calls(
                handshake_ok,
                frames,
                aborts,
            )[i] != CallModel::Open,
        forall|i: int|
            0 <= i < session_calls(handshake_ok, frames, aborts).len() && session_calls(
                handshake_ok,
                frames,
                aborts,
            )[i] is Finished ==> i == session_calls(handshake_ok, frames, aborts).len() - 1,
        handshake_ok && run_model(frames, aborts).1 is Some ==> session_calls(
            handshake_ok,
            frames,
            aborts,
        ).last() is Finished,
{
    if handshake_ok {
        let calls = session_calls(handshake_ok, frames, aborts);
        let r = run_model(frames, aborts);
        let mid = r.0.map_values(|d: DeliveryModel| delivery_call(d));
        let tail: Seq<CallModel> = match r.1 {
            Some(t) => seq![CallModel::Finished(reason_spec(t))],
            None => Seq::empty(),
        };
        assert(calls == seq![CallModel::Open] + mid + tail);
        assert forall|i: int| 0 < i < calls.len() implies calls[i] != CallModel::Open by {
            if i < 1 + mid.len() {
                assert(calls[i] == mid[i - 1]);
                let d = r.0[i - 1];
                assert(mid[i - 1] == delivery_call(d));
                match d {
                    DeliveryModel::Event(_) => {},
                    DeliveryModel::Close => {},
                }
            } else {
                assert(calls[i] == tail[i - 1 - mid.len()]);
            }
        }
        assert forall|i: int| 0 <= i < calls.len() && calls[i] is Finished implies i == calls.len()
            - 1 by {
            if i == 0 {
                assert(calls[0] == CallModel::Open);
            } else if i < 1 + mid.len() {
                assert(calls[i] == mid[i - 1]);
                let d = r.0[i - 1];
                assert(mid[i - 1] == delivery_call(d));
                match d {
                    DeliveryModel::Event(_) => {},
                    DeliveryModel::Close => {},
                }
            } else {
                assert(tail.len() == 1);
                assert(i == calls.len() - 1);
            }
        }
        if r.1 is Some {
            assert(calls.last() == tail[0]);
        }
    }
}

// ---------------------------------------------------------------------------
// The callback capability and the executable loop
// ---------------------------------------------------------------------------

/// The reactions a session consumer supplies. The dispatch loop is the only
/// caller: `on_open` once after the handshake, `on_event` once per decoded
/// inbound frame (its result asks the loop to stop), `on_close` when the
/// remote end closes, and `on_finish` exactly once when the loop ends.
/// Invocations are never concurrent: the loop serializes them.
pub trait QwenTtsRealtimeCallback {
    fn on_open(&mut self);

    fn on_close(&mut self, close_msg: &str);

    fn on_event(&mut self, event: &InboundEvent) -> bool;

    fn on_finish(&mut self, close_msg: &str);
}

/// What the loop does with one frame: deliver a decoded event, deliver the
/// close notice and stop, ignore the frame, or stop on a read failure.
pub enum Directive {
    Deliver(InboundEvent),
    CloseConnection,
    Ignore,
    Fail,
}

/// Decides one frame. The embedding program's reader performs exactly this
/// per frame: `Deliver` is followed by `on_event` and `after_event`,
/// `CloseConnection` by `on_close` and a stop, `Fail` by a stop.
pub fn classify_frame(frame: &Frame) -> (d: Directive)
    ensures
        match d {
            Directive::Deliver(ev) => frame@ is Text && decode_spec(frame@->Text_0) == Some(ev@),
            Directive::CloseConnection => frame@ is Close,
            Directive::Ignore => frame@ is Other || (frame@ is Text && decode_spec(
                frame@->Text_0,
            ) is None),
            Directive::Fail => frame@ is ReadFailed,
        },
{
    match frame {
        Frame::Text(s) => match decode_event(s.as_str()) {
            Some(ev) => Directive::Deliver(ev),
            None => Directive::Ignore,
        },
        Frame::Close => Directive::CloseConnection,
        Frame::Other => Directive::Ignore,
        Frame::ReadFailed => Directive::Fail,
    }
}

/// Decides whether the loop stops after an event was delivered and the
/// callback answered `abort`.
pub fn after_event(event: &InboundEvent, abort: bool) -> (t: Option<Termination>)
    ensures
        t == event_termination(event@, abort),
{
    if matches!(event, InboundEvent::SessionFinished) {
        Some(Termination::Finished)
    } else if abort {
        Some(Termination::Aborted)
    } else {
        None
    }
}

/// Runs the dispatch loop over a sequence of already-received frames:
/// decodes and delivers each one to the callback in order, stops at the
/// first terminating frame, and fires `on_finish` with the reason exactly
/// when a termination was reached. Returns the deliveries made and the
/// termination; together they equal the loop model under the callback's
/// abort answers.
pub fn run_frames<C: QwenTtsRealtimeCallback>(frames: &Vec<Frame>, cb: &mut C) -> (r: (
    Vec<Delivery>,
    Option<Termination>,
))
    ensures
        exists|ans: Seq<bool>|
            ans.len() == frames@.len() && run_model(frames_view(frames@), ans) == (
                deliveries_view(r.0@),
                r.1,
            ),
{
    let ghost fmodels = frames_view(frames@);
    let mut log: Vec<Delivery> = Vec::new();
    let ghost mut ans: Seq<bool> = Seq::empty();
    let mut term: Option<Termination> = None;
    let mut i: usize = 0;
    while i < frames.len() && term.is_none()
        invariant
            i <= frames@.len(),
            fmodels == frames_view(frames@),
            fmodels.len() == frames@.len(),
            ans.len() == i,
            run_model(fmodels.take(i as int), ans) == (deliveries_view(log@), term),
        decreases frames@.len() - i,
    {
        let ghost pre_ans = ans;
        let ghost pre_log = deliveries_view(log@);
        let ghost mut b: bool = false;
        match &frames[i] {
            Frame::Text(s) => {
                match decode_event(s.as_str()) {
                    None => {
                        proof {
                            ans = ans.push(false);
                        }
                    },
                    Some(ev) => {
                        let is_fin = matches!(ev, InboundEvent::SessionFinished);
                        let abort = cb.on_event(&ev);
                        proof {
                            ans = ans.push(abort);
                            b = abort;
                        }
                        log.push(Delivery::Event(ev));
                        if is_fin {
                            term = Some(Termination::Finished);
                        } else if abort {
                            term = Some(Termination::Aborted);
                        }
                    },
                }
            },
            Frame::Close => {
                cb.on_close("Connection closed by server");
                log.push(Delivery::Close);
                term = Some(Termination::ClosedByServer);
                proof {
                    ans = ans.push(false);
                }
            },
            Frame::Other => {
                proof {
                    ans = ans.push(false);
                }
            },
            Frame::ReadFailed => {
                term = Some(Termination::TransportError);
                proof {
                    ans = ans.push(false);
                }
            },
        }
        proof {
            lemma_run_push(fmodels.take(i as int), pre_ans, fmodels[i as int], b);
            assert(fmodels.take(i + 1 as int) =~= fmodels.take(i as int).push(fmodels[i as int]));
            assert(ans =~= pre_ans.push(b));
            assert(deliveries_view(log@) =~= pre_log + step_model(fmodels[i as int], b).0);
            assert(run_model(fmodels.take(i + 1 as int), ans) == (deliveries_view(log@), term));
        }
        i = i + 1;
    }
    match &term {
        Some(t) => {
            cb.on_finish(reason_str(*t));
        },
        None => {},
    }
    proof {
        if i == frames@.len() {
            assert(fmodels.take(i as int) =~= fmodels);
            assert(ans.len() == frames@.len() && run_model(fmodels, ans) == (
                deliveries_view(log@),
                term,
            ));
        } else {
            let pad_f = fmodels.skip(i as int);
            let pad_a = Seq::new((frames@.len() - i) as nat, |_j: int| false);
            lemma_run_terminated_prefix(fmodels.take(i as int), ans, pad_f, pad_a);
            assert(fmodels.take(i as int) + pad_f =~= fmodels);
            let full = ans + pad_a;
            assert(full.len() == frames@.len() && run_model(fmodels, full) == (
                deliveries_view(log@),
                term,
            ));
        }
    }
    (log, term)
}

/// Runs one whole session against already-received frames. A failed
/// handshake produces no session: the callback is never touched and no
/// reaction fires. A successful one fires `on_open` exactly once, before any
/// delivery, then dispatches the frames as `run_frames` does.
pub fn run_session<C: QwenTtsRealtimeCallback>(
    handshake_ok: bool,
    frames: &Vec<Frame>,
    cb: &mut C,
) -> (r: Option<(Vec<Delivery>, Option<Termination>)>)
    ensures
        !handshake_ok ==> r is None,
        match r {
            Some(out) => handshake_ok && exists|ans: Seq<bool>|
                ans.len() == frames@.len() && run_model(frames_view(frames@), ans) == (
                    deliveries_view(out.0@),
                    out.1,
                ),
            None => !handshake_ok,
        },
{
    if !handshake_ok {
        return None;
    }
    cb.on_open();
    Some(run_frames(frames, cb))
}

} // verus!
