//! Wire codec for the session protocol.
//!
//! Every message on the transport is a JSON text frame. Outbound frames are
//! produced here character-exactly: the specification functions below define
//! the frame text, and the executable builders are proved to return it.
//! Inbound frames are classified into a closed set of event kinds by the
//! `type` discriminator of their envelope; the envelope itself is read by
//! `serde_json` behind one trusted wrapper.

use vstd::prelude::*;
use vstd::string::*;

verus! {

// ---------------------------------------------------------------------------
// Decimal rendering of event ids and sample rates
// ---------------------------------------------------------------------------

/// The character for one decimal digit.
pub open spec fn digit_char(d: int) -> char {
    if d == 0 {
        '0'
    } else if d == 1 {
        '1'
    } else if d == 2 {
        '2'
    } else if d == 3 {
        '3'
    } else if d == 4 {
        '4'
    } else if d == 5 {
        '5'
    } else if d == 6 {
        '6'
    } else if d == 7 {
        '7'
    } else if d == 8 {
        '8'
    } else {
        '9'
    }
}

/// Decimal rendering of a natural number, most significant digit first,
/// without leading zeros (`0` renders as `"0"`).
pub open spec fn dec_spec(n: nat) -> Seq<char>
    decreases n,
{
    if n < 10 {
        seq![digit_char(n as int)]
    } else {
        dec_spec(n / 10).push(digit_char((n % 10) as int))
    }
}

fn digit_str(d: u64) -> (r: &'static str)
    requires
        d < 10,
    ensures
        r@ == seq![digit_char(d as int)],
{
    if d == 0 {
        proof {
            reveal_strlit("0");
            assert("0"@ =~= seq![digit_char(0)]);
        }
        "0"
    } else if d == 1 {
        proof {
            reveal_strlit("1");
            assert("1"@ =~= seq![digit_char(1)]);
        }
        "1"
    } else if d == 2 {
        proof {
            reveal_strlit("2");
            assert("2"@ =~= seq![digit_char(2)]);
        }
        "2"
    } else if d == 3 {
        proof {
            reveal_strlit("3");
            assert("3"@ =~= seq![digit_char(3)]);
        }
        "3"
    } else if d == 4 {
        proof {
            reveal_strlit("4");
            assert("4"@ =~= seq![digit_char(4)]);
        }
        "4"
    } else if d == 5 {
        proof {
            reveal_strlit("5");
            assert("5"@ =~= seq![digit_char(5)]);
        }
        "5"
    } else if d == 6 {
        proof {
            reveal_strlit("6");
            assert("6"@ =~= seq![digit_char(6)]);
        }
        "6"
    } else if d == 7 {
        proof {
            reveal_strlit("7");
            assert("7"@ =~= seq![digit_char(7)]);
        }
        "7"
    } else if d == 8 {
        proof {
            reveal_strlit("8");
            assert("8"@ =~= seq![digit_char(8)]);
        }
        "8"
    } else {
        proof {
            reveal_strlit("9");
            assert("9"@ =~= seq![digit_char(9)]);
        }
        "9"
    }
}

/// Appends the decimal rendering of `n` to `out`.
pub fn append_dec(out: &mut String, n: u64)
    ensures
        final(out)@ == old(out)@ + dec_spec(n as nat),
    decreases n,
{
    if n < 10 {
        out.append(digit_str(n));
        proof {
            assert(out@ =~= old(out)@ + dec_spec(n as nat));
        }
    } else {
        append_dec(out, n / 10);
        out.append(digit_str(n % 10));
        proof {
            assert(out@ =~= old(out)@ + dec_spec(n as nat));
        }
    }
}

/// Two distinct numbers never render to the same decimal text.
pub proof fn lemma_dec_injective(a: nat, b: nat)
    requires
        dec_spec(a) == dec_spec(b),
    ensures
        a == b,
    decreases a + b,
{
    lemma_dec_len(a);
    lemma_dec_len(b);
    if a < 10 && b < 10 {
        assert(dec_spec(a)[0] == digit_char(a as int));
        assert(dec_spec(b)[0] == digit_char(b as int));
    } else if a >= 10 && b >= 10 {
        assert(dec_spec(a).last() == digit_char((a % 10) as int));
        assert(dec_spec(b).last() == digit_char((b % 10) as int));
        assert(a % 10 == b % 10);
        assert(dec_spec(a).drop_last() =~= dec_spec(a / 10));
        assert(dec_spec(b).drop_last() =~= dec_spec(b / 10));
        lemma_dec_injective(a / 10, b / 10);
    } else if a < 10 {
        assert(dec_spec(b).len() >= 2);
        assert(false);
    } else {
        assert(dec_spec(a).len() >= 2);
        assert(false);
    }
}

/// A decimal rendering is never empty, and has at least two characters
/// for numbers of two digits.
pub proof fn lemma_dec_len(n: nat)
    ensures
        dec_spec(n).len() >= 1,
        n >= 10 ==> dec_spec(n).len() >= 2,
    decreases n,
{
    if n >= 10 {
        lemma_dec_len(n / 10);
    }
}

// ---------------------------------------------------------------------------
// JSON string escaping
// ---------------------------------------------------------------------------

/// The character for one hexadecimal digit, lower case.
pub open spec fn hex_char(d: int) -> char {
    if d < 10 {
        digit_char(d)
    } else if d == 10 {
        'a'
    } else if d == 11 {
        'b'
    } else if d == 12 {
        'c'
    } else if d == 13 {
        'd'
    } else if d == 14 {
        'e'
    } else {
        'f'
    }
}

/// How one character appears inside a JSON string literal: quote and
/// backslash get a backslash escape, control characters become `\u00XX`,
/// and every other character stands for itself.
pub open spec fn esc_char(c: char) -> Seq<char> {
    if c == '"' {
        seq!['\\', '"']
    } else if c == '\\' {
        seq!['\\', '\\']
    } else if (c as u32) < 0x20 {
        seq!['\\', 'u', '0', '0', hex_char((c as u32) as int / 16), hex_char((c as u32) as int % 16)]
    } else {
        seq![c]
    }
}

/// The body of a JSON string literal holding the text `s`.
pub open spec fn escape_spec(s: Seq<char>) -> Seq<char>
    decreases s.len(),
{
    if s.len() == 0 {
        Seq::empty()
    } else {
        escape_spec(s.drop_last()) + esc_char(s.last())
    }
}

fn hex_str(d: u32) -> (r: &'static str)
    requires
        d < 16,
    ensures
        r@ == seq![hex_char(d as int)],
{
    if d < 10 {
        digit_str(d as u64)
    } else if d == 10 {
        proof {
            reveal_strlit("a");
            assert("a"@ =~= seq![hex_char(10)]);
        }
        "a"
    } else if d == 11 {
        proof {
            reveal_strlit("b");
            assert("b"@ =~= seq![hex_char(11)]);
        }
        "b"
    } else if d == 12 {
        proof {
            reveal_strlit("c");
            assert("c"@ =~= seq![hex_char(12)]);
        }
        "c"
    } else if d == 13 {
        proof {
            reveal_strlit("d");
            assert("d"@ =~= seq![hex_char(13)]);
        }
        "d"
    } else if d == 14 {
        proof {
            reveal_strlit("e");
            assert("e"@ =~= seq![hex_char(14)]);
        }
        "e"
    } else {
        proof {
            reveal_strlit("f");
            assert("f"@ =~= seq![hex_char(15)]);
        }
        "f"
    }
}

/// Appends `s`, escaped for use inside a JSON string literal, to `out`.
pub fn append_escaped(out: &mut String, s: &str)
    ensures
        final(out)@ == old(out)@ + escape_spec(s@),
{
    let n: usize = s.unicode_len();
    let mut i: usize = 0;
    while i < n
        invariant
            n == s@.len(),
            i <= n,
            out@ == old(out)@ + escape_spec(s@.take(i as int)),
        decreases n - i,
    {
        let c = s.get_char(i);
        if c == '"' {
            out.append("\\\"");
            proof {
                reveal_strlit("\\\"");
                assert("\\\""@ =~= esc_char('"'));
            }
        } else if c == '\\' {
            out.append("\\\\");
            proof {
                reveal_strlit("\\\\");
                assert("\\\\"@ =~= esc_char('\\'));
            }
        } else if (c as u32) < 0x20 {
            out.append("\\u00");
            out.append(hex_str((c as u32) / 16));
            out.append(hex_str((c as u32) % 16));
            proof {
                reveal_strlit("\\u00");
                assert("\\u00"@ + seq![hex_char((c as u32) as int / 16)] + seq![
                    hex_char((c as u32) as int % 16),
                ] =~= esc_char(c));
            }
        } else {
            let piece = s.substring_char(i, i + 1);
            out.append(piece);
            proof {
                assert(piece@ =~= esc_char(c));
            }
        }
        proof {
            assert(s@.take(i + 1 as int).drop_last() =~= s@.take(i as int));
            assert(s@.take(i + 1 as int).last() == c);
            assert(escape_spec(s@.take(i + 1 as int)) == escape_spec(s@.take(i as int)) + esc_char(
                c,
            ));
            assert(out@ =~= old(out)@ + escape_spec(s@.take(i + 1 as int)));
        }
        i = i + 1;
    }
    proof {
        assert(s@.take(n as int) =~= s@);
    }
}

// ---------------------------------------------------------------------------
// Outbound frames
// ---------------------------------------------------------------------------

/// The event id attached to the `n`-th outbound command of a session.
pub open spec fn event_id_spec(n: nat) -> Seq<char> {
    "event_"@ + dec_spec(n)
}

/// Two commands with distinct sequence numbers carry distinct event ids.
pub proof fn lemma_event_id_injective(a: nat, b: nat)
    requires
        a != b,
    ensures
        event_id_spec(a) != event_id_spec(b),
{
    if event_id_spec(a) == event_id_spec(b) {
        let p = "event_"@;
        assert(dec_spec(a) =~= event_id_spec(a).skip(p.len() as int));
        assert(dec_spec(b) =~= event_id_spec(b).skip(p.len() as int));
        lemma_dec_injective(a, b);
    }
}

/// Text of the `session.update` frame: the configuration command.
pub open spec fn configure_frame_spec(
    id: nat,
    voice: Seq<char>,
    response_format: Seq<char>,
    sample_rate: nat,
    mode: Seq<char>,
) -> Seq<char> {
    "{\"event_id\":\"event_"@ + dec_spec(id) + "\",\"type\":\"session.update\",\"session\":{\"voice\":\""@
        + escape_spec(voice) + "\",\"mode\":\""@ + escape_spec(mode) + "\",\"response_format\":\""@
        + escape_spec(response_format) + "\",\"sample_rate\":"@ + dec_spec(sample_rate) + "}}"@
}

/// Text of the `input_text_buffer.append` frame: one text increment.
pub open spec fn append_frame_spec(id: nat, text: Seq<char>) -> Seq<char> {
    "{\"event_id\":\"event_"@ + dec_spec(id) + "\",\"type\":\"input_text_buffer.append\",\"text\":\""@
        + escape_spec(text) + "\"}"@
}

/// Text of the `session.finish` frame: the end-of-input signal.
pub open spec fn finish_frame_spec(id: nat) -> Seq<char> {
    "{\"event_id\":\"event_"@ + dec_spec(id) + "\",\"type\":\"session.finish\"}"@
}

/// Builds the `session.update` frame text.
pub fn build_configure_frame(
    id: u64,
    voice: &str,
    response_format: &str,
    sample_rate: u32,
    mode: &str,
) -> (r: String)
    ensures
        r@ == configure_frame_spec(
            id as nat,
            voice@,
            response_format@,
            sample_rate as nat,
            mode@,
        ),
{
    let mut r = String::new();
    r.append("{\"event_id\":\"event_");
    append_dec(&mut r, id);
    r.append("\",\"type\":\"session.update\",\"session\":{\"voice\":\"");
    append_escaped(&mut r, voice);
    r.append("\",\"mode\":\"");
    append_escaped(&mut r, mode);
    r.append("\",\"response_format\":\"");
    append_escaped(&mut r, response_format);
    r.append("\",\"sample_rate\":");
    append_dec(&mut r, sample_rate as u64);
    r.append("}}");
    proof {
        assert(r@ =~= configure_frame_spec(
            id as nat,
            voice@,
            response_format@,
            sample_rate as nat,
            mode@,
        ));
    }
    r
}

/// Builds the `input_text_buffer.append` frame text.
pub fn build_append_frame(id: u64, text: &str) -> (r: String)
    ensures
        r@ == append_frame_spec(id as nat, text@),
{
    let mut r = String::new();
    r.append("{\"event_id\":\"event_");
    append_dec(&mut r, id);
    r.append("\",\"type\":\"input_text_buffer.append\",\"text\":\"");
    append_escaped(&mut r, text);
    r.append("\"}");
    proof {
        assert(r@ =~= append_frame_spec(id as nat, text@));
    }
    r
}

/// Builds the `session.finish` frame text.
pub fn build_finish_frame(id: u64) -> (r: String)
    ensures
        r@ == finish_frame_spec(id as nat),
{
    let mut r = String::new();
    r.append("{\"event_id\":\"event_");
    append_dec(&mut r, id);
    r.append("\",\"type\":\"session.finish\"}");
    proof {
        assert(r@ =~= finish_frame_spec(id as nat));
    }
    r
}

// ---------------------------------------------------------------------------
// Inbound events
// ---------------------------------------------------------------------------

/// One inbound event, classified from the envelope's `type` discriminator.
/// Unrecognized discriminators are carried through as `Unknown`, never
/// dropped silently.
pub enum InboundEvent {
    SessionCreated,
    AudioDelta { base64_payload: String },
    ResponseDone,
    SessionFinished,
    Unknown { raw_type: String },
}

/// Mathematical image of an `InboundEvent`.
pub enum EventModel {
    SessionCreated,
    AudioDelta(Seq<char>),
    ResponseDone,
    SessionFinished,
    Unknown(Seq<char>),
}

impl View for InboundEvent {
    type V = EventModel;

    open spec fn view(&self) -> EventModel {
        match self {
            InboundEvent::SessionCreated => EventModel::SessionCreated,
            InboundEvent::AudioDelta { base64_payload } => EventModel::AudioDelta(
                base64_payload@,
            ),
            InboundEvent::ResponseDone => EventModel::ResponseDone,
            InboundEvent::SessionFinished => EventModel::SessionFinished,
            InboundEvent::Unknown { raw_type } => EventModel::Unknown(raw_type@),
        }
    }
}

/// The envelope fields that classification reads from an inbound text frame:
/// the top-level `type` member and, when present as a string, the top-level
/// `delta` member. `None` when the text is not a JSON object whose `type`
/// member is a string; such a frame is malformed and is skipped.
pub uninterp spec fn envelope_fields(s: Seq<char>) -> Option<(Seq<char>, Option<Seq<char>>)>;

/// View of the optional delta payload.
pub open spec fn opt_str_view(o: Option<String>) -> Option<Seq<char>> {
    match o {
        Some(s) => Some(s@),
        None => None,
    }
}

/// Relies on `serde_json::from_str`, `Value::get` and `Value::as_str`: parses
/// the frame as JSON and reads the top-level `type` and `delta` string
/// members. The result is a function of the frame text alone, named by
/// `envelope_fields`.
#[verifier::external_body]
fn extract_envelope(text: &str) -> (r: Option<(String, Option<String>)>)
    ensures
        match r {
            Some(f) => envelope_fields(text@) == Some((f.0@, opt_str_view(f.1))),
            None => envelope_fields(text@) is None,
        },
{
    let v: serde_json::Value = match serde_json::from_str(text) {
        Ok(v) => v,
        Err(_) => return None,
    };
    let t = match v.get("type").and_then(|t| t.as_str()) {
        Some(t) => t.to_string(),
        None => return None,
    };
    let d = v.get("delta").and_then(|d| d.as_str()).map(|d| d.to_string());
    Some((t, d))
}

/// Classification of envelope fields into the closed set of event kinds.
pub open spec fn classify_spec(event_type: Seq<char>, delta: Option<Seq<char>>) -> EventModel {
    if event_type == "session.created"@ {
        EventModel::SessionCreated
    } else if event_type == "response.audio.delta"@ {
        EventModel::AudioDelta(
            match delta {
                Some(d) => d,
                None => Seq::empty(),
            },
        )
    } else if event_type == "response.done"@ {
        EventModel::ResponseDone
    } else if event_type == "session.finished"@ {
        EventModel::SessionFinished
    } else {
        EventModel::Unknown(event_type)
    }
}

/// What an inbound text frame decodes to: `None` for a malformed frame,
/// otherwise the classified event.
pub open spec fn decode_spec(s: Seq<char>) -> Option<EventModel> {
    match envelope_fields(s) {
        Some(f) => Some(classify_spec(f.0, f.1)),
        None => None,
    }
}

/// Classifies already-extracted envelope fields.
pub fn classify_event(event_type: String, delta: Option<String>) -> (r: InboundEvent)
    ensures
        r@ == classify_spec(event_type@, opt_str_view(delta)),
{
    if event_type == String::from_str("session.created") {
        InboundEvent::SessionCreated
    } else if event_type == String::from_str("response.audio.delta") {
        let payload = match delta {
            Some(d) => d,
            None => String::new(),
        };
        InboundEvent::AudioDelta { base64_payload: payload }
    } else if event_type == String::from_str("response.done") {
        InboundEvent::ResponseDone
    } else if event_type == String::from_str("session.finished") {
        InboundEvent::SessionFinished
    } else {
        InboundEvent::Unknown { raw_type: event_type }
    }
}

/// Decodes one inbound text frame: `None` for a malformed frame (not JSON,
/// or no string `type` member), otherwise the classified event.
pub fn decode_event(text: &str) -> (r: Option<InboundEvent>)
    ensures
        match r {
            Some(ev) => decode_spec(text@) == Some(ev@),
            None => decode_spec(text@) is None,
        },
{
    match extract_envelope(text) {
        Some((event_type, delta)) => Some(classify_event(event_type, delta)),
        None => None,
    }
}

} // verus!
