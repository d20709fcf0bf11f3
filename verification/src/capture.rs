//! One cycle of the capture loop, as a pure decision: given the buffer, the
//! message the trigger channel delivered this cycle (already classified) and
//! the frame the sensor delivered, advance the state machine and say what
//! the orchestrator must do - enqueue a completed window, or flush and shut
//! down on the kill word. The loop itself (socket poll, blocking frame read,
//! queue handoff) lives outside the library and calls this once per cycle.
//!
//! Also here: the one-time readiness handshake's fixed strings, checked
//! exactly.

use vstd::prelude::*;
use vstd::string::*;

use crate::buffer::{emits_like, step_flush, step_frame, step_trigger, DualWindowBuffer};
use crate::classifier::MessageType;
use crate::frame::{ImageData, Window};

verus! {

/// What one cycle tells the orchestrator: a window to enqueue (the completed
/// one, or the final flush on shutdown), and whether to exit the loop.
pub struct CycleOutcome {
    pub window: Option<Window>,
    pub kill: bool,
}

/// The message that ends the capture session.
pub open spec fn is_kill_text(m: MessageType) -> bool {
    m matches MessageType::Text(t) && t@ == "kill"@
}

/// One cycle: feed the classified message and then the frame into the
/// buffer, in that order. A structured event is a trigger; the kill word
/// flushes the in-flight window (the frame is not appended) and ends the
/// session; anything else - blank, other text, malformed JSON - leaves the
/// machine to the frame alone.
pub fn capture_cycle(buf: &mut DualWindowBuffer, msg: &MessageType, frame: ImageData) -> (out:
    CycleOutcome)
    requires
        old(buf).wf(),
    ensures
        final(buf).wf(),
        out.kill == is_kill_text(*msg),
        is_kill_text(*msg) ==> {
            &&& final(buf).model() == step_flush(old(buf).model()).0
            &&& out.window matches Some(w) && w.frames@ == step_flush(old(buf).model()).1.frames
                && w.tag == step_flush(old(buf).model()).1.tag
        },
        msg matches MessageType::JsonData(row) ==> {
            let triggered = step_trigger(old(buf).model(), *row);
            &&& final(buf).model() == step_frame(triggered, frame).0
            &&& emits_like(out.window, step_frame(triggered, frame).1)
        },
        !is_kill_text(*msg) && !(msg is JsonData) ==> {
            &&& final(buf).model() == step_frame(old(buf).model(), frame).0
            &&& emits_like(out.window, step_frame(old(buf).model(), frame).1)
        },
{
    match msg {
        MessageType::JsonData(row) => {
            buf.on_trigger(*row);
            let window = buf.push_frame(frame);
            CycleOutcome { window, kill: false }
        },
        MessageType::Text(text) => {
            let kill_word = String::from_str("kill");
            if *text == kill_word {
                let flushed = buf.flush();
                CycleOutcome { window: Some(flushed), kill: true }
            } else {
                let window = buf.push_frame(frame);
                CycleOutcome { window, kill: false }
            }
        },
        _ => {
            let window = buf.push_frame(frame);
            CycleOutcome { window, kill: false }
        },
    }
}

/// The greeting the capture node sends to the trigger source at startup.
pub fn handshake_greeting() -> (s: String)
    ensures
        s@ == "Hello"@,
{
    String::from_str("Hello")
}

/// The acknowledgment the trigger source sends back; the exchange succeeds
/// only on this exact string.
pub fn handshake_ack() -> (s: String)
    ensures
        s@ == "Welcome"@,
{
    String::from_str("Welcome")
}

/// Whether the trigger source's reply is the expected acknowledgment. The
/// match is exact: anything else fails the handshake and aborts startup.
pub fn check_handshake_reply(reply: &str) -> (ok: bool)
    ensures
        ok == (reply@ == "Welcome"@),
{
    let expected = String::from_str("Welcome");
    let got = reply.to_owned();
    got == expected
}

/// The control word that ends the capture session.
pub fn kill_word() -> (s: String)
    ensures
        s@ == "kill"@,
{
    String::from_str("kill")
}

} // verus!
