//! The event relay's routing rules: one process-wide outbound slot,
//! verbatim re-broadcast of `node_output` frames, and the shape of the
//! `chat_response` event. The sockets themselves live outside; the
//! relay decides, the host delivers.

use vstd::prelude::*;
use vstd::string::*;

use crate::json_data::{decode_string_field, spec_decoded_string_field};
use crate::text::{append_json_string, spec_json_string};

verus! {

/// A frame queued for delivery to one connection's outbound channel.
pub struct OutboundFrame {
    /// The connection whose sender held the slot when the frame was
    /// queued.
    pub connection: u64,
    /// The frame text, exactly as it goes on the wire.
    pub text: String,
}

/// The mathematical content of an [`OutboundFrame`].
pub struct FrameView {
    pub connection: u64,
    pub text: Seq<char>,
}

impl View for OutboundFrame {
    type V = FrameView;

    open spec fn view(&self) -> FrameView {
        FrameView { connection: self.connection, text: self.text@ }
    }
}

/// The single broadcast slot plus the frames queued for delivery.
///
/// At most one connection's sender is live at a time: registering a
/// new connection overwrites the previous slot, so a frame queued
/// after a registration goes to the most recent connection only. The
/// host drains `outbox` to the wire.
pub struct RelaySlot {
    /// The connection currently holding the outbound slot, if any.
    pub current: Option<u64>,
    /// Frames queued for delivery, oldest first.
    pub outbox: Vec<OutboundFrame>,
}

/// The mathematical content of a [`RelaySlot`].
pub struct RelaySlotView {
    pub current: Option<u64>,
    pub outbox: Seq<FrameView>,
}

impl View for RelaySlot {
    type V = RelaySlotView;

    open spec fn view(&self) -> RelaySlotView {
        RelaySlotView {
            current: self.current,
            outbox: self.outbox@.map_values(|f: OutboundFrame| f@),
        }
    }
}

/// What became of one inbound text frame.
#[derive(Debug, PartialEq, Eq)]
pub enum RouteOutcome {
    /// A `node_output` frame was queued verbatim for the slot's holder.
    Rebroadcast,
    /// A `node_output` frame arrived while no slot was registered.
    NoListener,
    /// The frame had a `type` the relay does not know; it was dropped.
    /// Carries that type for the caller's log line.
    Unknown(String),
    /// The frame was not a JSON object with a string `type`; dropped.
    NotEvent,
}

/// The wire text of the `chat_response` event that mirrors a finished
/// chat completion to the registered listener.
pub open spec fn spec_chat_event(
    model: Seq<char>,
    message: Seq<char>,
    response: Seq<char>,
    ts: Seq<char>,
) -> Seq<char> {
    "{\"type\":\"chat_response\",\"data\":{\"model\":"@ + spec_json_string(model)
        + ",\"message\":"@ + spec_json_string(message) + ",\"response\":"@ + spec_json_string(
        response,
    ) + ",\"timestamp\":"@ + spec_json_string(ts) + "}}"@
}

/// Builds the `chat_response` event text.
pub fn build_chat_event(model: &str, message: &str, response: &str, ts: &str) -> (r: String)
    ensures
        r@ == spec_chat_event(model@, message@, response@, ts@),
{
    let mut out = String::from_str("{\"type\":\"chat_response\",\"data\":{\"model\":");
    append_json_string(&mut out, model);
    out.append(",\"message\":");
    append_json_string(&mut out, message);
    out.append(",\"response\":");
    append_json_string(&mut out, response);
    out.append(",\"timestamp\":");
    append_json_string(&mut out, ts);
    out.append("}}");
    assert(out@ =~= spec_chat_event(model@, message@, response@, ts@));
    out
}

/// Whether `post` is `pre` with one frame for connection `conn`,
/// holding the text `text`, appended to the outbox and nothing else
/// changed.
pub open spec fn spec_queued(
    pre: RelaySlotView,
    post: RelaySlotView,
    conn: u64,
    text: Seq<char>,
) -> bool {
    &&& post.current == pre.current
    &&& post.outbox == pre.outbox.push(FrameView { connection: conn, text })
}

impl RelaySlot {
    /// A relay with no registered listener and nothing queued.
    pub fn new() -> (r: RelaySlot)
        ensures
            r@.current is None,
            r@.outbox == Seq::<FrameView>::empty(),
    {
        let r = RelaySlot { current: None, outbox: Vec::new() };
        assert(r@.outbox =~= Seq::<FrameView>::empty());
        r
    }

    /// Hands the outbound slot to `conn`, overwriting whoever held it.
    pub fn register(&mut self, conn: u64)
        ensures
            final(self)@.current == Some(conn),
            final(self)@.outbox == old(self)@.outbox,
    {
        self.current = Some(conn);
    }

    /// Routes one inbound text frame by its `type`: a `node_output`
    /// frame is re-broadcast verbatim to the slot's current holder,
    /// an unknown type is reported for logging and dropped, and text
    /// that is no typed event is dropped silently.
    pub fn route_frame(&mut self, text: &str) -> (r: RouteOutcome)
        ensures
            match spec_decoded_string_field(text@, "type"@) {
                Some(t) => {
                    if t == "node_output"@ {
                        match old(self)@.current {
                            Some(conn) => r == RouteOutcome::Rebroadcast && spec_queued(
                                old(self)@,
                                final(self)@,
                                conn,
                                text@,
                            ),
                            None => r == RouteOutcome::NoListener && final(self)@ == old(self)@,
                        }
                    } else {
                        &&& r matches RouteOutcome::Unknown(u) && u@ == t
                        &&& final(self)@ == old(self)@
                    }
                },
                None => r == RouteOutcome::NotEvent && final(self)@ == old(self)@,
            },
    {
        let ghost pre = self@;
        match decode_string_field(text, "type") {
            Some(t) => {
                let node_output = String::from_str("node_output");
                if t == node_output {
                    match self.current {
                        Some(conn) => {
                            self.outbox.push(
                                OutboundFrame { connection: conn, text: text.to_owned() },
                            );
                            proof {
                                assert(self@.outbox =~= pre.outbox.push(
                                    FrameView { connection: conn, text: text@ },
                                ));
                            }
                            RouteOutcome::Rebroadcast
                        },
                        None => {
                            proof {
                                assert(self@ =~= pre);
                            }
                            RouteOutcome::NoListener
                        },
                    }
                } else {
                    proof {
                        assert(self@ =~= pre);
                    }
                    RouteOutcome::Unknown(t)
                }
            },
            None => {
                proof {
                    assert(self@ =~= pre);
                }
                RouteOutcome::NotEvent
            },
        }
    }

    /// Queues the `chat_response` event for the slot's holder, if one
    /// is registered. Returns whether a frame was queued; a missing
    /// listener is not an error.
    pub fn publish_chat_response(
        &mut self,
        model: &str,
        message: &str,
        response: &str,
        ts: &str,
    ) -> (delivered: bool)
        ensures
            match old(self)@.current {
                Some(conn) => delivered && spec_queued(
                    old(self)@,
                    final(self)@,
                    conn,
                    spec_chat_event(model@, message@, response@, ts@),
                ),
                None => !delivered && final(self)@ == old(self)@,
            },
    {
        let ghost pre = self@;
        match self.current {
            Some(conn) => {
                let event = build_chat_event(model, message, response, ts);
                let ghost event_view = event@;
                self.outbox.push(OutboundFrame { connection: conn, text: event });
                proof {
                    assert(self@.outbox =~= pre.outbox.push(
                        FrameView { connection: conn, text: event_view },
                    ));
                }
                true
            },
            None => {
                proof {
                    assert(self@ =~= pre);
                }
                false
            },
        }
    }

    /// Hands the queued frames to the host for delivery, leaving the
    /// outbox empty and the slot untouched.
    pub fn drain_outbox(&mut self) -> (r: Vec<OutboundFrame>)
        ensures
            r@.map_values(|f: OutboundFrame| f@) == old(self)@.outbox,
            final(self)@.outbox == Seq::<FrameView>::empty(),
            final(self)@.current == old(self)@.current,
    {
        let mut out: Vec<OutboundFrame> = Vec::new();
        std::mem::swap(&mut out, &mut self.outbox);
        assert(final(self)@.outbox =~= Seq::<FrameView>::empty());
        out
    }
}

/// The reply text of a diagnostic echo listener: the received text,
/// prefixed with the moment it arrived.
pub open spec fn spec_echo_reply(ts: Seq<char>, text: Seq<char>) -> Seq<char> {
    "Received at "@ + ts + ": "@ + text
}

/// Builds the echo reply for a frame received at `ts`. Kept for a host
/// that binds a plain echo session instead of the typed relay; the
/// relay's own routing never calls it.
pub fn echo_reply(ts: &str, text: &str) -> (r: String)
    ensures
        r@ == spec_echo_reply(ts@, text@),
{
    let mut out = String::from_str("Received at ");
    out.append(ts);
    out.append(": ");
    out.append(text);
    assert(out@ =~= spec_echo_reply(ts@, text@));
    out
}

/// Relay single-slot law: after two registrations the slot belongs to
/// the later one, so a `node_output` frame routed then is queued for
/// the most recently registered connection alone — the earlier
/// connection receives nothing new.
pub proof fn lemma_relay_single_slot(
    v0: RelaySlotView,
    v1: RelaySlotView,
    v2: RelaySlotView,
    v3: RelaySlotView,
    a: u64,
    b: u64,
    frame: Seq<char>,
)
    requires
        // first connection registers...
        v1.current == Some(a) && v1.outbox == v0.outbox,
        // ...then the second overwrites the slot...
        v2.current == Some(b) && v2.outbox == v1.outbox,
        // ...and a node_output frame is routed.
        spec_queued(v2, v3, v2.current.unwrap(), frame),
    ensures
        v3.outbox.len() == v2.outbox.len() + 1,
        v3.outbox.last() == (FrameView { connection: b, text: frame }),
        forall|i: int|
            v2.outbox.len() <= i < v3.outbox.len() ==> v3.outbox[i].connection == b,
{
}

} // verus!
