//! Transport gateway: dispatches decoded envelopes against the session
//! registry, tracks per-connection liveness, and turns socket frames into
//! replies, bus events and connection-state changes.

use vstd::prelude::*;
use crate::protocol::{
    control_of, decode_message, normalize_control, ws_decode, BusEvent, BusSpec, MessageOutcome,
    OutcomeSpec, Reply, ReplySpec, WsEnvelope, WsMessage,
};
use crate::session::{
    mark_connected, sweep_map, HandshakeOutcome, QrManager, SessionInfo,
};
use crate::text::str_eq;

verus! {

/// Interval between gateway liveness pings.
pub const HEARTBEAT_INTERVAL_MS: u64 = 5000;

/// Spec-level handshake verdict.
pub enum HandshakeSpec {
    NotFound,
    Mismatch,
    Accepted(Seq<char>),
}

/// What validating `tok` against the registry at `now_ms` decides, when the
/// client supplied `provided` as the image id it expects to control.
pub open spec fn handshake_result(
    pre: Map<Seq<char>, SessionInfo>,
    tok: Seq<char>,
    provided: Option<Seq<char>>,
    now_ms: u64,
) -> HandshakeSpec {
    let swept = sweep_map(pre, now_ms);
    if !swept.dom().contains(tok) {
        HandshakeSpec::NotFound
    } else {
        match provided {
            Some(p) => if p != swept[tok].image_id {
                HandshakeSpec::Mismatch
            } else {
                HandshakeSpec::Accepted(swept[tok].image_id)
            },
            None => HandshakeSpec::Accepted(swept[tok].image_id),
        }
    }
}

/// The registry after that handshake: expired sessions are swept either way;
/// only an accepted handshake marks the session connected.
pub open spec fn handshake_map(
    pre: Map<Seq<char>, SessionInfo>,
    tok: Seq<char>,
    provided: Option<Seq<char>>,
    now_ms: u64,
) -> Map<Seq<char>, SessionInfo> {
    let swept = sweep_map(pre, now_ms);
    match handshake_result(pre, tok, provided, now_ms) {
        HandshakeSpec::Accepted(img) => swept.insert(tok, mark_connected(swept[tok])),
        _ => swept,
    }
}

/// The outcome each handshake verdict produces. The join dialect is answered
/// with ack envelopes, the connect dialect with connected/error envelopes; an
/// accepted handshake additionally notifies the desktop and authenticates
/// the connection.
pub open spec fn handshake_outcome(res: HandshakeSpec, tok: Seq<char>, legacy_join: bool) -> OutcomeSpec {
    match res {
        HandshakeSpec::NotFound => OutcomeSpec {
            reply: Some(
                if legacy_join {
                    ReplySpec::AckError { message: "invalid or expired session"@ }
                } else {
                    ReplySpec::Error { message: "invalid or expired session"@ }
                },
            ),
            event: None,
            authenticated: false,
        },
        HandshakeSpec::Mismatch => OutcomeSpec {
            reply: Some(
                if legacy_join {
                    ReplySpec::AckError { message: "imageId mismatch"@ }
                } else {
                    ReplySpec::Error { message: "imageId mismatch"@ }
                },
            ),
            event: None,
            authenticated: false,
        },
        HandshakeSpec::Accepted(img) => OutcomeSpec {
            reply: Some(
                if legacy_join {
                    ReplySpec::AckOk
                } else {
                    ReplySpec::Connected { image_id: img }
                },
            ),
            event: Some(BusSpec::MobileConnected { session_id: tok, image_id: img }),
            authenticated: true,
        },
    }
}

/// The token a join message carries: the top-level `sid`, else the payload
/// `sid`.
pub open spec fn join_token(env: WsEnvelope) -> Option<Seq<char>> {
    match env.sid {
        Some(s) => Some(s),
        None => env.payload_sid,
    }
}

/// The image id a join message supplies: the top-level `imageId`, else the
/// payload `imageId`.
pub open spec fn join_provided(env: WsEnvelope) -> Option<Seq<char>> {
    match env.image_id_top {
        Some(s) => Some(s),
        None => env.payload_image_id,
    }
}

/// No reply, no bus event, no authentication.
pub open spec fn no_outcome() -> OutcomeSpec {
    OutcomeSpec { reply: None, event: None, authenticated: false }
}

/// Full behaviour of the gateway on one decoded message: handshakes run
/// against the registry, keepalives are echoed with the server clock, the
/// control dialects are normalized and republished, and anything else is
/// dropped without touching any state.
pub open spec fn handle_post(
    pre: Map<Seq<char>, SessionInfo>,
    post: Map<Seq<char>, SessionInfo>,
    env: WsEnvelope,
    out: OutcomeSpec,
    now_ms: u64,
) -> bool {
    if env.msg_type == "connect"@ {
        match env.session_id {
            Some(tok) => post == handshake_map(pre, tok, env.payload_image_id, now_ms) && out
                == handshake_outcome(
                handshake_result(pre, tok, env.payload_image_id, now_ms),
                tok,
                false,
            ),
            None => post == pre && out == no_outcome(),
        }
    } else if env.msg_type == "join"@ {
        match join_token(env) {
            Some(tok) => post == handshake_map(pre, tok, join_provided(env), now_ms) && out
                == handshake_outcome(
                handshake_result(pre, tok, join_provided(env), now_ms),
                tok,
                true,
            ),
            None => post == pre && out == no_outcome(),
        }
    } else if env.msg_type == "keepalive"@ {
        post == pre && out == OutcomeSpec {
            reply: Some(ReplySpec::Keepalive { timestamp_ms: now_ms }),
            event: None,
            authenticated: false,
        }
    } else {
        post == pre && out == (match control_of(env) {
            Some(c) => OutcomeSpec {
                reply: None,
                event: Some(BusSpec::MobileControl(c)),
                authenticated: false,
            },
            None => no_outcome(),
        })
    }
}

fn empty_outcome() -> (r: MessageOutcome)
    ensures
        r@ == no_outcome(),
{
    MessageOutcome { reply: None, event: None, authenticated: false }
}

fn run_handshake(
    mgr: &mut QrManager,
    tok: &String,
    provided: Option<&String>,
    legacy_join: bool,
    now_ms: u64,
) -> (r: MessageOutcome)
    requires
        old(mgr).wf(),
    ensures
        final(mgr).wf(),
        final(mgr).port_spec() == old(mgr).port_spec(),
        final(mgr)@ == handshake_map(old(mgr)@, tok@, provided.deep_view(), now_ms),
        r@ == handshake_outcome(
            handshake_result(old(mgr)@, tok@, provided.deep_view(), now_ms),
            tok@,
            legacy_join,
        ),
{
    let provided_str: Option<&str> = match provided {
        Some(p) => Some(p.as_str()),
        None => None,
    };
    let hs = mgr.connect_session(tok.as_str(), provided_str, now_ms);
    match hs {
        HandshakeOutcome::Connected(img) => {
            let reply = if legacy_join {
                Reply::AckOk
            } else {
                Reply::Connected { image_id: img.clone() }
            };
            MessageOutcome {
                reply: Some(reply),
                event: Some(
                    BusEvent::MobileConnected { session_id: tok.clone(), image_id: img },
                ),
                authenticated: true,
            }
        },
        HandshakeOutcome::Mismatch => {
            let message = String::from_str("imageId mismatch");
            let reply = if legacy_join {
                Reply::AckError { message }
            } else {
                Reply::Error { message }
            };
            MessageOutcome { reply: Some(reply), event: None, authenticated: false }
        },
        HandshakeOutcome::NotFound => {
            let message = String::from_str("invalid or expired session");
            let reply = if legacy_join {
                Reply::AckError { message }
            } else {
                Reply::Error { message }
            };
            MessageOutcome { reply: Some(reply), event: None, authenticated: false }
        },
    }
}

/// Dispatches one decoded message: validates handshakes against the
/// registry, echoes keepalives, normalizes and republishes control events,
/// and drops unknown types.
pub fn handle_message(mgr: &mut QrManager, msg: &WsMessage, now_ms: u64) -> (r: MessageOutcome)
    requires
        old(mgr).wf(),
    ensures
        final(mgr).wf(),
        final(mgr).port_spec() == old(mgr).port_spec(),
        handle_post(old(mgr)@, final(mgr)@, msg@, r@, now_ms),
{
    let t = msg.msg_type.as_str();
    if str_eq(t, "connect") {
        match &msg.session_id {
            Some(tok) => run_handshake(mgr, tok, msg.payload_image_id.as_ref(), false, now_ms),
            None => empty_outcome(),
        }
    } else if str_eq(t, "join") {
        let tok: Option<&String> = match &msg.sid {
            Some(s) => Some(s),
            None => match &msg.payload_sid {
                Some(s) => Some(s),
                None => None,
            },
        };
        let provided: Option<&String> = match &msg.image_id_top {
            Some(s) => Some(s),
            None => match &msg.payload_image_id {
                Some(s) => Some(s),
                None => None,
            },
        };
        match tok {
            Some(tok) => run_handshake(mgr, tok, provided, true, now_ms),
            None => empty_outcome(),
        }
    } else if str_eq(t, "keepalive") {
        MessageOutcome {
            reply: Some(Reply::Keepalive { timestamp_ms: now_ms }),
            event: None,
            authenticated: false,
        }
    } else {
        match normalize_control(msg) {
            Some(c) => MessageOutcome {
                reply: None,
                event: Some(BusEvent::MobileControl(c)),
                authenticated: false,
            },
            None => empty_outcome(),
        }
    }
}

/// Why the legacy REST handshake rejected a request.
#[derive(Debug, PartialEq, Eq)]
pub enum RestConnectError {
    MissingSessionId,
    MissingImageId,
}

/// Legacy REST handshake (`POST /api/connect`): succeeds exactly when both
/// fields are present, republishing the connection notification; it does not
/// consult the registry.
pub fn rest_connect(session_id: Option<String>, image_id: Option<String>) -> (r: Result<
    BusEvent,
    RestConnectError,
>)
    ensures
        match r {
            Ok(ev) => session_id matches Some(s) && image_id matches Some(i) && ev@
                == BusSpec::MobileConnected { session_id: s@, image_id: i@ },
            Err(e) => (e is MissingSessionId <==> session_id is None) && (e is MissingImageId
                ==> image_id is None),
        },
{
    match (session_id, image_id) {
        (Some(s), Some(i)) => Ok(BusEvent::MobileConnected { session_id: s, image_id: i }),
        (None, _) => Err(RestConnectError::MissingSessionId),
        (Some(_), None) => Err(RestConnectError::MissingImageId),
    }
}

/// A connection has received no traffic for more than two heartbeat
/// intervals and must be closed as timed out.
pub open spec fn timed_out(last_seen_ms: u64, now_ms: u64) -> bool {
    now_ms - last_seen_ms > 2 * HEARTBEAT_INTERVAL_MS
}

/// Per-connection state: when traffic was last seen, and whether a handshake
/// has succeeded on this connection.
pub struct Connection {
    pub last_seen_ms: u64,
    pub authenticated: bool,
}

/// What the gateway does when the heartbeat timer fires.
pub enum TickAction {
    /// Close the connection: it has been silent for too long.
    Close,
    /// Send a liveness ping and keep going.
    Ping,
}

impl Connection {
    /// A connection opened at `now_ms`, not yet authenticated.
    pub fn open_at(now_ms: u64) -> (c: Connection)
        ensures
            c.last_seen_ms == now_ms,
            !c.authenticated,
    {
        Connection { last_seen_ms: now_ms, authenticated: false }
    }

    /// Any inbound traffic (frames, pings, pongs) refreshes the liveness
    /// clock.
    pub fn record_traffic(&mut self, now_ms: u64)
        ensures
            final(self).last_seen_ms == now_ms,
            final(self).authenticated == old(self).authenticated,
    {
        self.last_seen_ms = now_ms;
    }

    /// On a heartbeat timer tick: close a connection that has been silent
    /// for more than two heartbeat intervals, otherwise ping it.
    pub fn heartbeat_tick(&self, now_ms: u64) -> (a: TickAction)
        ensures
            a is Close <==> timed_out(self.last_seen_ms, now_ms),
            a is Ping <==> !timed_out(self.last_seen_ms, now_ms),
    {
        if now_ms >= self.last_seen_ms && now_ms - self.last_seen_ms > 2 * HEARTBEAT_INTERVAL_MS {
            TickAction::Close
        } else {
            TickAction::Ping
        }
    }
}

/// One frame read from the socket, reduced to plain values.
pub enum SocketFrame {
    /// A text frame holding (possibly malformed) JSON.
    Text(String),
    /// A protocol-level ping with its payload.
    Ping,
    /// A protocol-level pong.
    Pong,
    /// A close frame from the peer.
    Close,
}

/// What the gateway does with one frame.
pub enum FrameResult {
    /// A text frame was decoded and dispatched: deliver the outcome.
    Handled(MessageOutcome),
    /// Answer with a pong frame.
    Pong,
    /// Nothing to do (pong received, or malformed text dropped).
    Ignored,
    /// The peer closed: end the read loop.
    Closed,
}

/// Reacts to one socket frame: every frame but a close refreshes the
/// liveness clock; a text frame that decodes is dispatched exactly as
/// `handle_post` says, malformed text is dropped without touching the
/// registry or closing the connection, and a successful handshake
/// authenticates the connection (sticky).
pub fn handle_frame(
    mgr: &mut QrManager,
    conn: &mut Connection,
    frame: &SocketFrame,
    now_ms: u64,
) -> (r: FrameResult)
    requires
        old(mgr).wf(),
    ensures
        final(mgr).wf(),
        final(mgr).port_spec() == old(mgr).port_spec(),
        match frame {
            SocketFrame::Text(text) => final(conn).last_seen_ms == now_ms && match ws_decode(
                text@,
            ) {
                Some(env) => match r {
                    FrameResult::Handled(out) => handle_post(
                        old(mgr)@,
                        final(mgr)@,
                        env,
                        out@,
                        now_ms,
                    ) && final(conn).authenticated == (old(conn).authenticated
                        || out@.authenticated),
                    _ => false,
                },
                None => r is Ignored && final(mgr)@ == old(mgr)@ && final(conn).authenticated
                    == old(conn).authenticated,
            },
            SocketFrame::Ping => r is Pong && final(mgr)@ == old(mgr)@ && final(conn).last_seen_ms
                == now_ms && final(conn).authenticated == old(conn).authenticated,
            SocketFrame::Pong => r is Ignored && final(mgr)@ == old(mgr)@
                && final(conn).last_seen_ms == now_ms
                && final(conn).authenticated == old(conn).authenticated,
            SocketFrame::Close => r is Closed && final(mgr)@ == old(mgr)@
                && *final(conn) == *old(conn),
        },
{
    match frame {
        SocketFrame::Text(text) => {
            conn.record_traffic(now_ms);
            match decode_message(text.as_str()) {
                Some(msg) => {
                    let out = handle_message(mgr, &msg, now_ms);
                    if out.authenticated {
                        conn.authenticated = true;
                    }
                    FrameResult::Handled(out)
                },
                None => FrameResult::Ignored,
            }
        },
        SocketFrame::Ping => {
            conn.record_traffic(now_ms);
            FrameResult::Pong
        },
        SocketFrame::Pong => {
            conn.record_traffic(now_ms);
            FrameResult::Ignored
        },
        SocketFrame::Close => FrameResult::Closed,
    }
}

} // verus!
