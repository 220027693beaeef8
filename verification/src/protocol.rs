//! Control-message protocol: the inbound envelope with its historical
//! dialects, the canonical control event, emote alias normalization, and the
//! outbound replies and desktop bus events.

use vstd::prelude::*;
use crate::text::{ci_eq, str_ci_eq, str_eq, str_has_prefix, str_suffix_from};

verus! {

/// One decoded inbound envelope, with every field the dialects may carry.
/// Absent JSON fields decode to `None`.
pub struct WsMessage {
    /// Top-level `type`.
    pub msg_type: String,
    /// Top-level `sid` (join dialect).
    pub sid: Option<String>,
    /// Top-level `imageId` (join dialect).
    pub image_id_top: Option<String>,
    /// `payload.sessionId` (connect dialect).
    pub session_id: Option<String>,
    /// `payload.sid` (join dialect alternate).
    pub payload_sid: Option<String>,
    /// `payload.imageId`.
    pub payload_image_id: Option<String>,
    /// `payload.cmd` (single-field command dialect).
    pub cmd: Option<String>,
    /// `payload.direction` (typed move dialect).
    pub direction: Option<String>,
    /// `payload.actionType` (typed action dialect).
    pub action_type: Option<String>,
    /// `payload.emoteType` (typed emote dialect).
    pub emote_type: Option<String>,
    /// `payload.echo.payload.cmd` (doubly wrapped legacy dialect).
    pub echo_cmd: Option<String>,
    /// `payload.echo.payload.imageId`.
    pub echo_image_id: Option<String>,
}

/// Mathematical form of one decoded envelope.
pub struct WsEnvelope {
    pub msg_type: Seq<char>,
    pub sid: Option<Seq<char>>,
    pub image_id_top: Option<Seq<char>>,
    pub session_id: Option<Seq<char>>,
    pub payload_sid: Option<Seq<char>>,
    pub payload_image_id: Option<Seq<char>>,
    pub cmd: Option<Seq<char>>,
    pub direction: Option<Seq<char>>,
    pub action_type: Option<Seq<char>>,
    pub emote_type: Option<Seq<char>>,
    pub echo_cmd: Option<Seq<char>>,
    pub echo_image_id: Option<Seq<char>>,
}

impl View for WsMessage {
    type V = WsEnvelope;

    open spec fn view(&self) -> WsEnvelope {
        WsEnvelope {
            msg_type: self.msg_type@,
            sid: self.sid.deep_view(),
            image_id_top: self.image_id_top.deep_view(),
            session_id: self.session_id.deep_view(),
            payload_sid: self.payload_sid.deep_view(),
            payload_image_id: self.payload_image_id.deep_view(),
            cmd: self.cmd.deep_view(),
            direction: self.direction.deep_view(),
            action_type: self.action_type.deep_view(),
            emote_type: self.emote_type.deep_view(),
            echo_cmd: self.echo_cmd.deep_view(),
            echo_image_id: self.echo_image_id.deep_view(),
        }
    }
}

impl DeepView for WsMessage {
    type V = WsEnvelope;

    open spec fn deep_view(&self) -> WsEnvelope {
        self.view()
    }
}

/// Canonical control event republished on the desktop bus.
pub enum ControlEvent {
    Move { direction: String, image_id: Option<String> },
    Action { action_type: String, image_id: Option<String> },
    Emote { emote_type: String, image_id: Option<String> },
}

/// Mathematical form of a control event.
pub enum CtlSpec {
    Move { direction: Seq<char>, image_id: Option<Seq<char>> },
    Action { action_type: Seq<char>, image_id: Option<Seq<char>> },
    Emote { emote_type: Seq<char>, image_id: Option<Seq<char>> },
}

impl View for ControlEvent {
    type V = CtlSpec;

    open spec fn view(&self) -> CtlSpec {
        match self {
            ControlEvent::Move { direction, image_id } => CtlSpec::Move {
                direction: direction@,
                image_id: image_id.deep_view(),
            },
            ControlEvent::Action { action_type, image_id } => CtlSpec::Action {
                action_type: action_type@,
                image_id: image_id.deep_view(),
            },
            ControlEvent::Emote { emote_type, image_id } => CtlSpec::Emote {
                emote_type: emote_type@,
                image_id: image_id.deep_view(),
            },
        }
    }
}

/// Outbound message for the client socket.
pub enum Reply {
    /// `{"type":"connected","imageId":...}`
    Connected { image_id: String },
    /// `{"type":"ack","ok":true}`
    AckOk,
    /// `{"type":"ack","ok":false,"error":...}`
    AckError { message: String },
    /// `{"type":"error","message":...}`
    Error { message: String },
    /// `{"type":"keepalive","timestamp":...}`
    Keepalive { timestamp_ms: u64 },
}

/// Mathematical form of a reply.
pub enum ReplySpec {
    Connected { image_id: Seq<char> },
    AckOk,
    AckError { message: Seq<char> },
    Error { message: Seq<char> },
    Keepalive { timestamp_ms: u64 },
}

impl View for Reply {
    type V = ReplySpec;

    open spec fn view(&self) -> ReplySpec {
        match self {
            Reply::Connected { image_id } => ReplySpec::Connected { image_id: image_id@ },
            Reply::AckOk => ReplySpec::AckOk,
            Reply::AckError { message } => ReplySpec::AckError { message: message@ },
            Reply::Error { message } => ReplySpec::Error { message: message@ },
            Reply::Keepalive { timestamp_ms } => ReplySpec::Keepalive { timestamp_ms: *timestamp_ms },
        }
    }
}

/// Notification for the desktop event bus.
pub enum BusEvent {
    /// `mobile-connected {sessionId, imageId}`
    MobileConnected { session_id: String, image_id: String },
    /// `mobile-control {type, detail, imageId}`
    MobileControl(ControlEvent),
}

/// Mathematical form of a bus event.
pub enum BusSpec {
    MobileConnected { session_id: Seq<char>, image_id: Seq<char> },
    MobileControl(CtlSpec),
}

impl View for BusEvent {
    type V = BusSpec;

    open spec fn view(&self) -> BusSpec {
        match self {
            BusEvent::MobileConnected { session_id, image_id } => BusSpec::MobileConnected {
                session_id: session_id@,
                image_id: image_id@,
            },
            BusEvent::MobileControl(c) => BusSpec::MobileControl(c@),
        }
    }
}

/// Everything one inbound message gives rise to.
pub struct MessageOutcome {
    /// What to send back on the socket, if anything.
    pub reply: Option<Reply>,
    /// What to publish on the desktop bus, if anything.
    pub event: Option<BusEvent>,
    /// Whether this message completed a handshake.
    pub authenticated: bool,
}

/// Mathematical form of a message outcome.
pub struct OutcomeSpec {
    pub reply: Option<ReplySpec>,
    pub event: Option<BusSpec>,
    pub authenticated: bool,
}

impl View for MessageOutcome {
    type V = OutcomeSpec;

    open spec fn view(&self) -> OutcomeSpec {
        OutcomeSpec {
            reply: match self.reply {
                Some(ref rp) => Some(rp@),
                None => None,
            },
            event: match self.event {
                Some(ref ev) => Some(ev@),
                None => None,
            },
            authenticated: self.authenticated,
        }
    }
}

/// The canonical glyph for an emote name: human-readable names and ASCII
/// shorthands fold (case-insensitively) to a fixed emoji; anything unknown
/// passes through unchanged.
pub open spec fn canon_emote(e: Seq<char>) -> Seq<char> {
    if ci_eq(e, "happy"@) {
        "😊"@
    } else if ci_eq(e, "heart"@) {
        "❤️"@
    } else if ci_eq(e, "rock"@) || ci_eq(e, "gu"@) || ci_eq(e, "✊"@) {
        "✊"@
    } else if ci_eq(e, "scissors"@) || ci_eq(e, "choki"@) || ci_eq(e, "✌"@) || ci_eq(e, "✌️"@) {
        "✌️"@
    } else if ci_eq(e, "paper"@) || ci_eq(e, "hand"@) || ci_eq(e, "pa"@) || ci_eq(e, "🖐"@) {
        "🖐"@
    } else {
        e
    }
}

/// Maps an emote name or shorthand to its canonical glyph.
pub fn normalize_emote(e: &str) -> (r: String)
    ensures
        r@ == canon_emote(e@),
{
    if str_ci_eq(e, "happy") {
        String::from_str("😊")
    } else if str_ci_eq(e, "heart") {
        String::from_str("❤️")
    } else if str_ci_eq(e, "rock") || str_ci_eq(e, "gu") || str_ci_eq(e, "✊") {
        String::from_str("✊")
    } else if str_ci_eq(e, "scissors") || str_ci_eq(e, "choki") || str_ci_eq(e, "✌") || str_ci_eq(
        e,
        "✌️",
    ) {
        String::from_str("✌️")
    } else if str_ci_eq(e, "paper") || str_ci_eq(e, "hand") || str_ci_eq(e, "pa") || str_ci_eq(
        e,
        "🖐",
    ) {
        String::from_str("🖐")
    } else {
        e.to_owned()
    }
}

/// The canonical event for a single-field command string: an `emote:` prefix
/// carries an emote name, the four directions move, anything else is an
/// action.
pub open spec fn cmd_event(c: Seq<char>, img: Option<Seq<char>>) -> CtlSpec {
    if c.len() >= 6 && c.subrange(0, 6) == "emote:"@ {
        CtlSpec::Emote { emote_type: c.subrange(6, c.len() as int), image_id: img }
    } else if c == "left"@ || c == "right"@ || c == "up"@ || c == "down"@ {
        CtlSpec::Move { direction: c, image_id: img }
    } else {
        CtlSpec::Action { action_type: c, image_id: img }
    }
}

fn clone_opt(o: &Option<String>) -> (r: Option<String>)
    ensures
        r == *o,
{
    match o {
        Some(s) => Some(s.clone()),
        None => None,
    }
}

/// Normalizes a legacy command string into the canonical control event.
pub fn cmd_control(cmd: &str, image_id: Option<String>) -> (r: ControlEvent)
    ensures
        r@ == cmd_event(cmd@, image_id.deep_view()),
{
    proof {
        reveal_strlit("emote:");
    }
    if str_has_prefix(cmd, "emote:") {
        let rest = str_suffix_from(cmd, 6);
        ControlEvent::Emote { emote_type: rest.to_owned(), image_id }
    } else if str_eq(cmd, "left") || str_eq(cmd, "right") || str_eq(cmd, "up") || str_eq(
        cmd,
        "down",
    ) {
        ControlEvent::Move { direction: cmd.to_owned(), image_id }
    } else {
        ControlEvent::Action { action_type: cmd.to_owned(), image_id }
    }
}

/// The canonical control event carried by a message, for the four control
/// dialects; `None` for handshakes, keepalives, incomplete messages and
/// unknown types.
pub open spec fn control_of(env: WsEnvelope) -> Option<CtlSpec> {
    if env.msg_type == "cmd"@ {
        match env.cmd {
            Some(c) => Some(cmd_event(c, env.payload_image_id)),
            None => None,
        }
    } else if env.msg_type == "evt"@ {
        match env.echo_cmd {
            Some(c) => Some(cmd_event(c, env.echo_image_id)),
            None => None,
        }
    } else if env.msg_type == "move"@ {
        match env.direction {
            Some(d) => Some(CtlSpec::Move { direction: d, image_id: env.payload_image_id }),
            None => None,
        }
    } else if env.msg_type == "action"@ {
        match env.action_type {
            Some(a) => Some(CtlSpec::Action { action_type: a, image_id: env.payload_image_id }),
            None => None,
        }
    } else if env.msg_type == "emote"@ {
        match env.emote_type {
            Some(e) => Some(
                CtlSpec::Emote { emote_type: canon_emote(e), image_id: env.payload_image_id },
            ),
            None => None,
        }
    } else {
        None
    }
}

/// The control dialects agree: a single-field `cmd` message, a typed `move`
/// message, and an `evt` echo wrapper that all carry one of the four
/// directions normalize to one and the same canonical move event.
pub proof fn lemma_dialects_agree(
    cmd_msg: WsEnvelope,
    move_msg: WsEnvelope,
    evt_msg: WsEnvelope,
    d: Seq<char>,
    img: Option<Seq<char>>,
)
    requires
        d == "left"@ || d == "right"@ || d == "up"@ || d == "down"@,
        cmd_msg.msg_type == "cmd"@,
        cmd_msg.cmd == Some(d),
        cmd_msg.payload_image_id == img,
        move_msg.msg_type == "move"@,
        move_msg.direction == Some(d),
        move_msg.payload_image_id == img,
        evt_msg.msg_type == "evt"@,
        evt_msg.echo_cmd == Some(d),
        evt_msg.echo_image_id == img,
    ensures
        control_of(cmd_msg) == Some(CtlSpec::Move { direction: d, image_id: img }),
        control_of(move_msg) == control_of(cmd_msg),
        control_of(evt_msg) == control_of(cmd_msg),
{
    reveal_strlit("cmd");
    reveal_strlit("evt");
    reveal_strlit("move");
    reveal_strlit("emote:");
    reveal_strlit("left");
    reveal_strlit("right");
    reveal_strlit("up");
    reveal_strlit("down");
    assert(d.len() < 6);
    assert("move"@.len() == 4);
    assert("cmd"@.len() == 3);
    assert("evt"@.len() == 3);
    assert(move_msg.msg_type != "cmd"@);
    assert(move_msg.msg_type != "evt"@);
    assert("evt"@[0] == 'e' && "cmd"@[0] == 'c');
    assert(evt_msg.msg_type != "cmd"@);
}

/// One string-valued field of a parsed JSON document: the value together
/// with the path of object keys that leads to it.
pub struct JsonStringField {
    pub path: Vec<String>,
    pub value: String,
}

/// Mathematical form of one string-valued field.
pub struct FieldSpec {
    pub path: Seq<Seq<char>>,
    pub value: Seq<char>,
}

impl View for JsonStringField {
    type V = FieldSpec;

    open spec fn view(&self) -> FieldSpec {
        FieldSpec { path: self.path.deep_view(), value: self.value@ }
    }
}

impl DeepView for JsonStringField {
    type V = FieldSpec;

    open spec fn deep_view(&self) -> FieldSpec {
        self.view()
    }
}

/// The string-valued fields that parsing `text` yields, with their key
/// paths: `None` for malformed JSON; otherwise every string value reachable
/// from the root through objects alone, to four levels of keys, outer
/// levels first and each object in serde_json's key order. Parsing is a
/// function of the text alone.
pub uninterp spec fn json_strings(text: Seq<char>) -> Option<Seq<FieldSpec>>;

/// Relies on serde_json::from_str and the structure of its Value tree: the
/// string fields of the parsed document as described at `json_strings`.
/// Arrays and scalars other than strings carry nothing the protocol reads
/// and are not descended into.
#[verifier::external_body]
fn json_string_fields(text: &str) -> (r: Option<Vec<JsonStringField>>)
    ensures
        r.deep_view() == json_strings(text@),
{
    let root: serde_json::Value = match serde_json::from_str(text) { Ok(v) => v, Err(_) => return None };
    let (mut out, mut level) = (Vec::new(), vec![(Vec::<String>::new(), root)]);
    for _ in 0..4 {
        let mut deeper = Vec::new();
        for (path, node) in level {
            let entries = if let serde_json::Value::Object(e) = node { e } else { continue };
            for (key, child) in entries {
                let p = [path.clone(), vec![key]].concat();
                if let serde_json::Value::String(v) = child { out.push(JsonStringField { path: p, value: v }) } else { deeper.push((p, child)) }
            }
        }
        level = deeper;
    }
    Some(out)
}

/// The value of the first field stored under exactly `path`.
pub open spec fn field_at(fields: Seq<FieldSpec>, path: Seq<Seq<char>>) -> Option<Seq<char>>
    decreases fields.len(),
{
    if fields.len() == 0 {
        None
    } else if fields[0].path == path {
        Some(fields[0].value)
    } else {
        field_at(fields.drop_first(), path)
    }
}

proof fn lemma_field_at_step(fields: Seq<FieldSpec>, path: Seq<Seq<char>>, i: int)
    requires
        0 <= i < fields.len(),
        fields[i].path != path,
        field_at(fields, path) == field_at(fields.skip(i), path),
    ensures
        field_at(fields, path) == field_at(fields.skip(i + 1), path),
{
    assert(fields.skip(i)[0] == fields[i]);
    assert(fields.skip(i).drop_first() =~= fields.skip(i + 1));
}

fn path_matches(f: &JsonStringField, path: &Vec<&str>) -> (r: bool)
    ensures
        r == (f@.path == path.deep_view()),
{
    let m = f.path.len();
    if m != path.len() {
        proof {
            assert(f@.path.len() == f.path@.len());
            assert(path.deep_view().len() == path@.len());
        }
        return false;
    }
    let mut i: usize = 0;
    while i < m
        invariant
            m == f.path@.len(),
            m == path@.len(),
            i <= m,
            forall|j: int| 0 <= j < i ==> f.path@[j]@ == path@[j]@,
        decreases m - i,
    {
        if !str_eq(f.path[i].as_str(), path[i]) {
            assert(f@.path[i as int] != path.deep_view()[i as int]);
            return false;
        }
        i += 1;
    }
    proof {
        assert(f@.path =~= path.deep_view());
    }
    true
}

/// The first field stored under `path`, if any.
fn string_field(fields: &Vec<JsonStringField>, path: &Vec<&str>) -> (r: Option<String>)
    ensures
        r.deep_view() == field_at(fields.deep_view(), path.deep_view()),
{
    let n = fields.len();
    proof {
        assert(fields.deep_view().skip(0) =~= fields.deep_view());
    }
    let mut i: usize = 0;
    while i < n
        invariant
            n == fields@.len(),
            i <= n,
            field_at(fields.deep_view(), path.deep_view()) == field_at(
                fields.deep_view().skip(i as int),
                path.deep_view(),
            ),
        decreases n - i,
    {
        if path_matches(&fields[i], path) {
            let v = fields[i].value.clone();
            proof {
                assert(fields.deep_view().skip(i as int)[0] == fields.deep_view()[i as int]);
            }
            return Some(v);
        }
        proof {
            lemma_field_at_step(fields.deep_view(), path.deep_view(), i as int);
        }
        i += 1;
    }
    proof {
        assert(fields.deep_view().skip(n as int) =~= Seq::<FieldSpec>::empty());
    }
    None
}

/// The envelope carried by a set of decoded string fields: present exactly
/// when a top-level string `type` is, with every other field optional, read
/// in its dialect's position.
pub open spec fn envelope_from(fields: Seq<FieldSpec>) -> Option<WsEnvelope> {
    match field_at(fields, seq!["type"@]) {
        Some(t) => Some(
            WsEnvelope {
                msg_type: t,
                sid: field_at(fields, seq!["sid"@]),
                image_id_top: field_at(fields, seq!["imageId"@]),
                session_id: field_at(fields, seq!["payload"@, "sessionId"@]),
                payload_sid: field_at(fields, seq!["payload"@, "sid"@]),
                payload_image_id: field_at(fields, seq!["payload"@, "imageId"@]),
                cmd: field_at(fields, seq!["payload"@, "cmd"@]),
                direction: field_at(fields, seq!["payload"@, "direction"@]),
                action_type: field_at(fields, seq!["payload"@, "actionType"@]),
                emote_type: field_at(fields, seq!["payload"@, "emoteType"@]),
                echo_cmd: field_at(fields, seq!["payload"@, "echo"@, "payload"@, "cmd"@]),
                echo_image_id: field_at(fields, seq!["payload"@, "echo"@, "payload"@, "imageId"@]),
            },
        ),
        None => None,
    }
}

/// What decoding a text frame yields: `None` for malformed JSON and for a
/// document without a top-level string `type`.
pub open spec fn ws_decode(text: Seq<char>) -> Option<WsEnvelope> {
    match json_strings(text) {
        Some(fields) => envelope_from(fields),
        None => None,
    }
}

/// Decodes one JSON envelope into the plain message record: `None` when the
/// text is not well-formed JSON carrying a top-level string `type`; any
/// other field is reported absent unless it is present as a string in its
/// dialect's position.
pub fn decode_message(text: &str) -> (r: Option<WsMessage>)
    ensures
        r.deep_view() == ws_decode(text@),
{
    let fields = match json_string_fields(text) {
        Some(f) => f,
        None => {
            return None;
        },
    };
    let p_type: Vec<&str> = vec!["type"];
    let p_sid: Vec<&str> = vec!["sid"];
    let p_image_id: Vec<&str> = vec!["imageId"];
    let p_session_id: Vec<&str> = vec!["payload", "sessionId"];
    let p_payload_sid: Vec<&str> = vec!["payload", "sid"];
    let p_payload_image: Vec<&str> = vec!["payload", "imageId"];
    let p_cmd: Vec<&str> = vec!["payload", "cmd"];
    let p_direction: Vec<&str> = vec!["payload", "direction"];
    let p_action: Vec<&str> = vec!["payload", "actionType"];
    let p_emote: Vec<&str> = vec!["payload", "emoteType"];
    let p_echo_cmd: Vec<&str> = vec!["payload", "echo", "payload", "cmd"];
    let p_echo_image: Vec<&str> = vec!["payload", "echo", "payload", "imageId"];
    proof {
        assert(p_type.deep_view() =~= seq!["type"@]);
        assert(p_sid.deep_view() =~= seq!["sid"@]);
        assert(p_image_id.deep_view() =~= seq!["imageId"@]);
        assert(p_session_id.deep_view() =~= seq!["payload"@, "sessionId"@]);
        assert(p_payload_sid.deep_view() =~= seq!["payload"@, "sid"@]);
        assert(p_payload_image.deep_view() =~= seq!["payload"@, "imageId"@]);
        assert(p_cmd.deep_view() =~= seq!["payload"@, "cmd"@]);
        assert(p_direction.deep_view() =~= seq!["payload"@, "direction"@]);
        assert(p_action.deep_view() =~= seq!["payload"@, "actionType"@]);
        assert(p_emote.deep_view() =~= seq!["payload"@, "emoteType"@]);
        assert(p_echo_cmd.deep_view() =~= seq!["payload"@, "echo"@, "payload"@, "cmd"@]);
        assert(p_echo_image.deep_view() =~= seq!["payload"@, "echo"@, "payload"@, "imageId"@]);
    }
    let msg_type = match string_field(&fields, &p_type) {
        Some(t) => t,
        None => {
            return None;
        },
    };
    let msg = WsMessage {
        msg_type,
        sid: string_field(&fields, &p_sid),
        image_id_top: string_field(&fields, &p_image_id),
        session_id: string_field(&fields, &p_session_id),
        payload_sid: string_field(&fields, &p_payload_sid),
        payload_image_id: string_field(&fields, &p_payload_image),
        cmd: string_field(&fields, &p_cmd),
        direction: string_field(&fields, &p_direction),
        action_type: string_field(&fields, &p_action),
        emote_type: string_field(&fields, &p_emote),
        echo_cmd: string_field(&fields, &p_echo_cmd),
        echo_image_id: string_field(&fields, &p_echo_image),
    };
    proof {
        assert(ws_decode(text@) == Some(msg.deep_view()));
    }
    Some(msg)
}

/// Normalizes any of the control dialects into the canonical event.
pub fn normalize_control(msg: &WsMessage) -> (r: Option<ControlEvent>)
    ensures
        match r {
            Some(c) => control_of(msg@) == Some(c@),
            None => control_of(msg@) is None,
        },
{
    let t = msg.msg_type.as_str();
    if str_eq(t, "cmd") {
        match &msg.cmd {
            Some(c) => Some(cmd_control(c.as_str(), clone_opt(&msg.payload_image_id))),
            None => None,
        }
    } else if str_eq(t, "evt") {
        match &msg.echo_cmd {
            Some(c) => Some(cmd_control(c.as_str(), clone_opt(&msg.echo_image_id))),
            None => None,
        }
    } else if str_eq(t, "move") {
        match &msg.direction {
            Some(d) => Some(
                ControlEvent::Move {
                    direction: d.clone(),
                    image_id: clone_opt(&msg.payload_image_id),
                },
            ),
            None => None,
        }
    } else if str_eq(t, "action") {
        match &msg.action_type {
            Some(a) => Some(
                ControlEvent::Action {
                    action_type: a.clone(),
                    image_id: clone_opt(&msg.payload_image_id),
                },
            ),
            None => None,
        }
    } else if str_eq(t, "emote") {
        match &msg.emote_type {
            Some(e) => Some(
                ControlEvent::Emote {
                    emote_type: normalize_emote(e.as_str()),
                    image_id: clone_opt(&msg.payload_image_id),
                },
            ),
            None => None,
        }
    } else {
        None
    }
}

} // verus!
