//! Session registry: issues and validates short-lived pairing tokens bound to
//! a target image id. Sessions are kept for a fixed retention window and are
//! garbage-collected by an amortized sweep on validation; within the window a
//! token validates any number of times.

use vstd::prelude::*;
use crate::host::choose_preferred_host;
use crate::qr::{encode_qr_data_uri, qr_data_uri_spec, qr_encodable, qr_error_text, QrError};
use crate::text::{dec_of, usize_to_dec};

verus! {

/// How long a session is retained before a sweep removes it.
pub const SESSION_RETENTION_MS: u64 = 24 * 60 * 60 * 1000;

/// Constant "remaining time" reported to status queries; kept for UI
/// compatibility, no countdown is enforced.
pub const STATUS_REMAINING_SECS: u64 = 24 * 60 * 60;

/// One pairing attempt: an unguessable token bound to a target image id.
#[derive(Clone, Debug)]
pub struct QrSession {
    pub session_id: String,
    pub image_id: String,
    pub created_at_ms: u64,
    pub connected: bool,
}

/// Mathematical content of one session: everything but the token itself.
pub struct SessionInfo {
    pub image_id: Seq<char>,
    pub created_at_ms: u64,
    pub connected: bool,
}

impl QrSession {
    pub open spec fn info(&self) -> SessionInfo {
        SessionInfo {
            image_id: self.image_id@,
            created_at_ms: self.created_at_ms,
            connected: self.connected,
        }
    }
}

/// `info` with the connected flag raised.
pub open spec fn mark_connected(info: SessionInfo) -> SessionInfo {
    SessionInfo { connected: true, ..info }
}

/// A session created at `created_ms` has not yet fallen out of the retention
/// window at `now_ms`.
pub open spec fn fresh_at(created_ms: u64, now_ms: u64) -> bool {
    now_ms - created_ms < SESSION_RETENTION_MS
}

/// The registry after removing every session older than the retention window.
pub open spec fn sweep_map(m: Map<Seq<char>, SessionInfo>, now_ms: u64) -> Map<
    Seq<char>,
    SessionInfo,
> {
    Map::new(
        |k: Seq<char>| m.dom().contains(k) && fresh_at(m[k].created_at_ms, now_ms),
        |k: Seq<char>| m[k],
    )
}

/// Relation between registry states and the result of validating `tok` at
/// `now_ms`: the sweep runs first; a surviving token is marked connected and
/// its image id returned; anything else is reported absent.
pub open spec fn validate_post(
    pre: Map<Seq<char>, SessionInfo>,
    post: Map<Seq<char>, SessionInfo>,
    tok: Seq<char>,
    r: Option<Seq<char>>,
    now_ms: u64,
) -> bool {
    let swept = sweep_map(pre, now_ms);
    match r {
        Some(img) => swept.dom().contains(tok) && img == swept[tok].image_id && post == swept.insert(
            tok,
            mark_connected(swept[tok]),
        ),
        None => !swept.dom().contains(tok) && post == swept,
    }
}

/// `post` is `pre` with a new, unconnected session for `img` stored under
/// `tok` at `now_ms`.
pub open spec fn created_post(
    pre: Map<Seq<char>, SessionInfo>,
    post: Map<Seq<char>, SessionInfo>,
    tok: Seq<char>,
    img: Seq<char>,
    now_ms: u64,
) -> bool {
    post == pre.insert(tok, SessionInfo { image_id: img, created_at_ms: now_ms, connected: false })
}

/// Everything a successful `create_session` promises: a fresh 36-character
/// token, the stored session, and a QR data URI of the pairing URL for some
/// chosen host, which the encoder accepted.
pub open spec fn create_ok_post(
    pre: Map<Seq<char>, SessionInfo>,
    post: Map<Seq<char>, SessionInfo>,
    port: u16,
    tok: Seq<char>,
    uri: Seq<char>,
    img: Seq<char>,
) -> bool {
    &&& tok.len() == 36
    &&& exists|now_ms: u64| created_post(pre, post, tok, img, now_ms)
    &&& exists|host: Seq<char>|
        qr_encodable(pairing_url(host, port, tok, img)) && uri == qr_data_uri_spec(
            pairing_url(host, port, tok, img),
        )
}

/// One failed creation attempt, at a concrete token, time and host: the
/// session was stored, but the encoder refused the pairing URL, with
/// `cause` as its own description.
pub open spec fn create_refused(
    pre: Map<Seq<char>, SessionInfo>,
    post: Map<Seq<char>, SessionInfo>,
    port: u16,
    img: Seq<char>,
    cause: Seq<char>,
    tok: Seq<char>,
    now_ms: u64,
    host: Seq<char>,
) -> bool {
    &&& created_post(pre, post, tok, img, now_ms)
    &&& !qr_encodable(pairing_url(host, port, tok, img))
    &&& cause == qr_error_text(pairing_url(host, port, tok, img))
}

/// What a failed `create_session` promises: the attempt above, for some
/// token, time and host.
pub open spec fn create_err_post(
    pre: Map<Seq<char>, SessionInfo>,
    post: Map<Seq<char>, SessionInfo>,
    port: u16,
    img: Seq<char>,
    cause: Seq<char>,
) -> bool {
    exists|tok: Seq<char>, now_ms: u64, host: Seq<char>|
        create_refused(pre, post, port, img, cause, tok, now_ms, host)
}

pub open spec fn has_tok(s: Seq<QrSession>, k: Seq<char>) -> bool {
    exists|i: int| 0 <= i < s.len() && s[i].session_id@ == k
}

pub open spec fn idx_of(s: Seq<QrSession>, k: Seq<char>) -> int {
    choose|i: int| 0 <= i < s.len() && s[i].session_id@ == k
}

/// No two stored sessions share a token.
pub open spec fn distinct_toks(s: Seq<QrSession>) -> bool {
    forall|i: int, j: int|
        0 <= i < j < s.len() ==> s[i].session_id@ != s[j].session_id@
}

/// The registry contents as a map from token to session data.
pub open spec fn map_of(s: Seq<QrSession>) -> Map<Seq<char>, SessionInfo> {
    Map::new(|k: Seq<char>| has_tok(s, k), |k: Seq<char>| s[idx_of(s, k)].info())
}

proof fn lemma_map_of_at(s: Seq<QrSession>, i: int)
    requires
        distinct_toks(s),
        0 <= i < s.len(),
    ensures
        map_of(s).dom().contains(s[i].session_id@),
        idx_of(s, s[i].session_id@) == i,
        map_of(s)[s[i].session_id@] == s[i].info(),
{
    let k = s[i].session_id@;
    assert(has_tok(s, k));
    let j = idx_of(s, k);
    assert(0 <= j < s.len() && s[j].session_id@ == k);
    if i != j {
        assert(s[i].session_id@ != s[j].session_id@);
    }
}

/// `post` differs from `pre` only at index `i`, where it stores a token that
/// is otherwise absent: at the map level that is one insertion.
proof fn lemma_map_of_insert(pre: Seq<QrSession>, post: Seq<QrSession>, i: int)
    requires
        distinct_toks(pre),
        distinct_toks(post),
        0 <= i < post.len(),
        post.len() == pre.len() || (post.len() == pre.len() + 1 && i == pre.len()),
        forall|j: int| 0 <= j < post.len() && j != i ==> post[j] == pre[j],
        i < pre.len() ==> pre[i].session_id@ == post[i].session_id@,
        i == pre.len() ==> !has_tok(pre, post[i].session_id@),
    ensures
        map_of(post) == map_of(pre).insert(post[i].session_id@, post[i].info()),
{
    let k = post[i].session_id@;
    let info = post[i].info();
    lemma_map_of_at(post, i);
    assert forall|q: Seq<char>|
        map_of(post).dom().contains(q) == map_of(pre).insert(k, info).dom().contains(q) by {
        if q != k {
            if has_tok(post, q) {
                let j = idx_of(post, q);
                assert(0 <= j < post.len() && post[j].session_id@ == q);
                assert(j != i);
                assert(pre[j].session_id@ == q);
                assert(has_tok(pre, q));
            }
            if has_tok(pre, q) {
                let j = idx_of(pre, q);
                assert(0 <= j < pre.len() && pre[j].session_id@ == q);
                assert(j != i);
                assert(post[j].session_id@ == q);
                assert(has_tok(post, q));
            }
        }
    }
    assert forall|q: Seq<char>| map_of(post).dom().contains(q) implies map_of(post)[q] == map_of(
        pre,
    ).insert(k, info)[q] by {
        if q != k {
            let j = idx_of(post, q);
            assert(0 <= j < post.len() && post[j].session_id@ == q);
            assert(j != i);
            lemma_map_of_at(post, j);
            assert(pre[j].session_id@ == q);
            lemma_map_of_at(pre, j);
            assert(map_of(post)[q] == post[j].info());
            assert(map_of(pre)[q] == pre[j].info());
        }
    }
    assert(map_of(post) =~= map_of(pre).insert(k, info));
}

/// Owns all session state; keyed by token.
pub struct QrManager {
    sessions: Vec<QrSession>,
    server_port: u16,
}

impl View for QrManager {
    type V = Map<Seq<char>, SessionInfo>;

    closed spec fn view(&self) -> Map<Seq<char>, SessionInfo> {
        map_of(self.sessions@)
    }
}

impl QrManager {
    /// Internal invariant: stored tokens are pairwise distinct.
    pub closed spec fn wf(&self) -> bool {
        distinct_toks(self.sessions@)
    }

    /// The port that pairing URLs issued by this registry point at.
    pub closed spec fn port_spec(&self) -> u16 {
        self.server_port
    }

    pub fn new(server_port: u16) -> (r: QrManager)
        ensures
            r.wf(),
            r@ == Map::<Seq<char>, SessionInfo>::empty(),
            r.port_spec() == server_port,
    {
        let r = QrManager { sessions: Vec::new(), server_port };
        proof {
            assert(r@ =~= Map::<Seq<char>, SessionInfo>::empty());
        }
        r
    }

    /// The port this registry was constructed with.
    pub fn server_port(&self) -> (p: u16)
        ensures
            p == self.port_spec(),
    {
        self.server_port
    }

    fn find_index(&self, token: &str) -> (r: Option<usize>)
        ensures
            match r {
                Some(i) => i < self.sessions@.len() && self.sessions@[i as int].session_id@
                    == token@,
                None => !has_tok(self.sessions@, token@),
            },
    {
        let n = self.sessions.len();
        let mut i: usize = 0;
        while i < n
            invariant
                n == self.sessions@.len(),
                i <= n,
                forall|j: int| 0 <= j < i ==> self.sessions@[j].session_id@ != token@,
            decreases n - i,
        {
            if crate::text::str_eq(self.sessions[i].session_id.as_str(), token) {
                return Some(i);
            }
            i += 1;
        }
        None
    }

    /// Stores a new, not yet connected session under `token`, replacing any
    /// session that token already named.
    pub fn put_session(&mut self, token: String, image_id: &str, now_ms: u64)
        requires
            old(self).wf(),
        ensures
            final(self).wf(),
            final(self).port_spec() == old(self).port_spec(),
            final(self)@ == old(self)@.insert(
                token@,
                SessionInfo { image_id: image_id@, created_at_ms: now_ms, connected: false },
            ),
    {
        let ghost pre = self.sessions@;
        let ghost k = token@;
        let rec = QrSession {
            session_id: token,
            image_id: image_id.to_owned(),
            created_at_ms: now_ms,
            connected: false,
        };
        let ghost info = rec.info();
        match self.find_index(rec.session_id.as_str()) {
            Some(i) => {
                self.sessions.set(i, rec);
                proof {
                    let post = self.sessions@;
                    assert forall|x: int, y: int| 0 <= x < y < post.len() implies post[x].session_id@
                        != post[y].session_id@ by {
                        assert(pre[x].session_id@ != pre[y].session_id@);
                    }
                    lemma_map_of_insert(pre, post, i as int);
                }
            },
            None => {
                self.sessions.push(rec);
                proof {
                    let post = self.sessions@;
                    let n = pre.len() as int;
                    assert forall|x: int, y: int| 0 <= x < y < post.len() implies post[x].session_id@
                        != post[y].session_id@ by {
                        if y < n {
                            assert(pre[x].session_id@ != pre[y].session_id@);
                        } else {
                            assert(post[y].session_id@ == k);
                            assert(post[x] == pre[x]);
                            assert(!has_tok(pre, k));
                        }
                    }
                    lemma_map_of_insert(pre, post, n);
                }
            },
        }
    }
}

fn is_fresh(created_ms: u64, now_ms: u64) -> (r: bool)
    ensures
        r == fresh_at(created_ms, now_ms),
{
    if now_ms >= created_ms {
        now_ms - created_ms < SESSION_RETENTION_MS
    } else {
        true
    }
}

pub open spec fn from_prefix(s: Seq<QrSession>, upto: int, r: QrSession) -> bool {
    exists|l: int| 0 <= l < upto && s[l] == r
}

/// Outcome of a connection handshake against the registry.
pub enum HandshakeOutcome {
    /// The token is valid and any supplied image id agrees; the session is now
    /// marked connected. Carries the registered image id.
    Connected(String),
    /// The token is valid but the supplied image id disagrees with the
    /// registered one; the session is left untouched.
    Mismatch,
    /// The token is unknown or was swept away.
    NotFound,
}

impl QrManager {
    /// Removes every session older than the retention window.
    fn sweep(&mut self, now_ms: u64)
        requires
            old(self).wf(),
        ensures
            final(self).wf(),
            final(self).port_spec() == old(self).port_spec(),
            final(self)@ == sweep_map(old(self)@, now_ms),
    {
        let ghost pre = self.sessions@;
        let n = self.sessions.len();
        let mut kept: Vec<QrSession> = Vec::new();
        let mut i: usize = 0;
        while i < n
            invariant
                self.sessions@ == pre,
                distinct_toks(pre),
                n == pre.len(),
                i <= n,
                distinct_toks(kept@),
                forall|j: int|
                    0 <= j < kept@.len() ==> #[trigger] from_prefix(pre, i as int, kept@[j])
                        && fresh_at(kept@[j].created_at_ms, now_ms),
                forall|l: int|
                    0 <= l < i && fresh_at(pre[l].created_at_ms, now_ms) ==> kept@.contains(
                        #[trigger] pre[l],
                    ),
            decreases n - i,
        {
            if is_fresh(self.sessions[i].created_at_ms, now_ms) {
                let ghost kept_before = kept@;
                let rec = QrSession {
                    session_id: self.sessions[i].session_id.clone(),
                    image_id: self.sessions[i].image_id.clone(),
                    created_at_ms: self.sessions[i].created_at_ms,
                    connected: self.sessions[i].connected,
                };
                proof {
                    assert(rec == pre[i as int]);
                    assert forall|j: int| 0 <= j < kept@.len() implies kept@[j].session_id@
                        != rec.session_id@ by {
                        assert(from_prefix(pre, i as int, kept@[j]));
                        let l = choose|l: int| 0 <= l < i && pre[l] == kept@[j];
                        assert(pre[l].session_id@ != pre[i as int].session_id@);
                    }
                }
                kept.push(rec);
                proof {
                    assert forall|j: int| 0 <= j < kept@.len() implies #[trigger] from_prefix(
                        pre,
                        i as int + 1,
                        kept@[j],
                    ) && fresh_at(kept@[j].created_at_ms, now_ms) by {
                        if j < kept_before.len() {
                            assert(kept@[j] == kept_before[j]);
                            assert(from_prefix(pre, i as int, kept_before[j]));
                            let l = choose|l: int| 0 <= l < i && pre[l] == kept_before[j];
                            assert(0 <= l < i as int + 1 && pre[l] == kept@[j]);
                        } else {
                            assert(kept@[j] == rec);
                            assert(pre[i as int] == kept@[j]);
                        }
                    }
                    assert forall|l: int|
                        0 <= l < i as int + 1 && fresh_at(
                            pre[l].created_at_ms,
                            now_ms,
                        ) implies kept@.contains(#[trigger] pre[l]) by {
                        if l < i as int {
                            assert(kept_before.contains(pre[l]));
                            let m = choose|m: int|
                                0 <= m < kept_before.len() && kept_before[m] == pre[l];
                            assert(kept@[m] == pre[l]);
                        } else {
                            assert(kept@[kept@.len() - 1] == pre[l]);
                        }
                    }
                }
            } else {
                proof {
                    assert forall|j: int| 0 <= j < kept@.len() implies #[trigger] from_prefix(
                        pre,
                        i as int + 1,
                        kept@[j],
                    ) && fresh_at(kept@[j].created_at_ms, now_ms) by {
                        assert(from_prefix(pre, i as int, kept@[j]));
                        let l = choose|l: int| 0 <= l < i && pre[l] == kept@[j];
                        assert(0 <= l < i as int + 1 && pre[l] == kept@[j]);
                    }
                    assert forall|l: int|
                        0 <= l < i as int + 1 && fresh_at(
                            pre[l].created_at_ms,
                            now_ms,
                        ) implies kept@.contains(#[trigger] pre[l]) by {
                        assert(l < i as int);
                    }
                }
            }
            i += 1;
        }
        self.sessions = kept;
        proof {
            let post = self.sessions@;
            assert forall|q: Seq<char>|
                map_of(post).dom().contains(q) == sweep_map(map_of(pre), now_ms).dom().contains(
                    q,
                ) by {
                if has_tok(post, q) {
                    let j = idx_of(post, q);
                    assert(0 <= j < post.len() && post[j].session_id@ == q);
                    assert(from_prefix(pre, n as int, post[j]));
                    let l = choose|l: int| 0 <= l < n && pre[l] == post[j];
                    assert(has_tok(pre, q));
                    lemma_map_of_at(pre, l);
                    assert(map_of(pre)[q] == pre[l].info());
                }
                if map_of(pre).dom().contains(q) && fresh_at(
                    map_of(pre)[q].created_at_ms,
                    now_ms,
                ) {
                    let l = idx_of(pre, q);
                    assert(0 <= l < pre.len() && pre[l].session_id@ == q);
                    lemma_map_of_at(pre, l);
                    assert(fresh_at(pre[l].created_at_ms, now_ms));
                    assert(post.contains(pre[l]));
                    let j = choose|j: int| 0 <= j < post.len() && post[j] == pre[l];
                    assert(has_tok(post, q));
                }
            }
            assert forall|q: Seq<char>| map_of(post).dom().contains(q) implies map_of(post)[q]
                == sweep_map(map_of(pre), now_ms)[q] by {
                let j = idx_of(post, q);
                assert(0 <= j < post.len() && post[j].session_id@ == q);
                lemma_map_of_at(post, j);
                assert(from_prefix(pre, n as int, post[j]));
                let l = choose|l: int| 0 <= l < n && pre[l] == post[j];
                lemma_map_of_at(pre, l);
                assert(map_of(post)[q] == post[j].info());
                assert(map_of(pre)[q] == pre[l].info());
            }
            assert(map_of(post) =~= sweep_map(map_of(pre), now_ms));
        }
    }

    /// Sweeps expired sessions, then looks `token` up: a surviving session is
    /// marked connected (sticky) and its image id returned; an unknown or
    /// swept token yields `None`. Validation is repeatable: it never consumes
    /// the session.
    pub fn validate_session_at(&mut self, token: &str, now_ms: u64) -> (r: Option<String>)
        requires
            old(self).wf(),
        ensures
            final(self).wf(),
            final(self).port_spec() == old(self).port_spec(),
            validate_post(old(self)@, final(self)@, token@, r.deep_view(), now_ms),
    {
        self.sweep(now_ms);
        match self.find_index(token) {
            Some(i) => {
                let ghost mid = self.sessions@;
                let img = self.sessions[i].image_id.clone();
                let rec = QrSession {
                    session_id: self.sessions[i].session_id.clone(),
                    image_id: self.sessions[i].image_id.clone(),
                    created_at_ms: self.sessions[i].created_at_ms,
                    connected: true,
                };
                self.sessions.set(i, rec);
                proof {
                    lemma_map_of_at(mid, i as int);
                    let post = self.sessions@;
                    assert forall|x: int, y: int| 0 <= x < y < post.len() implies post[x].session_id@
                        != post[y].session_id@ by {
                        assert(mid[x].session_id@ != mid[y].session_id@);
                    }
                    lemma_map_of_insert(mid, post, i as int);
                }
                Some(img)
            },
            None => {
                None
            },
        }
    }

    /// Handshake for an incoming connection: like validation, but when the
    /// client supplies an image id that disagrees with the registered one the
    /// session is rejected and left untouched — in particular it is not
    /// marked connected.
    pub fn connect_session(
        &mut self,
        token: &str,
        provided_image_id: Option<&str>,
        now_ms: u64,
    ) -> (r: HandshakeOutcome)
        requires
            old(self).wf(),
        ensures
            final(self).wf(),
            final(self).port_spec() == old(self).port_spec(),
            ({
                let swept = sweep_map(old(self)@, now_ms);
                match r {
                    HandshakeOutcome::NotFound => !swept.dom().contains(token@) && final(self)@
                        == swept,
                    HandshakeOutcome::Mismatch => swept.dom().contains(token@) && (match provided_image_id {
                        Some(p) => p@ != swept[token@].image_id,
                        None => false,
                    }) && final(self)@ == swept,
                    HandshakeOutcome::Connected(img) => swept.dom().contains(token@) && img@
                        == swept[token@].image_id && (match provided_image_id {
                        Some(p) => p@ == img@,
                        None => true,
                    }) && final(self)@ == swept.insert(token@, mark_connected(swept[token@])),
                }
            }),
    {
        self.sweep(now_ms);
        match self.find_index(token) {
            Some(i) => {
                let ghost mid = self.sessions@;
                proof {
                    lemma_map_of_at(mid, i as int);
                }
                if let Some(p) = provided_image_id {
                    if !crate::text::str_eq(p, self.sessions[i].image_id.as_str()) {
                        return HandshakeOutcome::Mismatch;
                    }
                }
                let img = self.sessions[i].image_id.clone();
                let rec = QrSession {
                    session_id: self.sessions[i].session_id.clone(),
                    image_id: self.sessions[i].image_id.clone(),
                    created_at_ms: self.sessions[i].created_at_ms,
                    connected: true,
                };
                self.sessions.set(i, rec);
                proof {
                    let post = self.sessions@;
                    assert forall|x: int, y: int| 0 <= x < y < post.len() implies post[x].session_id@
                        != post[y].session_id@ by {
                        assert(mid[x].session_id@ != mid[y].session_id@);
                    }
                    lemma_map_of_insert(mid, post, i as int);
                }
                HandshakeOutcome::Connected(img)
            },
            None => {
                HandshakeOutcome::NotFound
            },
        }
    }

    /// Reports whether the session has ever connected, together with a fixed
    /// placeholder for the remaining lifetime. No sweep runs here.
    pub fn get_session_status(&self, token: &str) -> (r: Option<(bool, u64)>)
        requires
            self.wf(),
        ensures
            match r {
                Some(p) => self@.dom().contains(token@) && p.0 == self@[token@].connected && p.1
                    == STATUS_REMAINING_SECS,
                None => !self@.dom().contains(token@),
            },
    {
        match self.find_index(token) {
            Some(i) => {
                proof {
                    lemma_map_of_at(self.sessions@, i as int);
                }
                Some((self.sessions[i].connected, STATUS_REMAINING_SECS))
            },
            None => None,
        }
    }
}

/// The URL a phone opens after scanning the QR code.
pub open spec fn pairing_url(host: Seq<char>, port: u16, token: Seq<char>, image: Seq<char>) -> Seq<
    char,
> {
    "http://"@ + host + ":"@ + dec_of(port as int) + "/app?session="@ + token + "&image="@ + image
}

/// Renders the pairing URL for the given host, port, token and image id.
pub fn build_pairing_url(host: &str, port: u16, token: &str, image: &str) -> (r: String)
    ensures
        r@ == pairing_url(host@, port, token@, image@),
{
    let mut s = String::from_str("http://");
    s.append(host);
    s.append(":");
    let p = usize_to_dec(port as usize);
    s.append(p.as_str());
    s.append("/app?session=");
    s.append(token);
    s.append("&image=");
    s.append(image);
    proof {
        assert(s@ =~= pairing_url(host@, port, token@, image@));
    }
    s
}

/// Relies on std::time::SystemTime::now: milliseconds since the Unix epoch
/// (zero for a clock set before it). The value depends on the wall clock.
#[verifier::external_body]
fn now_millis() -> (r: u64) {
    match std::time::SystemTime::now().duration_since(std::time::UNIX_EPOCH) {
        Ok(d) => d.as_millis() as u64,
        Err(_) => 0,
    }
}

/// Relies on uuid::Uuid::new_v4 and its hyphenated textual form: a fresh
/// random version-4 UUID, 36 characters. The value is random; nothing
/// relates two calls.
#[verifier::external_body]
fn fresh_token() -> (r: String)
    ensures
        r@.len() == 36,
{
    uuid::Uuid::new_v4().to_string()
}

impl QrManager {
    /// Generates a fresh random token, stores a new unconnected session for
    /// `image_id` under it, and returns the token with the QR data URI of
    /// the pairing URL (host picked from the machine's interfaces, port this
    /// registry's). Fails only when the QR encoder refuses the URL; the
    /// session is stored either way.
    pub fn create_session(&mut self, image_id: &str) -> (r: Result<(String, String), QrError>)
        requires
            old(self).wf(),
        ensures
            final(self).wf(),
            final(self).port_spec() == old(self).port_spec(),
            match r {
                Ok(p) => create_ok_post(
                    old(self)@,
                    final(self)@,
                    old(self).port_spec(),
                    p.0@,
                    p.1@,
                    image_id@,
                ),
                Err(e) => match e {
                    QrError::Unencodable { cause } => create_err_post(
                        old(self)@,
                        final(self)@,
                        old(self).port_spec(),
                        image_id@,
                        cause@,
                    ),
                },
            },
    {
        let token = fresh_token();
        let now = now_millis();
        self.put_session(token.clone(), image_id, now);
        let host = choose_preferred_host();
        let url = build_pairing_url(host.as_str(), self.server_port, token.as_str(), image_id);
        proof {
            assert(created_post(old(self)@, self@, token@, image_id@, now));
        }
        match encode_qr_data_uri(url.as_str()) {
            Ok(uri) => {
                proof {
                    assert(uri@ == qr_data_uri_spec(
                        pairing_url(host@, old(self).port_spec(), token@, image_id@),
                    ));
                    assert(create_ok_post(
                        old(self)@,
                        self@,
                        old(self).port_spec(),
                        token@,
                        uri@,
                        image_id@,
                    ));
                }
                Ok((token, uri))
            },
            Err(e) => {
                proof {
                    match &e {
                        QrError::Unencodable { cause } => {
                            assert(create_refused(
                                old(self)@,
                                self@,
                                old(self).port_spec(),
                                image_id@,
                                cause@,
                                token@,
                                now,
                                host@,
                            ));
                        },
                    }
                }
                Err(e)
            },
        }
    }

    /// Validates `token` against the wall clock: behaves as
    /// `validate_session_at` at the current time.
    pub fn validate_session(&mut self, token: &str) -> (r: Option<String>)
        requires
            old(self).wf(),
        ensures
            final(self).wf(),
            final(self).port_spec() == old(self).port_spec(),
            exists|now_ms: u64| validate_post(old(self)@, final(self)@, token@, r.deep_view(), now_ms),
    {
        let now = now_millis();
        let r = self.validate_session_at(token, now);
        proof {
            assert(validate_post(old(self)@, self@, token@, r.deep_view(), now));
        }
        r
    }
}

/// A token registered at `t0` still validates at any `t1` within the
/// retention window, and yields exactly the image id it was bound to.
pub proof fn lemma_fresh_token_validates(
    m: Map<Seq<char>, SessionInfo>,
    tok: Seq<char>,
    img: Seq<char>,
    t0: u64,
    t1: u64,
)
    requires
        t0 <= t1,
        t1 - t0 < SESSION_RETENTION_MS,
    ensures
        ({
            let m1 = m.insert(tok, SessionInfo { image_id: img, created_at_ms: t0, connected: false });
            let swept = sweep_map(m1, t1);
            swept.dom().contains(tok) && swept[tok].image_id == img
        }),
{
}

/// Validation never consumes a session: after a successful validation at
/// `t1`, the same token validates again at any later `t2` within the
/// retention window, with the same image id, and is reported connected.
pub proof fn lemma_validate_idempotent(
    m: Map<Seq<char>, SessionInfo>,
    tok: Seq<char>,
    t1: u64,
    t2: u64,
)
    requires
        sweep_map(m, t1).dom().contains(tok),
        t1 <= t2,
        t2 - m[tok].created_at_ms < SESSION_RETENTION_MS,
    ensures
        ({
            let swept1 = sweep_map(m, t1);
            let after1 = swept1.insert(tok, mark_connected(swept1[tok]));
            let swept2 = sweep_map(after1, t2);
            swept2.dom().contains(tok) && swept2[tok].image_id == m[tok].image_id
                && swept2[tok].connected
        }),
{
}

/// A session older than the retention window is absent from any later sweep.
pub proof fn lemma_expired_session_swept(m: Map<Seq<char>, SessionInfo>, tok: Seq<char>, now_ms: u64)
    requires
        m.dom().contains(tok),
        now_ms - m[tok].created_at_ms >= SESSION_RETENTION_MS,
    ensures
        !sweep_map(m, now_ms).dom().contains(tok),
{
}

} // verus!
