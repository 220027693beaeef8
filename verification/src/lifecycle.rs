//! Server lifecycle guard: a single-flight flag that serializes concurrent
//! start requests, the cached bound port, the registry handle, and the pure
//! port-scan logic over the fixed candidate range.

use vstd::prelude::*;
use crate::session::QrManager;

verus! {

/// First port the front door tries to bind.
pub const PORT_RANGE_START: u16 = 8080;

/// Last port the front door tries to bind (inclusive).
pub const PORT_RANGE_END: u16 = 8090;

/// How many times a caller that lost the starting race re-checks the port.
pub const START_POLL_ATTEMPTS: u32 = 30;

/// Pause between those re-checks.
pub const START_POLL_DELAY_MS: u64 = 100;

/// Why a start request failed.
#[derive(Debug, PartialEq, Eq)]
pub enum StartError {
    /// Every port in the candidate range was occupied.
    NoAvailablePort,
    /// Another caller is still starting the server; retry shortly.
    StillStarting,
}

impl StartError {
    /// Short diagnostic text for operators.
    pub fn message(&self) -> (r: &'static str)
        ensures
            self is NoAvailablePort ==> r@ == "no available port"@,
            self is StillStarting ==> r@ == "server is starting, retry shortly"@,
    {
        match self {
            StartError::NoAvailablePort => "no available port",
            StartError::StillStarting => "server is starting, retry shortly",
        }
    }
}

/// Process-wide server state: the bound port once known, the session
/// registry while the listener runs, and the single-flight starting flag.
pub struct ServerState {
    web_server_port: Option<u16>,
    qr_manager: Option<QrManager>,
    is_starting: bool,
}

impl ServerState {
    /// The cached port, if a start has succeeded.
    pub closed spec fn port_opt(&self) -> Option<u16> {
        self.web_server_port
    }

    /// The registry handle, if a start has succeeded.
    pub closed spec fn manager_opt(&self) -> Option<QrManager> {
        self.qr_manager
    }

    /// Whether some caller currently holds the starting flag.
    pub closed spec fn starting(&self) -> bool {
        self.is_starting
    }

    /// The documented invariant: the registry handle is present exactly
    /// while a port is cached.
    pub open spec fn wf(&self) -> bool {
        self.port_opt() is Some <==> self.manager_opt() is Some
    }

    pub fn new() -> (r: ServerState)
        ensures
            r.port_opt() is None,
            r.manager_opt() is None,
            !r.starting(),
            r.wf(),
    {
        ServerState { web_server_port: None, qr_manager: None, is_starting: false }
    }

    pub fn set_server_port(&mut self, port: u16)
        ensures
            final(self).port_opt() == Some(port),
            final(self).manager_opt() == old(self).manager_opt(),
            final(self).starting() == old(self).starting(),
    {
        self.web_server_port = Some(port);
    }

    pub fn get_server_port(&self) -> (r: Option<u16>)
        ensures
            r == self.port_opt(),
    {
        self.web_server_port
    }

    pub fn set_qr_manager(&mut self, manager: QrManager)
        ensures
            final(self).manager_opt() == Some(manager),
            final(self).port_opt() == old(self).port_opt(),
            final(self).starting() == old(self).starting(),
    {
        self.qr_manager = Some(manager);
    }

    pub fn get_qr_manager(&self) -> (r: Option<&QrManager>)
        ensures
            match r {
                Some(m) => self.manager_opt() == Some(*m),
                None => self.manager_opt() is None,
            },
    {
        match &self.qr_manager {
            Some(m) => Some(m),
            None => None,
        }
    }

    /// Mutable access to the registry, for the gateway and the desktop
    /// commands. The caller's changes to the registry are the only change to
    /// this state.
    pub fn qr_manager_mut(&mut self) -> (r: Option<&mut QrManager>)
        ensures
            match r {
                Some(m) => old(self).manager_opt() == Some(*m) && final(self).manager_opt()
                    == Some(*final(m)) && final(self).port_opt() == old(self).port_opt()
                    && final(self).starting() == old(self).starting(),
                None => old(self).manager_opt() is None && *final(self) == *old(self),
            },
    {
        match &mut self.qr_manager {
            Some(m) => Some(m),
            None => None,
        }
    }

    /// Atomically takes the starting flag: the caller that flips it from
    /// false to true wins the race and must later call `finish_starting`;
    /// everyone else polls.
    pub fn begin_starting(&mut self) -> (won: bool)
        ensures
            won == !old(self).starting(),
            final(self).starting(),
            final(self).port_opt() == old(self).port_opt(),
            final(self).manager_opt() == old(self).manager_opt(),
    {
        if self.is_starting {
            false
        } else {
            self.is_starting = true;
            true
        }
    }

    /// Releases the starting flag; called on success and failure alike, so a
    /// failed start never wedges future attempts.
    pub fn finish_starting(&mut self)
        ensures
            !final(self).starting(),
            final(self).port_opt() == old(self).port_opt(),
            final(self).manager_opt() == old(self).manager_opt(),
    {
        self.is_starting = false;
    }

    /// What the winner of the starting race does after a successful bind:
    /// constructs the session registry for `port`, caches the port, and
    /// releases the starting flag — establishing the invariant that the
    /// registry handle is present exactly while a port is cached.
    pub fn install_started(&mut self, port: u16)
        ensures
            final(self).wf(),
            final(self).port_opt() == Some(port),
            !final(self).starting(),
            match final(self).manager_opt() {
                Some(m) => m.wf() && m@ == Map::<Seq<char>, crate::session::SessionInfo>::empty()
                    && m.port_spec() == port,
                None => false,
            },
    {
        self.set_qr_manager(QrManager::new(port));
        self.set_server_port(port);
        self.finish_starting();
    }

    /// One poll by a caller that lost the starting race: the cached port as
    /// soon as the winner has installed it, a transient failure once the
    /// attempts run out.
    pub fn poll_started(&self, attempts_left: u32) -> (r: Result<Option<u16>, StartError>)
        ensures
            match r {
                Ok(Some(p)) => self.port_opt() == Some(p),
                Ok(None) => self.port_opt() is None && attempts_left > 0,
                Err(e) => e is StillStarting && self.port_opt() is None && attempts_left == 0,
            },
    {
        match self.get_server_port() {
            Some(p) => Ok(Some(p)),
            None => if attempts_left == 0 {
                Err(StartError::StillStarting)
            } else {
                Ok(None)
            },
        }
    }
}

/// The port the scan settles on when `bind_ok[i]` tells whether candidate
/// `i` could be bound: the first bindable candidate, or an explicit
/// exhaustion failure — never a panic.
pub fn select_port(bind_ok: &Vec<bool>) -> (r: Result<u16, StartError>)
    requires
        bind_ok@.len() == PORT_RANGE_END - PORT_RANGE_START + 1,
    ensures
        match r {
            Ok(p) => PORT_RANGE_START <= p <= PORT_RANGE_END && bind_ok@[p - PORT_RANGE_START]
                && forall|j: int| 0 <= j < p - PORT_RANGE_START ==> !bind_ok@[j],
            Err(e) => e is NoAvailablePort && forall|j: int|
                0 <= j < bind_ok@.len() ==> !bind_ok@[j],
        },
{
    let n = bind_ok.len();
    let mut i: usize = 0;
    while i < n
        invariant
            n == bind_ok@.len(),
            n == PORT_RANGE_END - PORT_RANGE_START + 1,
            i <= n,
            forall|j: int| 0 <= j < i ==> !bind_ok@[j],
        decreases n - i,
    {
        if bind_ok[i] {
            return Ok(PORT_RANGE_START + (i as u16));
        }
        i += 1;
    }
    Err(StartError::NoAvailablePort)
}

/// Single-flight starting: of two consecutive attempts on an idle guard the
/// first wins and the second loses, until the winner releases the flag.
/// This is the begin/lose/finish discipline the concurrent start driver
/// follows; each step is the contract of the corresponding method.
pub proof fn lemma_single_flight(
    s0: ServerState,
    s1: ServerState,
    won1: bool,
    s2: ServerState,
    won2: bool,
)
    requires
        !s0.starting(),
        // what begin_starting leaves of s0
        won1 == !s0.starting(),
        s1.starting(),
        // what a second begin_starting leaves of s1
        won2 == !s1.starting(),
        s2.starting(),
    ensures
        won1,
        !won2,
{
}

/// Every caller observes the same final port: whether it returns early from
/// `get_server_port` or waits in `poll_started`, what it sees is
/// `port_opt()`, and no method ever clears a port once set — so two
/// observations of the started server cannot disagree.
pub proof fn lemma_started_port_agreed(s: ServerState, p1: u16, p2: u16)
    requires
        s.port_opt() == Some(p1),
        s.port_opt() == Some(p2),
    ensures
        p1 == p2,
{
}

} // verus!
