//! Host selection for pairing URLs: among the machine's IPv4 interfaces,
//! prefer one a phone on the LAN can reach, excluding loopback, link-local
//! addresses and known virtual or special interfaces.

use vstd::prelude::*;
use crate::text::{
    ci_contains, ci_has_prefix, contains_char, is_prefix, str_ci_contains, str_ci_has_prefix,
    str_contains_char, str_has_prefix,
};

verus! {

/// One candidate interface: its name and the textual form of its address.
pub struct NetInterface {
    pub name: String,
    pub addr: String,
}

/// The address is IPv4 (no colon), not loopback (127/8), not link-local
/// (first octet 169).
pub open spec fn addr_eligible(addr: Seq<char>) -> bool {
    !contains_char(addr, ':') && !is_prefix("127."@, addr) && !is_prefix("169."@, addr)
}

/// Interface names excluded as virtual or special.
pub open spec fn name_excluded(name: Seq<char>) -> bool {
    ci_has_prefix(name, "awdl"@) || ci_has_prefix(name, "llw"@) || ci_has_prefix(name, "utun"@)
        || ci_contains(name, "bridge"@)
}

/// The interface may carry a pairing URL.
pub open spec fn eligible(c: NetInterface) -> bool {
    addr_eligible(c.addr@) && !name_excluded(c.name@)
}

/// Preference score, smaller is better: `en*`, then `eth*`, then `wl*`,
/// then everything else.
pub open spec fn score_of(name: Seq<char>) -> int {
    if ci_has_prefix(name, "en"@) {
        10
    } else if ci_has_prefix(name, "eth"@) {
        20
    } else if ci_has_prefix(name, "wl"@) {
        30
    } else {
        100
    }
}

/// Candidate `i` is the winner: eligible, with the best score, and first
/// among those with that score.
pub open spec fn picked(cands: Seq<NetInterface>, i: int) -> bool {
    &&& 0 <= i < cands.len()
    &&& eligible(cands[i])
    &&& forall|j: int|
        0 <= j < cands.len() && eligible(#[trigger] cands[j]) ==> score_of(cands[i].name@)
            <= score_of(cands[j].name@)
    &&& forall|j: int|
        0 <= j < i && eligible(#[trigger] cands[j]) ==> score_of(cands[j].name@) > score_of(
            cands[i].name@,
        )
}

fn addr_ok(addr: &str) -> (r: bool)
    ensures
        r == addr_eligible(addr@),
{
    !str_contains_char(addr, ':') && !str_has_prefix(addr, "127.") && !str_has_prefix(addr, "169.")
}

fn name_bad(name: &str) -> (r: bool)
    ensures
        r == name_excluded(name@),
{
    str_ci_has_prefix(name, "awdl") || str_ci_has_prefix(name, "llw") || str_ci_has_prefix(
        name,
        "utun",
    ) || str_ci_contains(name, "bridge")
}

fn score_fn(name: &str) -> (s: u32)
    ensures
        s == score_of(name@),
{
    if str_ci_has_prefix(name, "en") {
        10
    } else if str_ci_has_prefix(name, "eth") {
        20
    } else if str_ci_has_prefix(name, "wl") {
        30
    } else {
        100
    }
}

/// The address of the preferred eligible interface, if any: best score wins,
/// earliest listed breaks ties.
pub fn pick_host(cands: &Vec<NetInterface>) -> (r: Option<String>)
    ensures
        match r {
            Some(ip) => exists|i: int| #[trigger] picked(cands@, i) && ip@ == cands@[i].addr@,
            None => forall|j: int| 0 <= j < cands@.len() ==> !eligible(#[trigger] cands@[j]),
        },
{
    let n = cands.len();
    let mut best: Option<usize> = None;
    let mut best_score: u32 = 0;
    let mut i: usize = 0;
    while i < n
        invariant
            n == cands@.len(),
            i <= n,
            match best {
                Some(b) => b < i && eligible(cands@[b as int]) && best_score == score_of(
                    cands@[b as int].name@,
                ) && (forall|j: int|
                    0 <= j < i && eligible(#[trigger] cands@[j]) ==> best_score <= score_of(
                        cands@[j].name@,
                    )) && (forall|j: int|
                    0 <= j < b && eligible(#[trigger] cands@[j]) ==> score_of(cands@[j].name@)
                        > best_score),
                None => forall|j: int| 0 <= j < i ==> !eligible(#[trigger] cands@[j]),
            },
        decreases n - i,
    {
        let cand = &cands[i];
        if addr_ok(cand.addr.as_str()) && !name_bad(cand.name.as_str()) {
            let sc = score_fn(cand.name.as_str());
            match best {
                Some(_) => {
                    if sc < best_score {
                        best = Some(i);
                        best_score = sc;
                    }
                },
                None => {
                    best = Some(i);
                    best_score = sc;
                },
            }
        }
        i += 1;
    }
    match best {
        Some(b) => {
            proof {
                assert(picked(cands@, b as int));
            }
            Some(cands[b].addr.clone())
        },
        None => None,
    }
}

/// Relies on local_ip_address::list_afinet_netifas: the machine's network
/// interfaces with their addresses rendered as text; `None` when the lookup
/// fails. What comes back depends on the machine.
#[verifier::external_body]
fn list_interfaces() -> (r: Option<Vec<NetInterface>>) {
    match local_ip_address::list_afinet_netifas() {
        Ok(list) => Some(
            list.into_iter().map(
                |(name, ip)| NetInterface { name, addr: ip.to_string() },
            ).collect(),
        ),
        Err(_) => None,
    }
}

/// Relies on local_ip_address::local_ip: the machine's default local
/// address rendered as text; `None` when the lookup fails.
#[verifier::external_body]
fn local_ip_string() -> (r: Option<String>) {
    local_ip_address::local_ip().ok().map(|ip| ip.to_string())
}

/// The host to embed in pairing URLs: the preferred eligible interface
/// address, else the default local address, else the literal `localhost`.
pub fn choose_preferred_host() -> (r: String) {
    if let Some(cands) = list_interfaces() {
        if let Some(ip) = pick_host(&cands) {
            return ip;
        }
    }
    match local_ip_string() {
        Some(ip) => ip,
        None => String::from_str("localhost"),
    }
}

} // verus!
