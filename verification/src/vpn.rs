//! Interpretation of the tunnel tool's status text. The status query's raw
//! output is parsed here: the tunnel mode is read off the advertised routes,
//! the transfer counters off the `transfer:` line, and the last handshake off
//! the `latest handshake:` line, each pinned by an exact contract.

use vstd::prelude::*;

use crate::text::{
    after_first, contains_seq, contains_sub, find_eq_pos, find_line_containing,
    first_eq_pos, first_line_containing, lemma_first_eq_pos_bounds, lines_of, lines_vec,
    split_ws, split_ws_vec, strs_view, trim_spec, trim_str, after_first_char,
};

verus! {

/// Transfer counters as the underlying tool displays them; the tool's own
/// formatting is authoritative, so both values stay opaque strings.
#[derive(Debug, Clone)]
pub struct Transfer {
    pub rx: String,
    pub tx: String,
}

/// Tunnel status derived from one status query; never persisted.
#[derive(Debug, Clone)]
pub struct VpnStatus {
    pub connected: bool,
    pub mode: String,
    pub interface: String,
    pub transfer: Option<Transfer>,
    pub latest_handshake: Option<String>,
}

/// The transfer counters of a status text: on the first line holding
/// `transfer:`, the token after the first token equal to `transfer:` is the
/// received count and the token three later is the sent count.
pub open spec fn transfer_spec(out: Seq<char>) -> Option<(Seq<char>, Seq<char>)> {
    match first_line_containing(lines_of(out), "transfer:"@) {
        None => None,
        Some(line) => {
            let toks = split_ws(line);
            match first_eq_pos(toks, "transfer:"@) {
                None => None,
                Some(j) => if j + 3 < toks.len() {
                    Some((toks[j + 1], toks[j + 3]))
                } else {
                    None
                },
            }
        },
    }
}

/// The last-handshake text: on the first line holding `latest handshake:`,
/// everything after the first colon, trimmed.
pub open spec fn handshake_spec(out: Seq<char>) -> Option<Seq<char>> {
    match first_line_containing(lines_of(out), "latest handshake:"@) {
        None => None,
        Some(line) => Some(trim_spec(after_first(line, ':'))),
    }
}

/// The tunnel mode of a status text: a default route among the allowed
/// addresses means a full tunnel, anything else a split tunnel.
pub open spec fn mode_spec(out: Seq<char>) -> Seq<char> {
    if contains_seq(out, "0.0.0.0/0"@) {
        "full"@
    } else {
        "split"@
    }
}

/// Extract the transfer counters from the status text.
pub fn parse_transfer(output: &str) -> (r: Option<Transfer>)
    ensures
        match r {
            Some(t) => transfer_spec(output@) == Some((t.rx@, t.tx@)),
            None => transfer_spec(output@) is None,
        },
{
    let lines = lines_vec(output);
    let line = match find_line_containing(&lines, "transfer:") {
        Some(l) => l,
        None => {
            return None;
        },
    };
    let toks = split_ws_vec(line.as_str());
    let j = match find_eq_pos(&toks, "transfer:") {
        Some(j) => j,
        None => {
            return None;
        },
    };
    proof {
        lemma_first_eq_pos_bounds(strs_view(toks@), "transfer:"@);
    }
    if toks.len() - j > 3 {
        let rx = toks[j + 1].clone();
        let tx = toks[j + 3].clone();
        proof {
            assert(strs_view(toks@)[j + 1] == toks@[j + 1]@);
            assert(strs_view(toks@)[j + 3] == toks@[j + 3]@);
        }
        Some(Transfer { rx, tx })
    } else {
        None
    }
}

/// Extract the last-handshake text from the status text.
pub fn parse_handshake(output: &str) -> (r: Option<String>)
    ensures
        match r {
            Some(h) => handshake_spec(output@) == Some(h@),
            None => handshake_spec(output@) is None,
        },
{
    let lines = lines_vec(output);
    match find_line_containing(&lines, "latest handshake:") {
        Some(l) => {
            let rest = after_first_char(l.as_str(), ':');
            Some(trim_str(rest.as_str()))
        },
        None => None,
    }
}

/// Read the tunnel mode off the status text.
pub fn detect_mode(output: &str) -> (r: String)
    ensures
        r@ == mode_spec(output@),
{
    if contains_sub(output, "0.0.0.0/0") {
        String::from_str("full")
    } else {
        String::from_str("split")
    }
}

/// Interpret one status query. `None` stands for a failed query (interface
/// absent or down), which is the normal disconnected result, not an error; a
/// successful query's text is parsed field by field.
pub fn get_vpn_status(interface: &str, show_output: Option<&str>) -> (r: VpnStatus)
    ensures
        r.interface@ == interface@,
        match show_output {
            None => {
                &&& r.connected == false
                &&& r.mode@ == "none"@
                &&& r.transfer is None
                &&& r.latest_handshake is None
            },
            Some(out) => {
                &&& r.connected == true
                &&& r.mode@ == mode_spec(out@)
                &&& match r.transfer {
                    Some(t) => transfer_spec(out@) == Some((t.rx@, t.tx@)),
                    None => transfer_spec(out@) is None,
                }
                &&& match r.latest_handshake {
                    Some(h) => handshake_spec(out@) == Some(h@),
                    None => handshake_spec(out@) is None,
                }
            },
        },
{
    match show_output {
        None => VpnStatus {
            connected: false,
            mode: String::from_str("none"),
            interface: interface.to_owned(),
            transfer: None,
            latest_handshake: None,
        },
        Some(out) => VpnStatus {
            connected: true,
            mode: detect_mode(out),
            interface: interface.to_owned(),
            transfer: parse_transfer(out),
            latest_handshake: parse_handshake(out),
        },
    }
}

/// The other tunnel mode: toggling leaves split for full and anything else
/// (full included) for split.
pub fn toggled_mode(mode: &str) -> (r: String)
    ensures
        mode@ == "split"@ ==> r@ == "full"@,
        mode@ != "split"@ ==> r@ == "split"@,
{
    if crate::text::str_eq(mode, "split") {
        String::from_str("full")
    } else {
        String::from_str("split")
    }
}

/// What bringing the tunnel up came to, given the tool's exit status and its
/// error text: an interface that already exists counts as connected.
#[derive(Debug, Clone, Copy, PartialEq, Eq, Structural)]
pub enum VpnUpOutcome {
    Connected,
    AlreadyConnected,
    Failed,
}

/// Decide the outcome of bringing the tunnel up.
pub fn vpn_up_outcome(success: bool, stderr: &str) -> (r: VpnUpOutcome)
    ensures
        success ==> r is Connected,
        !success && contains_seq(stderr@, "already exists"@) ==> r is AlreadyConnected,
        !success && !contains_seq(stderr@, "already exists"@) ==> r is Failed,
{
    if success {
        VpnUpOutcome::Connected
    } else if contains_sub(stderr, "already exists") {
        VpnUpOutcome::AlreadyConnected
    } else {
        VpnUpOutcome::Failed
    }
}

/// What tearing the tunnel down came to: an interface that is no tunnel
/// interface any more counts as already disconnected.
#[derive(Debug, Clone, Copy, PartialEq, Eq, Structural)]
pub enum VpnDownOutcome {
    Disconnected,
    AlreadyDisconnected,
    Failed,
}

/// Decide the outcome of tearing the tunnel down.
pub fn vpn_down_outcome(success: bool, stderr: &str) -> (r: VpnDownOutcome)
    ensures
        success ==> r is Disconnected,
        !success && contains_seq(stderr@, "is not a WireGuard interface"@) ==> r
            is AlreadyDisconnected,
        !success && !contains_seq(stderr@, "is not a WireGuard interface"@) ==> r is Failed,
{
    if success {
        VpnDownOutcome::Disconnected
    } else if contains_sub(stderr, "is not a WireGuard interface") {
        VpnDownOutcome::AlreadyDisconnected
    } else {
        VpnDownOutcome::Failed
    }
}

} // verus!
