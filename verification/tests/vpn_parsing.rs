use cloud_connect::vpn::{detect_mode, get_vpn_status, parse_handshake, parse_transfer,
    vpn_down_outcome, vpn_up_outcome, VpnDownOutcome, VpnUpOutcome};

#[test]
fn transfer_fixture_tokens() {
    // The rule is positional: the token right after `transfer:` and the token
    // three positions later. With the unit printed as its own token, the
    // received count comes out exactly; the third-later token is then the
    // word between the counters, taken as-is.
    let fixture = "peer: ...\n  transfer: 1.20 GiB received, 3.45 MiB sent\n";
    let t = parse_transfer(fixture).expect("transfer line present");
    assert_eq!(t.rx.as_str(), "1.20");
    assert_eq!(t.tx.as_str(), "received,");
}

#[test]
fn transfer_tokens_with_attached_units() {
    // With units attached to the counters, the positional rule hands back
    // both counters, units included.
    let fixture = "peer: ...\n  transfer: 1.20GiB received, 3.45MiB sent\n";
    let t = parse_transfer(fixture).expect("transfer line present");
    assert_eq!(t.rx.as_str(), "1.20GiB");
    assert_eq!(t.tx.as_str(), "3.45MiB");
}

#[test]
fn transfer_absent_line_is_none() {
    let out = "interface: wg0\n  public key: abc\n";
    assert!(parse_transfer(out).is_none());
}

#[test]
fn transfer_needs_exact_token() {
    // The line holds the marker as a substring only; no token equals it.
    let out = "  xtransfer: 9.99 GiB received, 8.88 MiB sent\n";
    assert!(parse_transfer(out).is_none());
}

#[test]
fn transfer_short_line_is_none() {
    let out = "  transfer: 1.20 GiB\n";
    assert!(parse_transfer(out).is_none());
}

#[test]
fn transfer_first_matching_line_wins() {
    let out = "  transfer: 10rx received, 20tx sent\n  transfer: 30rx received, 40tx sent\n";
    let t = parse_transfer(out).expect("transfer lines present");
    assert_eq!(t.rx.as_str(), "10rx");
    assert_eq!(t.tx.as_str(), "20tx");
}

#[test]
fn mode_full_on_default_route() {
    let out = "peer: abc\n  AllowedIPs = 0.0.0.0/0, ::/0\n";
    assert_eq!(detect_mode(out).as_str(), "full");
}

#[test]
fn mode_split_without_default_route() {
    let out = "peer: abc\n  AllowedIPs = 10.0.0.0/24\n";
    assert_eq!(detect_mode(out).as_str(), "split");
}

#[test]
fn handshake_text_after_first_colon_trimmed() {
    let out = "  latest handshake: 1 minute, 30 seconds ago\n";
    let h = parse_handshake(out).expect("handshake line present");
    assert_eq!(h.as_str(), "1 minute, 30 seconds ago");
}

#[test]
fn handshake_keeps_later_colons() {
    let out = "  latest handshake: 01:02:03 ago\n";
    let h = parse_handshake(out).expect("handshake line present");
    assert_eq!(h.as_str(), "01:02:03 ago");
}

#[test]
fn handshake_absent_is_none() {
    let out = "interface: wg0\n";
    assert!(parse_handshake(out).is_none());
}

#[test]
fn status_of_failed_query_is_disconnected() {
    let s = get_vpn_status("wg0", None);
    assert!(!s.connected);
    assert_eq!(s.mode.as_str(), "none");
    assert_eq!(s.interface.as_str(), "wg0");
    assert!(s.transfer.is_none());
    assert!(s.latest_handshake.is_none());
}

#[test]
fn status_of_successful_query_is_parsed() {
    let out = "interface: wg0\n  AllowedIPs = 10.0.0.0/24\n  latest handshake: 5 seconds ago\n  transfer: 1.20GiB received, 3.45MiB sent\n";
    let s = get_vpn_status("wg0", Some(out));
    assert!(s.connected);
    assert_eq!(s.mode.as_str(), "split");
    let t = s.transfer.expect("transfer parsed");
    assert_eq!(t.rx.as_str(), "1.20GiB");
    assert_eq!(t.tx.as_str(), "3.45MiB");
    assert_eq!(s.latest_handshake.expect("handshake parsed").as_str(), "5 seconds ago");
}

#[test]
fn crlf_line_endings_are_handled() {
    let out = "peer: abc\r\n  transfer: 10rx received, 20tx sent\r\n";
    let t = parse_transfer(out).expect("transfer line present");
    assert_eq!(t.rx.as_str(), "10rx");
    assert_eq!(t.tx.as_str(), "20tx");
}

#[test]
fn handshake_is_trimmed() {
    let out = "  latest handshake:   \t 2 minutes ago \t \n";
    let h = parse_handshake(out).expect("handshake line present");
    assert_eq!(h.as_str(), "2 minutes ago");
}

#[test]
fn mode_of_empty_text_is_split() {
    assert_eq!(detect_mode("").as_str(), "split");
}

#[test]
fn toggled_mode_flips() {
    assert_eq!(cloud_connect::vpn::toggled_mode("split").as_str(), "full");
    assert_eq!(cloud_connect::vpn::toggled_mode("full").as_str(), "split");
    assert_eq!(cloud_connect::vpn::toggled_mode("none").as_str(), "split");
}

#[test]
fn vpn_up_outcomes() {
    assert_eq!(vpn_up_outcome(true, ""), VpnUpOutcome::Connected);
    assert_eq!(
        vpn_up_outcome(false, "wg0: interface already exists"),
        VpnUpOutcome::AlreadyConnected
    );
    assert_eq!(vpn_up_outcome(false, "permission denied"), VpnUpOutcome::Failed);
}

#[test]
fn vpn_down_outcomes() {
    assert_eq!(vpn_down_outcome(true, ""), VpnDownOutcome::Disconnected);
    assert_eq!(
        vpn_down_outcome(false, "`wg0' is not a WireGuard interface"),
        VpnDownOutcome::AlreadyDisconnected
    );
    assert_eq!(vpn_down_outcome(false, "permission denied"), VpnDownOutcome::Failed);
}
