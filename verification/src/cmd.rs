//! The commands handed to external tools, as data. The library never spawns a
//! process itself; it computes each command's program and argument list under
//! an exact contract, and the unverified shell around the library runs them.

use vstd::prelude::*;

use crate::text::{concat2, concat3, strs_view, u32_dec, dec_rep};

verus! {

/// One external command: a program, its arguments, and whether it runs with
/// elevated privileges.
#[derive(Debug, Clone)]
pub struct Cmd {
    pub program: String,
    pub args: Vec<String>,
    pub sudo: bool,
}

/// The tunnel status query for an interface.
pub open spec fn is_wg_show_cmd(c: Cmd, interface: Seq<char>) -> bool {
    &&& c.program@ == "wg"@
    &&& strs_view(c.args@) == seq!["show"@, interface]
    &&& c.sudo == true
}

/// Build the tunnel status query.
pub fn wg_show_cmd(interface: &str) -> (r: Cmd)
    ensures
        is_wg_show_cmd(r, interface@),
{
    let mut args: Vec<String> = Vec::new();
    args.push(String::from_str("show"));
    args.push(interface.to_owned());
    proof {
        assert(strs_view(args@) =~~= seq!["show"@, interface@]);
    }
    Cmd { program: String::from_str("wg"), args, sudo: true }
}

/// The command bringing the tunnel up.
pub open spec fn is_wg_up_cmd(c: Cmd, interface: Seq<char>) -> bool {
    &&& c.program@ == "wg-quick"@
    &&& strs_view(c.args@) == seq!["up"@, interface]
    &&& c.sudo == true
}

/// Build the command bringing the tunnel up.
pub fn wg_up_cmd(interface: &str) -> (r: Cmd)
    ensures
        is_wg_up_cmd(r, interface@),
{
    let mut args: Vec<String> = Vec::new();
    args.push(String::from_str("up"));
    args.push(interface.to_owned());
    proof {
        assert(strs_view(args@) =~~= seq!["up"@, interface@]);
    }
    Cmd { program: String::from_str("wg-quick"), args, sudo: true }
}

/// The command tearing the tunnel down.
pub open spec fn is_wg_down_cmd(c: Cmd, interface: Seq<char>) -> bool {
    &&& c.program@ == "wg-quick"@
    &&& strs_view(c.args@) == seq!["down"@, interface]
    &&& c.sudo == true
}

/// Build the command tearing the tunnel down.
pub fn wg_down_cmd(interface: &str) -> (r: Cmd)
    ensures
        is_wg_down_cmd(r, interface@),
{
    let mut args: Vec<String> = Vec::new();
    args.push(String::from_str("down"));
    args.push(interface.to_owned());
    proof {
        assert(strs_view(args@) =~~= seq!["down"@, interface@]);
    }
    Cmd { program: String::from_str("wg-quick"), args, sudo: true }
}

/// The quiet mount-point probe; its exit status is the answer.
pub open spec fn is_mountpoint_cmd(c: Cmd, path: Seq<char>) -> bool {
    &&& c.program@ == "mountpoint"@
    &&& strs_view(c.args@) == seq!["-q"@, path]
    &&& c.sudo == false
}

/// Build the mount-point probe.
pub fn mountpoint_cmd(path: &str) -> (r: Cmd)
    ensures
        is_mountpoint_cmd(r, path@),
{
    let mut args: Vec<String> = Vec::new();
    args.push(String::from_str("-q"));
    args.push(path.to_owned());
    proof {
        assert(strs_view(args@) =~~= seq!["-q"@, path@]);
    }
    Cmd { program: String::from_str("mountpoint"), args, sudo: false }
}

/// The unmount command: graceful, or forced/lazy on the retry.
pub open spec fn is_unmount_cmd(c: Cmd, path: Seq<char>, lazy: bool) -> bool {
    &&& c.program@ == "fusermount"@
    &&& strs_view(c.args@) == seq![if lazy { "-uz"@ } else { "-u"@ }, path]
    &&& c.sudo == false
}

/// Build the unmount command.
pub fn unmount_cmd(path: &str, lazy: bool) -> (r: Cmd)
    ensures
        is_unmount_cmd(r, path@, lazy),
{
    let mut args: Vec<String> = Vec::new();
    if lazy {
        args.push(String::from_str("-uz"));
    } else {
        args.push(String::from_str("-u"));
    }
    args.push(path.to_owned());
    proof {
        assert(strs_view(args@) =~~= seq![if lazy { "-uz"@ } else { "-u"@ }, path@]);
    }
    Cmd { program: String::from_str("fusermount"), args, sudo: false }
}

/// The network filesystem mount command: identity file, host keys accepted on
/// first use, auto-reconnect, the configured keep-alive interval, a fixed
/// keep-alive retry count of three, and a fixed ten-second connect timeout.
pub open spec fn is_sshfs_cmd(
    c: Cmd,
    identity: Seq<char>,
    alive_interval: u32,
    target: Seq<char>,
    mount_point: Seq<char>,
) -> bool {
    &&& c.program@ == "sshfs"@
    &&& strs_view(c.args@) == seq![
        "-o"@,
        "IdentityFile="@ + identity,
        "-o"@,
        "StrictHostKeyChecking=accept-new"@,
        "-o"@,
        "reconnect"@,
        "-o"@,
        "ServerAliveInterval="@ + dec_rep(alive_interval as nat),
        "-o"@,
        "ServerAliveCountMax=3"@,
        "-o"@,
        "ConnectTimeout=10"@,
        target,
        mount_point,
    ]
    &&& c.sudo == false
}

/// Build the network filesystem mount command.
pub fn sshfs_cmd(identity: &str, alive_interval: u32, target: &str, mount_point: &str) -> (r: Cmd)
    ensures
        is_sshfs_cmd(r, identity@, alive_interval, target@, mount_point@),
{
    let mut args: Vec<String> = Vec::new();
    args.push(String::from_str("-o"));
    args.push(concat2("IdentityFile=", identity));
    args.push(String::from_str("-o"));
    args.push(String::from_str("StrictHostKeyChecking=accept-new"));
    args.push(String::from_str("-o"));
    args.push(String::from_str("reconnect"));
    args.push(String::from_str("-o"));
    let interval = u32_dec(alive_interval);
    args.push(concat2("ServerAliveInterval=", interval.as_str()));
    args.push(String::from_str("-o"));
    args.push(String::from_str("ServerAliveCountMax=3"));
    args.push(String::from_str("-o"));
    args.push(String::from_str("ConnectTimeout=10"));
    args.push(target.to_owned());
    args.push(mount_point.to_owned());
    proof {
        assert(strs_view(args@) =~~= seq![
            "-o"@,
            "IdentityFile="@ + identity@,
            "-o"@,
            "StrictHostKeyChecking=accept-new"@,
            "-o"@,
            "reconnect"@,
            "-o"@,
            "ServerAliveInterval="@ + dec_rep(alive_interval as nat),
            "-o"@,
            "ServerAliveCountMax=3"@,
            "-o"@,
            "ConnectTimeout=10"@,
            target@,
            mount_point@,
        ]);
    }
    Cmd { program: String::from_str("sshfs"), args, sudo: false }
}

/// The direct shell command: identity file, host keys accepted on first use,
/// and the user at the selected address.
pub open spec fn is_ssh_direct_cmd(c: Cmd, identity: Seq<char>, user_at_ip: Seq<char>) -> bool {
    &&& c.program@ == "ssh"@
    &&& strs_view(c.args@) == seq![
        "-i"@,
        identity,
        "-o"@,
        "StrictHostKeyChecking=accept-new"@,
        user_at_ip,
    ]
    &&& c.sudo == false
}

/// Build the direct shell command.
pub fn ssh_direct_cmd(identity: &str, user_at_ip: &str) -> (r: Cmd)
    ensures
        is_ssh_direct_cmd(r, identity@, user_at_ip@),
{
    let mut args: Vec<String> = Vec::new();
    args.push(String::from_str("-i"));
    args.push(identity.to_owned());
    args.push(String::from_str("-o"));
    args.push(String::from_str("StrictHostKeyChecking=accept-new"));
    args.push(user_at_ip.to_owned());
    proof {
        assert(strs_view(args@) =~~= seq![
            "-i"@,
            identity@,
            "-o"@,
            "StrictHostKeyChecking=accept-new"@,
            user_at_ip@,
        ]);
    }
    Cmd { program: String::from_str("ssh"), args, sudo: false }
}

/// The provider-helper shell command. The instance name and zone are fixed
/// values rather than derived from the requested alias; that is a known
/// limitation of the tool kept as it stands.
pub open spec fn is_gcloud_ssh_cmd(c: Cmd) -> bool {
    &&& c.program@ == "gcloud"@
    &&& strs_view(c.args@) == seq!["compute"@, "ssh"@, "arch-1"@, "--zone"@, "us-central1-a"@]
    &&& c.sudo == false
}

/// Build the provider-helper shell command.
pub fn gcloud_ssh_cmd() -> (r: Cmd)
    ensures
        is_gcloud_ssh_cmd(r),
{
    let mut args: Vec<String> = Vec::new();
    args.push(String::from_str("compute"));
    args.push(String::from_str("ssh"));
    args.push(String::from_str("arch-1"));
    args.push(String::from_str("--zone"));
    args.push(String::from_str("us-central1-a"));
    proof {
        assert(strs_view(args@) =~~= seq![
            "compute"@,
            "ssh"@,
            "arch-1"@,
            "--zone"@,
            "us-central1-a"@,
        ]);
    }
    Cmd { program: String::from_str("gcloud"), args, sudo: false }
}

/// The target a mount reaches: `user@address:remote_path`.
pub open spec fn mount_target_spec(user: Seq<char>, ip: Seq<char>, remote: Seq<char>) -> Seq<char> {
    user + "@"@ + ip + ":"@ + remote
}

/// Build the mount target text.
pub fn mount_target(user: &str, ip: &str, remote: &str) -> (r: String)
    ensures
        r@ == mount_target_spec(user@, ip@, remote@),
{
    let head = concat3(user, "@", ip);
    let r = concat3(head.as_str(), ":", remote);
    r
}

/// The user-at-address text for a shell session.
pub open spec fn user_at_ip_spec(user: Seq<char>, ip: Seq<char>) -> Seq<char> {
    user + "@"@ + ip
}

/// Build the user-at-address text.
pub fn user_at_ip(user: &str, ip: &str) -> (r: String)
    ensures
        r@ == user_at_ip_spec(user@, ip@),
{
    concat3(user, "@", ip)
}

} // verus!
