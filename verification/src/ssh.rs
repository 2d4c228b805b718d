//! The shell dispatcher: an alias is resolved in the registry, the address
//! follows the live tunnel state, and the session command is chosen by the
//! VM's connection method — the provider helper, or a direct connection with
//! the expanded identity file.

use vstd::prelude::*;

use crate::cmd::{Cmd, gcloud_ssh_cmd, is_gcloud_ssh_cmd, is_ssh_direct_cmd, ssh_direct_cmd,
    user_at_ip, user_at_ip_spec};
use crate::config::{Config, find_vm};
use crate::paths::{expand_tilde_spec, expand_tilde_with};
use crate::text::concat2;
use crate::vms::{SshMethod, Vm};

verus! {

/// The connectivity errors this library reports.
#[derive(Debug)]
pub enum ConnectError {
    /// No VM of this alias is registered.
    UnknownVm(String),
    /// The shell command exited unsuccessfully.
    SshConnectionFailed,
    /// The mount command for this alias exited unsuccessfully.
    MountFailed(String),
}

impl ConnectError {
    /// The error's display text.
    pub open spec fn message_spec(self) -> Seq<char> {
        match self {
            ConnectError::UnknownVm(a) => "Unknown VM: "@ + a@,
            ConnectError::SshConnectionFailed => "SSH connection failed"@,
            ConnectError::MountFailed(a) => "Failed to mount "@ + a@,
        }
    }

    /// Render the error for display.
    pub fn message(&self) -> (r: String)
        ensures
            r@ == self.message_spec(),
    {
        match self {
            ConnectError::UnknownVm(a) => concat2("Unknown VM: ", a.as_str()),
            ConnectError::SshConnectionFailed => String::from_str("SSH connection failed"),
            ConnectError::MountFailed(a) => concat2("Failed to mount ", a.as_str()),
        }
    }
}

/// Everything needed to open one shell session.
#[derive(Debug)]
pub struct SshPlan {
    /// The VM's display name.
    pub name: String,
    /// The VM's alias.
    pub alias: String,
    /// The address the session will use.
    pub ip: String,
    /// Whether that address is the overlay one.
    pub used_overlay: bool,
    /// The session command to run.
    pub cmd: Cmd,
}

/// Resolve an alias to a shell session plan. The alias is looked up in the
/// registry — an unknown one is the only error; the address is the overlay
/// one exactly when the tunnel is up and the VM has one; the command follows
/// the VM's connection method.
pub fn ssh_connect_plan(cfg: &Config, alias: &str, vpn_connected: bool, home: &str) -> (r: Result<
    SshPlan,
    ConnectError,
>)
    ensures
        match r {
            Ok(plan) => find_vm(cfg.vms@, alias@) is Some && {
                let vm = find_vm(cfg.vms@, alias@)->0;
                &&& plan.name@ == vm.name@
                &&& plan.alias@ == vm.alias@
                &&& plan.ip@ == vm.preferred_ip_spec(vpn_connected)
                &&& plan.used_overlay == (vpn_connected && vm.wg_ip is Some)
                &&& (vm.ssh_method is Gcloud ==> is_gcloud_ssh_cmd(plan.cmd))
                &&& (vm.ssh_method is Direct ==> is_ssh_direct_cmd(
                    plan.cmd,
                    expand_tilde_spec(vm.ssh_key@, home@),
                    user_at_ip_spec(vm.ssh_user@, vm.preferred_ip_spec(vpn_connected)),
                ))
            },
            Err(e) => (e matches ConnectError::UnknownVm(a) && a@ == alias@) && find_vm(
                cfg.vms@,
                alias@,
            ) is None,
        },
{
    match cfg.get_vm(alias) {
        None => Err(ConnectError::UnknownVm(alias.to_owned())),
        Some(vm) => {
            let ip = vm.preferred_ip(vpn_connected).to_owned();
            let used_overlay = vpn_connected && match &vm.wg_ip {
                Some(_) => true,
                None => false,
            };
            let cmd = match vm.ssh_method {
                SshMethod::Gcloud => gcloud_ssh_cmd(),
                SshMethod::Direct => {
                    let key = expand_tilde_with(vm.ssh_key.as_str(), home);
                    let target = user_at_ip(vm.ssh_user.as_str(), ip.as_str());
                    ssh_direct_cmd(key.as_str(), target.as_str())
                },
            };
            Ok(
                SshPlan {
                    name: vm.name.clone(),
                    alias: vm.alias.clone(),
                    ip,
                    used_overlay,
                    cmd,
                },
            )
        },
    }
}

/// What a finished shell session means: a non-zero exit is a connection
/// failure, anything else is success.
pub fn ssh_outcome(success: bool) -> (r: Result<(), ConnectError>)
    ensures
        success ==> r is Ok,
        !success ==> (r matches Err(e) && e is SshConnectionFailed),
{
    if success {
        Ok(())
    } else {
        Err(ConnectError::SshConnectionFailed)
    }
}

/// One VM's line of the shell-target listing.
pub struct SshTargetRow {
    pub alias: String,
    pub name: String,
    pub public_ip: String,
    pub wg_ip: String,
    pub user: String,
    pub method: String,
}

/// Assemble the shell-target listing: one row per VM in registry order, a
/// dash standing in for a missing overlay address.
pub fn ssh_target_rows(vms: &Vec<Vm>) -> (r: Vec<SshTargetRow>)
    ensures
        r@.len() == vms@.len(),
        forall|i: int| 0 <= i < vms@.len() ==> #[trigger] r@[i].alias@ == vms@[i].alias@,
        forall|i: int| 0 <= i < vms@.len() ==> #[trigger] r@[i].name@ == vms@[i].name@,
        forall|i: int| 0 <= i < vms@.len() ==> #[trigger] r@[i].public_ip@ == vms@[i].public_ip@,
        forall|i: int| 0 <= i < vms@.len() ==> #[trigger] r@[i].wg_ip@ == (match vms@[i].wg_ip {
            Some(ip) => ip@,
            None => "-"@,
        }),
        forall|i: int| 0 <= i < vms@.len() ==> #[trigger] r@[i].user@ == vms@[i].ssh_user@,
        forall|i: int| 0 <= i < vms@.len() ==> #[trigger] r@[i].method@
            == vms@[i].ssh_method.label_spec(),
{
    let mut out: Vec<SshTargetRow> = Vec::new();
    let mut i: usize = 0;
    while i < vms.len()
        invariant
            i <= vms@.len(),
            out@.len() == i,
            forall|k: int| 0 <= k < i ==> #[trigger] out@[k].alias@ == vms@[k].alias@,
            forall|k: int| 0 <= k < i ==> #[trigger] out@[k].name@ == vms@[k].name@,
            forall|k: int| 0 <= k < i ==> #[trigger] out@[k].public_ip@ == vms@[k].public_ip@,
            forall|k: int| 0 <= k < i ==> #[trigger] out@[k].wg_ip@ == (match vms@[k].wg_ip {
                Some(ip) => ip@,
                None => "-"@,
            }),
            forall|k: int| 0 <= k < i ==> #[trigger] out@[k].user@ == vms@[k].ssh_user@,
            forall|k: int| 0 <= k < i ==> #[trigger] out@[k].method@
                == vms@[k].ssh_method.label_spec(),
        decreases vms@.len() - i,
    {
        let wg_ip = match &vms[i].wg_ip {
            Some(ip) => ip.clone(),
            None => String::from_str("-"),
        };
        let row = SshTargetRow {
            alias: vms[i].alias.clone(),
            name: vms[i].name.clone(),
            public_ip: vms[i].public_ip.clone(),
            wg_ip,
            user: vms[i].ssh_user.clone(),
            method: vms[i].ssh_method.label(),
        };
        out.push(row);
        i += 1;
    }
    out
}

} // verus!
