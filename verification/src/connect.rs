//! The connectivity facade. Connecting brings the tunnel up, re-reads the
//! tunnel state, and only then mounts the registry, so mounts see the
//! just-established tunnel and prefer overlay addresses; disconnecting
//! unmounts everything first and tears the tunnel down last, so no mount is
//! left pointing at an address about to vanish. Both orders are proved, and a
//! connect session keeps a log showing that the tunnel-up command precedes
//! every mount attempt.

use vstd::prelude::*;

use crate::cmd::{Cmd, is_wg_down_cmd, is_wg_show_cmd, is_wg_up_cmd, wg_down_cmd, wg_show_cmd,
    wg_up_cmd};
use crate::mount::{MountBatch, MountRequest, UnmountBatch, UnmountStepRequest};
use crate::vms::Vm;
use crate::vpn::{VpnDownOutcome, VpnUpOutcome};

verus! {

/// One entry of a connect session's visible history.
pub enum ConnectLogEntry {
    /// The tunnel-up command was issued.
    VpnUpIssued,
    /// A mount command for this alias was issued.
    MountAttempt(String),
}

/// Where a connect stands.
#[derive(Debug, Clone, Copy, PartialEq, Eq, Structural)]
pub enum ConnectPhase {
    /// The tunnel-up command is outstanding.
    VpnUp,
    /// The tunnel state is re-read before mounting.
    VpnCheck,
    /// The registry is being mounted.
    Mounting,
    /// The tunnel could not be brought up; nothing was mounted.
    Aborted,
}

/// What the driver must do next for a connect session.
pub enum ConnectRequest {
    /// Run the tunnel-up command.
    RunVpnUp(Cmd),
    /// Run the tunnel status query; its exit status is the tunnel state.
    RunVpnCheck(Cmd),
    /// Continue the mount batch with this step.
    Mount(MountRequest),
    /// Nothing is left to do.
    Finished,
}

/// A connect: tunnel up, then tunnel check, then the mount batch.
pub struct ConnectSession {
    pub interface: String,
    pub base: String,
    pub home: String,
    pub alive_interval: u32,
    pub pending_vms: Option<Vec<Vm>>,
    pub phase: ConnectPhase,
    pub batch: Option<MountBatch>,
    pub log: Vec<ConnectLogEntry>,
}

impl ConnectSession {
    /// The log opens with the tunnel-up issuance and otherwise holds only
    /// mount attempts; the registry is held back until the tunnel state is
    /// known, and the batch exists exactly from then on.
    pub open spec fn wf(self) -> bool {
        &&& self.log@.len() >= 1
        &&& self.log@[0] is VpnUpIssued
        &&& forall|k: int| 1 <= k < self.log@.len() ==> self.log@[k] is MountAttempt
        &&& (self.phase is VpnUp || self.phase is VpnCheck ==> self.pending_vms is Some
            && self.batch is None && self.log@.len() == 1)
        &&& (self.phase is Aborted ==> self.batch is None && self.log@.len() == 1)
        &&& (self.phase is Mounting ==> self.pending_vms is None && self.batch is Some && {
            let b = self.batch->0;
            b.wf() && b.base@ == self.base@ && b.home@ == self.home@ && b.alive_interval
                == self.alive_interval
        })
    }

    /// Start a connect over a registry: the first thing issued is tunnel-up.
    pub fn new(interface: String, vms: Vec<Vm>, base: String, home: String, alive_interval: u32)
        -> (r: Self)
        ensures
            r.wf(),
            r.interface@ == interface@,
            r.base@ == base@,
            r.home@ == home@,
            r.alive_interval == alive_interval,
            r.pending_vms is Some && r.pending_vms->0@ == vms@,
            r.phase is VpnUp,
            r.log@.len() == 1 && r.log@[0] is VpnUpIssued,
    {
        let mut log: Vec<ConnectLogEntry> = Vec::new();
        log.push(ConnectLogEntry::VpnUpIssued);
        ConnectSession {
            interface,
            base,
            home,
            alive_interval,
            pending_vms: Some(vms),
            phase: ConnectPhase::VpnUp,
            batch: None,
            log,
        }
    }

    /// What the driver must do next.
    pub fn current_request(&self) -> (r: ConnectRequest)
        requires
            self.wf(),
        ensures
            self.phase is VpnUp ==> (r matches ConnectRequest::RunVpnUp(c) && is_wg_up_cmd(
                c,
                self.interface@,
            )),
            self.phase is VpnCheck ==> (r matches ConnectRequest::RunVpnCheck(c) && is_wg_show_cmd(
                c,
                self.interface@,
            )),
            self.phase is Aborted ==> r is Finished,
            self.phase is Mounting && self.batch->0.idx < self.batch->0.vms@.len() ==> r
                is Mount,
            self.phase is Mounting && self.batch->0.idx == self.batch->0.vms@.len() ==> r
                is Finished,
    {
        match self.phase {
            ConnectPhase::VpnUp => ConnectRequest::RunVpnUp(wg_up_cmd(self.interface.as_str())),
            ConnectPhase::VpnCheck => ConnectRequest::RunVpnCheck(
                wg_show_cmd(self.interface.as_str()),
            ),
            ConnectPhase::Aborted => ConnectRequest::Finished,
            ConnectPhase::Mounting => {
                match &self.batch {
                    Some(b) => {
                        if b.is_complete() {
                            ConnectRequest::Finished
                        } else {
                            ConnectRequest::Mount(b.current_request())
                        }
                    },
                    None => ConnectRequest::Finished,
                }
            },
        }
    }

    /// Record what bringing the tunnel up came to: a failure aborts the
    /// connect before any mount is attempted; otherwise the tunnel state is
    /// re-read next.
    pub fn on_vpn_result(&mut self, outcome: VpnUpOutcome)
        requires
            old(self).wf(),
            old(self).phase is VpnUp,
        ensures
            final(self).wf(),
            final(self).interface@ == old(self).interface@,
            final(self).log@ == old(self).log@,
            final(self).pending_vms == old(self).pending_vms,
            outcome is Failed ==> final(self).phase is Aborted,
            !(outcome is Failed) ==> final(self).phase is VpnCheck,
    {
        match outcome {
            VpnUpOutcome::Failed => {
                self.phase = ConnectPhase::Aborted;
            },
            _ => {
                self.phase = ConnectPhase::VpnCheck;
            },
        }
    }

    /// Record the re-read tunnel state and start the mount batch with it:
    /// mounts prefer overlay addresses exactly when the tunnel is up.
    pub fn on_vpn_check(&mut self, connected: bool)
        requires
            old(self).wf(),
            old(self).phase is VpnCheck,
        ensures
            final(self).wf(),
            final(self).interface@ == old(self).interface@,
            final(self).log@ == old(self).log@,
            final(self).phase is Mounting,
            final(self).batch is Some,
            final(self).batch->0.vms@ == old(self).pending_vms->0@,
            final(self).batch->0.vpn_connected == connected,
            final(self).batch->0.idx == 0,
            final(self).batch->0.results@.len() == 0,
    {
        let vms = match self.pending_vms.take() {
            Some(v) => v,
            None => Vec::new(),
        };
        let b = MountBatch::new(
            vms,
            self.base.clone(),
            self.home.clone(),
            self.alive_interval,
            connected,
        );
        self.batch = Some(b);
        self.phase = ConnectPhase::Mounting;
    }

    /// Record a directory result for the batch's current VM.
    pub fn on_mount_dir_result(&mut self, ok: bool)
        requires
            old(self).wf(),
            old(self).phase is Mounting,
            old(self).batch->0.current is Some,
            old(self).batch->0.current->0.phase is NeedDir,
        ensures
            final(self).wf(),
            final(self).phase is Mounting,
            final(self).interface@ == old(self).interface@,
            final(self).log@ == old(self).log@,
            final(self).batch is Some,
            old(self).batch->0.same_setup(final(self).batch->0),
            ok ==> final(self).batch->0.idx == old(self).batch->0.idx && final(self).batch->0.results@ == old(self).batch->0.results@ && final(self).batch->0.current
                is Some && final(self).batch->0.current->0.phase is NeedProbe,
            !ok ==> old(self).batch->0.advanced(
                final(self).batch->0,
                crate::mount::MountOutcome::Failed,
            ),
    {
        match &mut self.batch {
            Some(b) => {
                b.on_dir_result(ok);
            },
            None => {
            },
        }
    }

    /// Record a probe result for the batch's current VM. A VM found already
    /// mounted is skipped without a mount attempt; only when the probe says
    /// unmounted is a mount attempt logged and its command issued next.
    pub fn on_mount_probe_result(&mut self, mounted: bool)
        requires
            old(self).wf(),
            old(self).phase is Mounting,
            old(self).batch->0.current is Some,
            old(self).batch->0.current->0.phase is NeedProbe,
        ensures
            final(self).wf(),
            final(self).phase is Mounting,
            final(self).interface@ == old(self).interface@,
            final(self).batch is Some,
            old(self).batch->0.same_setup(final(self).batch->0),
            mounted ==> final(self).log@ == old(self).log@ && old(self).batch->0.advanced(
                final(self).batch->0,
                crate::mount::MountOutcome::AlreadyMounted,
            ),
            !mounted ==> {
                &&& final(self).batch->0.idx == old(self).batch->0.idx
                &&& final(self).batch->0.results@ == old(self).batch->0.results@
                &&& final(self).batch->0.current is Some
                &&& final(self).batch->0.current->0.phase is NeedRun
                &&& final(self).log@.len() == old(self).log@.len() + 1
                &&& final(self).log@.drop_last() == old(self).log@
                &&& (final(self).log@.last() matches ConnectLogEntry::MountAttempt(a) && a@ == old(self).batch->0.vms@[old(self).batch->0.idx as int].alias@)
            },
    {
        let mut attempt: Option<String> = None;
        match &mut self.batch {
            Some(b) => {
                if !mounted {
                    attempt = Some(b.vms[b.idx].alias.clone());
                }
                b.on_probe_result(mounted);
            },
            None => {
            },
        }
        match attempt {
            Some(a) => {
                self.log.push(ConnectLogEntry::MountAttempt(a));
                proof {
                    assert(self.log@.drop_last() =~= old(self).log@);
                }
            },
            None => {
            },
        }
    }

    /// Record the mount command's exit status for the batch's current VM;
    /// success and failure are both recorded and the batch moves on.
    pub fn on_mount_run_result(&mut self, success: bool)
        requires
            old(self).wf(),
            old(self).phase is Mounting,
            old(self).batch->0.current is Some,
            old(self).batch->0.current->0.phase is NeedRun,
        ensures
            final(self).wf(),
            final(self).phase is Mounting,
            final(self).interface@ == old(self).interface@,
            final(self).log@ == old(self).log@,
            final(self).batch is Some,
            old(self).batch->0.same_setup(final(self).batch->0),
            success ==> old(self).batch->0.advanced(
                final(self).batch->0,
                crate::mount::MountOutcome::Mounted,
            ),
            !success ==> old(self).batch->0.advanced(
                final(self).batch->0,
                crate::mount::MountOutcome::Failed,
            ),
    {
        match &mut self.batch {
            Some(b) => {
                b.on_run_result(success);
            },
            None => {
            },
        }
    }
}

/// Connecting issues the tunnel-up command strictly before any mount
/// attempt: in every well-formed connect session's history the first entry
/// is the tunnel-up issuance, and every mount attempt sits strictly after
/// an entry recording it.
pub proof fn lemma_connect_vpn_before_mounts(s: ConnectSession, k: int)
    requires
        s.wf(),
        0 <= k < s.log@.len(),
        s.log@[k] is MountAttempt,
    ensures
        exists|j: int| 0 <= j < k && s.log@[j] is VpnUpIssued,
{
    assert(s.log@[0] is VpnUpIssued);
    assert(k != 0);
    assert(0 <= 0 < k && s.log@[0] is VpnUpIssued);
}

/// Where a disconnect stands.
#[derive(Debug, Clone, Copy, PartialEq, Eq, Structural)]
pub enum DisconnectPhase {
    /// The registry is being unmounted.
    Unmounting,
    /// Every VM was handled; the tunnel-down command is outstanding.
    VpnDown,
    /// The disconnect is over.
    Done,
}

/// What the driver must do next for a disconnect session.
pub enum DisconnectRequest {
    /// Continue the unmount batch with this step.
    Unmount(UnmountStepRequest),
    /// Run the tunnel-down command.
    RunVpnDown(Cmd),
    /// Nothing is left to do.
    Finished,
}

/// A disconnect: the unmount batch first, the tunnel-down last, in that
/// order, so no mount is stranded on an address that is about to vanish.
pub struct DisconnectSession {
    pub interface: String,
    pub phase: DisconnectPhase,
    pub batch: UnmountBatch,
    pub vpn_outcome: Option<VpnDownOutcome>,
}

impl DisconnectSession {
    /// The tunnel-down phase is reachable only once the batch is complete.
    pub open spec fn wf(self) -> bool {
        &&& self.batch.wf()
        &&& (self.phase is Unmounting <==> self.batch.idx < self.batch.vms@.len())
        &&& (self.vpn_outcome is Some <==> self.phase is Done)
    }

    /// Start a disconnect over a registry: unmounting comes first.
    pub fn new(interface: String, vms: Vec<Vm>, base: String) -> (r: Self)
        ensures
            r.wf(),
            r.interface@ == interface@,
            r.batch.vms@ == vms@,
            r.batch.base@ == base@,
            r.batch.results@.len() == 0,
            vms@.len() > 0 ==> r.phase is Unmounting,
            vms@.len() == 0 ==> r.phase is VpnDown,
    {
        let batch = UnmountBatch::new(vms, base);
        let phase = if batch.is_complete() {
            DisconnectPhase::VpnDown
        } else {
            DisconnectPhase::Unmounting
        };
        DisconnectSession { interface, phase, batch, vpn_outcome: None }
    }

    /// What the driver must do next.
    pub fn current_request(&self) -> (r: DisconnectRequest)
        requires
            self.wf(),
        ensures
            self.phase is Unmounting ==> r is Unmount,
            self.phase is VpnDown ==> (r matches DisconnectRequest::RunVpnDown(c)
                && is_wg_down_cmd(c, self.interface@)),
            self.phase is Done ==> r is Finished,
    {
        match self.phase {
            DisconnectPhase::Unmounting => DisconnectRequest::Unmount(
                self.batch.current_request(),
            ),
            DisconnectPhase::VpnDown => DisconnectRequest::RunVpnDown(
                wg_down_cmd(self.interface.as_str()),
            ),
            DisconnectPhase::Done => DisconnectRequest::Finished,
        }
    }

    /// Record whether the current VM's mount point is mounted.
    pub fn on_probe_result(&mut self, mounted: bool)
        requires
            old(self).wf(),
            old(self).phase is Unmounting,
            old(self).batch.probing,
        ensures
            final(self).wf(),
            final(self).interface@ == old(self).interface@,
            old(self).batch.same_setup(final(self).batch),
            !mounted ==> old(self).batch.advanced(
                final(self).batch,
                crate::mount::UnmountVmOutcome::NotMounted,
            ),
            mounted ==> final(self).batch.idx == old(self).batch.idx && final(self).batch.current
                is Some,
    {
        self.batch.on_probe_result(mounted);
        let n = self.vms_len();
        if self.batch.idx == n {
            self.phase = DisconnectPhase::VpnDown;
        }
    }

    /// Record an unmount command's exit status for the current VM.
    pub fn on_unmount_result(&mut self, success: bool)
        requires
            old(self).wf(),
            old(self).phase is Unmounting,
            old(self).batch.current is Some,
        ensures
            final(self).wf(),
            final(self).interface@ == old(self).interface@,
            old(self).batch.same_setup(final(self).batch),
            old(self).batch.current->0.phase is Graceful && success ==> old(self).batch.advanced(
                final(self).batch,
                crate::mount::UnmountVmOutcome::Unmounted,
            ),
            old(self).batch.current->0.phase is Graceful && !success ==> final(self).batch.idx
                == old(self).batch.idx && final(self).batch.current is Some && final(self).batch.current->0.phase is Forced,
            old(self).batch.current->0.phase is Forced && success ==> old(self).batch.advanced(
                final(self).batch,
                crate::mount::UnmountVmOutcome::Unmounted,
            ),
            old(self).batch.current->0.phase is Forced && !success ==> old(self).batch.advanced(
                final(self).batch,
                crate::mount::UnmountVmOutcome::Failed,
            ),
    {
        self.batch.on_unmount_result(success);
        let n = self.vms_len();
        if self.batch.idx == n {
            self.phase = DisconnectPhase::VpnDown;
        }
    }

    /// Record what tearing the tunnel down came to; the disconnect is over.
    pub fn on_vpn_down_result(&mut self, outcome: VpnDownOutcome)
        requires
            old(self).wf(),
            old(self).phase is VpnDown,
        ensures
            final(self).wf(),
            final(self).interface@ == old(self).interface@,
            final(self).batch == old(self).batch,
            final(self).phase is Done,
            final(self).vpn_outcome == Some(outcome),
    {
        self.vpn_outcome = Some(outcome);
        self.phase = DisconnectPhase::Done;
    }

    fn vms_len(&self) -> (r: usize)
        ensures
            r == self.batch.vms@.len(),
    {
        self.batch.vms.len()
    }
}

/// Disconnecting never reaches the tunnel-down command while a VM is still
/// to be handled: in the tunnel-down and done phases the unmount batch has
/// recorded an outcome for every VM of the registry.
pub proof fn lemma_disconnect_unmounts_before_vpn_down(s: DisconnectSession)
    requires
        s.wf(),
        !(s.phase is Unmounting),
    ensures
        s.batch.results@.len() == s.batch.vms@.len(),
        forall|i: int| 0 <= i < s.batch.vms@.len() ==> s.batch.results@[i].alias@
            == s.batch.vms@[i].alias@,
{
}

/// One VM's line of the combined status report.
pub struct MountStatusRow {
    pub name: String,
    pub alias: String,
    pub mount_point: String,
    pub mounted: bool,
}

/// Assemble the per-VM half of the status report: one row per VM in registry
/// order, carrying its name, alias, mount point, and the probed state the
/// driver supplies (freshly probed, never cached).
pub fn mount_status_rows(vms: &Vec<Vm>, base: &str, mounted_flags: &Vec<bool>) -> (r: Vec<
    MountStatusRow,
>)
    requires
        mounted_flags@.len() == vms@.len(),
    ensures
        r@.len() == vms@.len(),
        forall|i: int| 0 <= i < vms@.len() ==> {
            &&& r@[i].name@ == vms@[i].name@
            &&& r@[i].alias@ == vms@[i].alias@
            &&& r@[i].mount_point@ == vms@[i].mount_point_spec(base@)
            &&& r@[i].mounted == mounted_flags@[i]
        },
{
    let mut out: Vec<MountStatusRow> = Vec::new();
    let mut i: usize = 0;
    while i < vms.len()
        invariant
            i <= vms@.len(),
            mounted_flags@.len() == vms@.len(),
            out@.len() == i,
            forall|k: int| 0 <= k < i ==> #[trigger] out@[k].name@ == vms@[k].name@,
            forall|k: int| 0 <= k < i ==> #[trigger] out@[k].alias@ == vms@[k].alias@,
            forall|k: int| 0 <= k < i ==> #[trigger] out@[k].mount_point@ == vms@[
                k
            ].mount_point_spec(base@),
            forall|k: int| 0 <= k < i ==> #[trigger] out@[k].mounted == mounted_flags@[k],
        decreases vms@.len() - i,
    {
        let row = MountStatusRow {
            name: vms[i].name.clone(),
            alias: vms[i].alias.clone(),
            mount_point: vms[i].mount_point(base),
            mounted: mounted_flags[i],
        };
        out.push(row);
        i += 1;
    }
    out
}

} // verus!
