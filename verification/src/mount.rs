//! The mount coordinator. Each mount or unmount is a small session: the
//! library computes what must be done next (create the directory, probe the
//! mount point, run the mount or unmount command) and the unverified shell
//! reports each outcome back. The decision rules — skip what is mounted,
//! retry a failed unmount with the forced variant, carry on past a failed VM —
//! are stated as contracts and proved.

use vstd::prelude::*;

use crate::cmd::{Cmd, is_mountpoint_cmd, is_sshfs_cmd, is_unmount_cmd, mount_target,
    mount_target_spec, mountpoint_cmd, sshfs_cmd, unmount_cmd};
use crate::paths::{expand_tilde_spec, expand_tilde_with};
use crate::vms::Vm;

verus! {

/// How to decide whether a path is mounted: a path absent from the local
/// filesystem is not mounted, and no external probe is run for it; an
/// existing path is asked of the probe tool, whose exit status is the answer.
pub fn mount_probe(path: &str, path_exists: bool) -> (r: Option<Cmd>)
    ensures
        !path_exists ==> r is None,
        path_exists ==> r is Some && is_mountpoint_cmd(r->0, path@),
{
    if path_exists {
        Some(mountpoint_cmd(path))
    } else {
        None
    }
}

/// What one VM's mount attempt came to.
#[derive(Debug, Clone, Copy, PartialEq, Eq, Structural)]
pub enum MountOutcome {
    /// The mount command ran and succeeded.
    Mounted,
    /// The mount point was already mounted; the attempt was skipped.
    AlreadyMounted,
    /// The directory could not be ensured or the mount command failed.
    Failed,
}

/// Where a mount attempt stands.
#[derive(Debug, Clone, Copy, PartialEq, Eq, Structural)]
pub enum MountPhase {
    NeedDir,
    NeedProbe,
    NeedRun,
    Done,
}

/// The step after the directory result: only an ensured directory is probed.
pub open spec fn mount_dir_next(ok: bool) -> (MountPhase, Option<MountOutcome>) {
    if ok {
        (MountPhase::NeedProbe, None)
    } else {
        (MountPhase::Done, Some(MountOutcome::Failed))
    }
}

/// The step after the probe: an already mounted target is skipped as a
/// success, never mounted twice; only an unmounted one is mounted.
pub open spec fn mount_probe_next(mounted: bool) -> (MountPhase, Option<MountOutcome>) {
    if mounted {
        (MountPhase::Done, Some(MountOutcome::AlreadyMounted))
    } else {
        (MountPhase::NeedRun, None)
    }
}

/// The step after the mount command: its exit status decides.
pub open spec fn mount_run_next(success: bool) -> (MountPhase, Option<MountOutcome>) {
    if success {
        (MountPhase::Done, Some(MountOutcome::Mounted))
    } else {
        (MountPhase::Done, Some(MountOutcome::Failed))
    }
}

/// Mounting a VM twice without an intervening unmount makes the second call a
/// skip: once the probe reports the target mounted, the attempt is done with
/// `AlreadyMounted`, and no phase that issues a mount command is ever reached.
pub proof fn lemma_mount_idempotent_skip()
    ensures
        mount_probe_next(true) == (MountPhase::Done, Some(MountOutcome::AlreadyMounted)),
        mount_probe_next(false) == (MountPhase::NeedRun, None::<MountOutcome>),
{
}

/// What the driver must do next for a mount session.
pub enum MountRequest {
    /// Create this directory if it is absent.
    EnsureDir(String),
    /// Decide whether this path is mounted (see `mount_probe`).
    ProbeMounted(String),
    /// Run this mount command.
    RunMount(Cmd),
    /// Nothing; the attempt is over with this outcome.
    Finished(MountOutcome),
}

/// One VM's mount attempt.
pub struct MountSession {
    pub alias: String,
    pub mount_point: String,
    pub identity: String,
    pub target: String,
    pub alive_interval: u32,
    pub phase: MountPhase,
    pub outcome: Option<MountOutcome>,
}

impl MountSession {
    /// The session records an outcome exactly when it is done.
    pub open spec fn wf(self) -> bool {
        self.phase is Done <==> self.outcome is Some
    }

    /// The fixed parameters of the attempt, unchanged by every step.
    pub open spec fn same_setup(self, other: MountSession) -> bool {
        &&& self.alias@ == other.alias@
        &&& self.mount_point@ == other.mount_point@
        &&& self.identity@ == other.identity@
        &&& self.target@ == other.target@
        &&& self.alive_interval == other.alive_interval
    }

    /// Start a mount attempt for one VM: the mount point is the alias under
    /// the base directory, the address follows the VPN state, and the
    /// identity file has its home marker expanded.
    pub fn new(vm: &Vm, base: &str, home: &str, alive_interval: u32, vpn_connected: bool) -> (r:
        Self)
        ensures
            r.alias@ == vm.alias@,
            r.mount_point@ == vm.mount_point_spec(base@),
            r.identity@ == expand_tilde_spec(vm.ssh_key@, home@),
            r.target@ == mount_target_spec(
                vm.ssh_user@,
                vm.preferred_ip_spec(vpn_connected),
                vm.remote_path@,
            ),
            r.alive_interval == alive_interval,
            r.phase is NeedDir,
            r.outcome is None,
            r.wf(),
    {
        let mount_point = vm.mount_point(base);
        let ip = vm.preferred_ip(vpn_connected);
        let identity = expand_tilde_with(vm.ssh_key.as_str(), home);
        let target = mount_target(vm.ssh_user.as_str(), ip, vm.remote_path.as_str());
        MountSession {
            alias: vm.alias.clone(),
            mount_point,
            identity,
            target,
            alive_interval,
            phase: MountPhase::NeedDir,
            outcome: None,
        }
    }

    /// What the driver must do next.
    pub fn current_request(&self) -> (r: MountRequest)
        ensures
            self.phase is NeedDir ==> (r matches MountRequest::EnsureDir(p) && p@
                == self.mount_point@),
            self.phase is NeedProbe ==> (r matches MountRequest::ProbeMounted(p) && p@
                == self.mount_point@),
            self.phase is NeedRun ==> (r matches MountRequest::RunMount(c) && is_sshfs_cmd(
                c,
                self.identity@,
                self.alive_interval,
                self.target@,
                self.mount_point@,
            )),
            self.phase is Done && self.outcome is Some ==> (r matches MountRequest::Finished(o)
                && self.outcome == Some(o)),
    {
        match self.phase {
            MountPhase::NeedDir => MountRequest::EnsureDir(self.mount_point.clone()),
            MountPhase::NeedProbe => MountRequest::ProbeMounted(self.mount_point.clone()),
            MountPhase::NeedRun => MountRequest::RunMount(
                sshfs_cmd(
                    self.identity.as_str(),
                    self.alive_interval,
                    self.target.as_str(),
                    self.mount_point.as_str(),
                ),
            ),
            MountPhase::Done => MountRequest::Finished(
                match self.outcome {
                    Some(o) => o,
                    None => MountOutcome::Failed,
                },
            ),
        }
    }

    /// Record whether the mount-point directory could be ensured.
    pub fn on_dir_result(&mut self, ok: bool)
        requires
            old(self).phase is NeedDir,
            old(self).wf(),
        ensures
            final(self).wf(),
            old(self).same_setup(*final(self)),
            (final(self).phase, final(self).outcome) == mount_dir_next(ok),
    {
        if ok {
            self.phase = MountPhase::NeedProbe;
        } else {
            self.phase = MountPhase::Done;
            self.outcome = Some(MountOutcome::Failed);
        }
    }

    /// Record whether the mount point is already mounted.
    pub fn on_probe_result(&mut self, mounted: bool)
        requires
            old(self).phase is NeedProbe,
            old(self).wf(),
        ensures
            final(self).wf(),
            old(self).same_setup(*final(self)),
            (final(self).phase, final(self).outcome) == mount_probe_next(mounted),
    {
        if mounted {
            self.phase = MountPhase::Done;
            self.outcome = Some(MountOutcome::AlreadyMounted);
        } else {
            self.phase = MountPhase::NeedRun;
        }
    }

    /// Record the mount command's exit status.
    pub fn on_run_result(&mut self, success: bool)
        requires
            old(self).phase is NeedRun,
            old(self).wf(),
        ensures
            final(self).wf(),
            old(self).same_setup(*final(self)),
            (final(self).phase, final(self).outcome) == mount_run_next(success),
    {
        if success {
            self.phase = MountPhase::Done;
            self.outcome = Some(MountOutcome::Mounted);
        } else {
            self.phase = MountPhase::Done;
            self.outcome = Some(MountOutcome::Failed);
        }
    }
}

/// Where an unmount stands: graceful first, forced on the retry.
#[derive(Debug, Clone, Copy, PartialEq, Eq, Structural)]
pub enum UnmountPhase {
    Graceful,
    Forced,
    Done,
}

/// What an unmount came to.
#[derive(Debug, Clone, Copy, PartialEq, Eq, Structural)]
pub enum UnmountOutcome {
    Unmounted,
    Failed,
}

/// The unmount policy: a graceful unmount that fails is retried with the
/// forced variant; only when both fail is the unmount a failure.
pub open spec fn unmount_next(phase: UnmountPhase, success: bool) -> (UnmountPhase, Option<
    UnmountOutcome,
>) {
    match phase {
        UnmountPhase::Graceful => if success {
            (UnmountPhase::Done, Some(UnmountOutcome::Unmounted))
        } else {
            (UnmountPhase::Forced, None)
        },
        UnmountPhase::Forced => if success {
            (UnmountPhase::Done, Some(UnmountOutcome::Unmounted))
        } else {
            (UnmountPhase::Done, Some(UnmountOutcome::Failed))
        },
        UnmountPhase::Done => (UnmountPhase::Done, None),
    }
}

/// When the graceful unmount fails and the forced retry succeeds, the unmount
/// as a whole is a success; only two failures make it a failure.
pub proof fn lemma_unmount_forced_recovery()
    ensures
        ({
            let (p1, o1) = unmount_next(UnmountPhase::Graceful, false);
            let (p2, o2) = unmount_next(p1, true);
            o1 is None && p1 is Forced && o2 == Some(UnmountOutcome::Unmounted) && p2 is Done
        }),
        ({
            let (p1, o1) = unmount_next(UnmountPhase::Graceful, false);
            let (p2, o2) = unmount_next(p1, false);
            o2 == Some(UnmountOutcome::Failed)
        }),
{
}

/// What the driver must do next for an unmount session.
pub enum UnmountRequest {
    /// Run this unmount command.
    RunUnmount(Cmd),
    /// Nothing; the unmount is over with this outcome.
    Finished(UnmountOutcome),
}

/// One path's unmount.
pub struct UnmountSession {
    pub path: String,
    pub phase: UnmountPhase,
    pub outcome: Option<UnmountOutcome>,
}

impl UnmountSession {
    /// The session records an outcome exactly when it is done.
    pub open spec fn wf(self) -> bool {
        self.phase is Done <==> self.outcome is Some
    }

    /// Start an unmount of a path, gracefully first.
    pub fn new(path: &str) -> (r: Self)
        ensures
            r.path@ == path@,
            r.phase is Graceful,
            r.outcome is None,
            r.wf(),
    {
        UnmountSession { path: path.to_owned(), phase: UnmountPhase::Graceful, outcome: None }
    }

    /// What the driver must do next.
    pub fn current_request(&self) -> (r: UnmountRequest)
        ensures
            self.phase is Graceful ==> (r matches UnmountRequest::RunUnmount(c) && is_unmount_cmd(
                c,
                self.path@,
                false,
            )),
            self.phase is Forced ==> (r matches UnmountRequest::RunUnmount(c) && is_unmount_cmd(
                c,
                self.path@,
                true,
            )),
            self.phase is Done && self.outcome is Some ==> (r
                matches UnmountRequest::Finished(o) && self.outcome == Some(o)),
    {
        match self.phase {
            UnmountPhase::Graceful => UnmountRequest::RunUnmount(
                unmount_cmd(self.path.as_str(), false),
            ),
            UnmountPhase::Forced => UnmountRequest::RunUnmount(
                unmount_cmd(self.path.as_str(), true),
            ),
            UnmountPhase::Done => UnmountRequest::Finished(
                match self.outcome {
                    Some(o) => o,
                    None => UnmountOutcome::Failed,
                },
            ),
        }
    }

    /// Record an unmount command's exit status.
    pub fn on_result(&mut self, success: bool)
        requires
            !(old(self).phase is Done),
            old(self).wf(),
        ensures
            final(self).wf(),
            final(self).path@ == old(self).path@,
            (final(self).phase, final(self).outcome) == unmount_next(old(self).phase, success),
    {
        match self.phase {
            UnmountPhase::Graceful => {
                if success {
                    self.phase = UnmountPhase::Done;
                    self.outcome = Some(UnmountOutcome::Unmounted);
                } else {
                    self.phase = UnmountPhase::Forced;
                }
            },
            UnmountPhase::Forced => {
                if success {
                    self.phase = UnmountPhase::Done;
                    self.outcome = Some(UnmountOutcome::Unmounted);
                } else {
                    self.phase = UnmountPhase::Done;
                    self.outcome = Some(UnmountOutcome::Failed);
                }
            },
            UnmountPhase::Done => {
            },
        }
    }
}

/// One VM's recorded mount outcome in a batch report.
pub struct MountResult {
    pub alias: String,
    pub outcome: MountOutcome,
}

/// A best-effort mount of the whole registry: the VMs are attempted strictly
/// one after another, a failure is recorded and never stops the rest, and the
/// report lists one outcome per VM in registry order.
pub struct MountBatch {
    pub vms: Vec<Vm>,
    pub base: String,
    pub home: String,
    pub alive_interval: u32,
    pub vpn_connected: bool,
    pub idx: usize,
    pub current: Option<MountSession>,
    pub results: Vec<MountResult>,
}

impl MountBatch {
    /// The running session, when there is one, belongs to the VM at `idx`.
    pub open spec fn session_matches(self, s: MountSession) -> bool {
        &&& s.wf()
        &&& !(s.phase is Done)
        &&& s.alias@ == self.vms@[self.idx as int].alias@
        &&& s.mount_point@ == self.vms@[self.idx as int].mount_point_spec(self.base@)
        &&& s.identity@ == expand_tilde_spec(self.vms@[self.idx as int].ssh_key@, self.home@)
        &&& s.target@ == mount_target_spec(
            self.vms@[self.idx as int].ssh_user@,
            self.vms@[self.idx as int].preferred_ip_spec(self.vpn_connected),
            self.vms@[self.idx as int].remote_path@,
        )
        &&& s.alive_interval == self.alive_interval
    }

    /// One result per finished VM, in order, and a live session exactly while
    /// VMs remain.
    pub open spec fn wf(self) -> bool {
        &&& self.results@.len() == self.idx
        &&& self.idx <= self.vms@.len()
        &&& (self.current is Some <==> self.idx < self.vms@.len())
        &&& (self.current is Some ==> self.session_matches(self.current->0))
        &&& forall|i: int| 0 <= i < self.idx ==> self.results@[i].alias@ == self.vms@[i].alias@
    }

    /// The batch's fixed parameters, unchanged by every step.
    pub open spec fn same_setup(self, other: MountBatch) -> bool {
        &&& self.vms@ == other.vms@
        &&& self.base@ == other.base@
        &&& self.home@ == other.home@
        &&& self.alive_interval == other.alive_interval
        &&& self.vpn_connected == other.vpn_connected
    }

    /// The step just recorded this outcome for the VM that was current, and
    /// moved on to the next.
    pub open spec fn advanced(self, new: MountBatch, outcome: MountOutcome) -> bool {
        &&& new.idx == self.idx + 1
        &&& new.results@.len() == self.results@.len() + 1
        &&& new.results@.drop_last() == self.results@
        &&& new.results@.last().alias@ == self.vms@[self.idx as int].alias@
        &&& new.results@.last().outcome == outcome
    }

    /// Start a best-effort mount over a registry.
    pub fn new(vms: Vec<Vm>, base: String, home: String, alive_interval: u32, vpn_connected: bool)
        -> (r: Self)
        ensures
            r.wf(),
            r.vms@ == vms@,
            r.base@ == base@,
            r.home@ == home@,
            r.alive_interval == alive_interval,
            r.vpn_connected == vpn_connected,
            r.idx == 0,
            r.results@.len() == 0,
    {
        let current = if vms.len() > 0 {
            Some(MountSession::new(&vms[0], base.as_str(), home.as_str(), alive_interval,
                vpn_connected))
        } else {
            None
        };
        MountBatch {
            vms,
            base,
            home,
            alive_interval,
            vpn_connected,
            idx: 0,
            current,
            results: Vec::new(),
        }
    }

    /// Whether every VM has been attempted.
    pub fn is_complete(&self) -> (r: bool)
        requires
            self.wf(),
        ensures
            r == (self.idx == self.vms@.len()),
            r == (self.current is None),
    {
        self.idx == self.vms.len()
    }

    /// What the driver must do next for the current VM.
    pub fn current_request(&self) -> (r: MountRequest)
        requires
            self.wf(),
            self.current is Some,
        ensures
            self.current->0.phase is NeedDir ==> (r matches MountRequest::EnsureDir(p) && p@
                == self.vms@[self.idx as int].mount_point_spec(self.base@)),
            self.current->0.phase is NeedProbe ==> (r matches MountRequest::ProbeMounted(p) && p@
                == self.vms@[self.idx as int].mount_point_spec(self.base@)),
            self.current->0.phase is NeedRun ==> (r matches MountRequest::RunMount(c)
                && is_sshfs_cmd(
                c,
                expand_tilde_spec(self.vms@[self.idx as int].ssh_key@, self.home@),
                self.alive_interval,
                mount_target_spec(
                    self.vms@[self.idx as int].ssh_user@,
                    self.vms@[self.idx as int].preferred_ip_spec(self.vpn_connected),
                    self.vms@[self.idx as int].remote_path@,
                ),
                self.vms@[self.idx as int].mount_point_spec(self.base@),
            )),
    {
        match &self.current {
            Some(s) => s.current_request(),
            None => MountRequest::Finished(MountOutcome::Failed),
        }
    }

    /// Record the current session's outcome and move to the next VM.
    fn finish_current(&mut self, outcome: MountOutcome)
        requires
            old(self).results@.len() == old(self).idx,
            old(self).idx < old(self).vms@.len(),
            forall|i: int| 0 <= i < old(self).idx ==> old(self).results@[i].alias@ == old(
                self,
            ).vms@[i].alias@,
        ensures
            final(self).wf(),
            old(self).same_setup(*final(self)),
            old(self).advanced(*final(self), outcome),
            final(self).current is Some ==> final(self).current->0.phase is NeedDir,
    {
        let n = self.vms.len();
        let alias = self.vms[self.idx].alias.clone();
        self.results.push(MountResult { alias, outcome });
        self.idx += 1;
        if self.idx < n {
            let s = MountSession::new(
                &self.vms[self.idx],
                self.base.as_str(),
                self.home.as_str(),
                self.alive_interval,
                self.vpn_connected,
            );
            self.current = Some(s);
        } else {
            self.current = None;
        }
        proof {
            assert(self.results@.drop_last() =~= old(self).results@);
        }
    }

    /// Record whether the current VM's mount-point directory could be
    /// ensured; a failure is recorded and the batch moves on.
    pub fn on_dir_result(&mut self, ok: bool)
        requires
            old(self).wf(),
            old(self).current is Some,
            old(self).current->0.phase is NeedDir,
        ensures
            final(self).wf(),
            old(self).same_setup(*final(self)),
            ok ==> final(self).idx == old(self).idx && final(self).results@ == old(self).results@
                && final(self).current is Some && final(self).current->0.phase is NeedProbe,
            !ok ==> old(self).advanced(*final(self), MountOutcome::Failed),
    {
        let mut done = false;
        match &mut self.current {
            Some(s) => {
                s.on_dir_result(ok);
                if !ok {
                    done = true;
                }
            },
            None => {
            },
        }
        if done {
            self.finish_current(MountOutcome::Failed);
        }
    }

    /// Record whether the current VM's mount point is already mounted; a
    /// mounted one is recorded as skipped and the batch moves on.
    pub fn on_probe_result(&mut self, mounted: bool)
        requires
            old(self).wf(),
            old(self).current is Some,
            old(self).current->0.phase is NeedProbe,
        ensures
            final(self).wf(),
            old(self).same_setup(*final(self)),
            mounted ==> old(self).advanced(*final(self), MountOutcome::AlreadyMounted),
            !mounted ==> final(self).idx == old(self).idx && final(self).results@ == old(
                self,
            ).results@ && final(self).current is Some && final(self).current->0.phase is NeedRun,
    {
        let mut done = false;
        match &mut self.current {
            Some(s) => {
                s.on_probe_result(mounted);
                if mounted {
                    done = true;
                }
            },
            None => {
            },
        }
        if done {
            self.finish_current(MountOutcome::AlreadyMounted);
        }
    }

    /// Record the current VM's mount command exit status; success and failure
    /// are both recorded, and the batch moves on either way.
    pub fn on_run_result(&mut self, success: bool)
        requires
            old(self).wf(),
            old(self).current is Some,
            old(self).current->0.phase is NeedRun,
        ensures
            final(self).wf(),
            old(self).same_setup(*final(self)),
            success ==> old(self).advanced(*final(self), MountOutcome::Mounted),
            !success ==> old(self).advanced(*final(self), MountOutcome::Failed),
    {
        match &mut self.current {
            Some(s) => {
                s.on_run_result(success);
            },
            None => {
            },
        }
        if success {
            self.finish_current(MountOutcome::Mounted);
        } else {
            self.finish_current(MountOutcome::Failed);
        }
    }

    /// The report so far.
    pub fn results(&self) -> (r: &Vec<MountResult>)
        ensures
            r@ == self.results@,
    {
        &self.results
    }
}

/// What one VM's unmount came to in a batch.
#[derive(Debug, Clone, Copy, PartialEq, Eq, Structural)]
pub enum UnmountVmOutcome {
    /// The path was mounted and an unmount (graceful or forced) succeeded.
    Unmounted,
    /// The path was not mounted; nothing was done.
    NotMounted,
    /// Both the graceful and the forced unmount failed.
    Failed,
}

/// One VM's recorded unmount outcome in a batch report.
pub struct UnmountResult {
    pub alias: String,
    pub outcome: UnmountVmOutcome,
}

/// What the driver must do next for an unmount batch.
pub enum UnmountStepRequest {
    /// Decide whether this path is mounted (see `mount_probe`).
    ProbeMounted(String),
    /// Run this unmount command.
    RunUnmount(Cmd),
}

/// A best-effort unmount of the whole registry: each VM's mount point is
/// probed, only mounted ones are unmounted (gracefully, then forced), and a
/// failure never stops the rest.
pub struct UnmountBatch {
    pub vms: Vec<Vm>,
    pub base: String,
    pub idx: usize,
    pub probing: bool,
    pub current: Option<UnmountSession>,
    pub results: Vec<UnmountResult>,
}

impl UnmountBatch {
    /// One result per finished VM; for the VM at `idx` either its probe or
    /// its unmount is outstanding, never both.
    pub open spec fn wf(self) -> bool {
        &&& self.results@.len() == self.idx
        &&& self.idx <= self.vms@.len()
        &&& ((self.probing || self.current is Some) <==> self.idx < self.vms@.len())
        &&& !(self.probing && self.current is Some)
        &&& (self.current is Some ==> self.current->0.wf() && !(self.current->0.phase is Done)
            && self.current->0.path@ == self.vms@[self.idx as int].mount_point_spec(self.base@))
        &&& forall|i: int| 0 <= i < self.idx ==> self.results@[i].alias@ == self.vms@[i].alias@
    }

    /// The batch's fixed parameters, unchanged by every step.
    pub open spec fn same_setup(self, other: UnmountBatch) -> bool {
        &&& self.vms@ == other.vms@
        &&& self.base@ == other.base@
    }

    /// The step just recorded this outcome for the VM that was current, and
    /// moved on to the next.
    pub open spec fn advanced(self, new: UnmountBatch, outcome: UnmountVmOutcome) -> bool {
        &&& new.idx == self.idx + 1
        &&& new.results@.len() == self.results@.len() + 1
        &&& new.results@.drop_last() == self.results@
        &&& new.results@.last().alias@ == self.vms@[self.idx as int].alias@
        &&& new.results@.last().outcome == outcome
    }

    /// Start a best-effort unmount over a registry.
    pub fn new(vms: Vec<Vm>, base: String) -> (r: Self)
        ensures
            r.wf(),
            r.vms@ == vms@,
            r.base@ == base@,
            r.idx == 0,
            r.results@.len() == 0,
            vms@.len() > 0 ==> r.probing,
    {
        let probing = vms.len() > 0;
        UnmountBatch { vms, base, idx: 0, probing, current: None, results: Vec::new() }
    }

    /// Whether every VM has been handled.
    pub fn is_complete(&self) -> (r: bool)
        requires
            self.wf(),
        ensures
            r == (self.idx == self.vms@.len()),
    {
        self.idx == self.vms.len()
    }

    /// What the driver must do next for the current VM.
    pub fn current_request(&self) -> (r: UnmountStepRequest)
        requires
            self.wf(),
            self.idx < self.vms@.len(),
        ensures
            self.probing ==> (r matches UnmountStepRequest::ProbeMounted(p) && p@
                == self.vms@[self.idx as int].mount_point_spec(self.base@)),
            self.current is Some && self.current->0.phase is Graceful ==> (r
                matches UnmountStepRequest::RunUnmount(c) && is_unmount_cmd(
                c,
                self.vms@[self.idx as int].mount_point_spec(self.base@),
                false,
            )),
            self.current is Some && self.current->0.phase is Forced ==> (r
                matches UnmountStepRequest::RunUnmount(c) && is_unmount_cmd(
                c,
                self.vms@[self.idx as int].mount_point_spec(self.base@),
                true,
            )),
    {
        if self.probing {
            let p = self.vms[self.idx].mount_point(self.base.as_str());
            UnmountStepRequest::ProbeMounted(p)
        } else {
            match &self.current {
                Some(s) => {
                    match s.current_request() {
                        UnmountRequest::RunUnmount(c) => UnmountStepRequest::RunUnmount(c),
                        UnmountRequest::Finished(_) => UnmountStepRequest::ProbeMounted(
                            String::new(),
                        ),
                    }
                },
                None => UnmountStepRequest::ProbeMounted(String::new()),
            }
        }
    }

    /// Record the current VM's outcome and move to the next.
    fn finish_current(&mut self, outcome: UnmountVmOutcome)
        requires
            old(self).results@.len() == old(self).idx,
            old(self).idx < old(self).vms@.len(),
            forall|i: int| 0 <= i < old(self).idx ==> old(self).results@[i].alias@ == old(
                self,
            ).vms@[i].alias@,
        ensures
            final(self).wf(),
            old(self).same_setup(*final(self)),
            old(self).advanced(*final(self), outcome),
            final(self).current is None,
            final(self).idx < final(self).vms@.len() ==> final(self).probing,
    {
        let n = self.vms.len();
        let alias = self.vms[self.idx].alias.clone();
        self.results.push(UnmountResult { alias, outcome });
        self.idx += 1;
        self.current = None;
        self.probing = self.idx < n;
        proof {
            assert(self.results@.drop_last() =~= old(self).results@);
        }
    }

    /// Record whether the current VM's mount point is mounted: one that is
    /// not is recorded as such and the batch moves on; a mounted one starts
    /// its unmount, gracefully first.
    pub fn on_probe_result(&mut self, mounted: bool)
        requires
            old(self).wf(),
            old(self).probing,
        ensures
            final(self).wf(),
            old(self).same_setup(*final(self)),
            !mounted ==> old(self).advanced(*final(self), UnmountVmOutcome::NotMounted),
            mounted ==> final(self).idx == old(self).idx && final(self).results@ == old(
                self,
            ).results@ && final(self).current is Some && final(self).current->0.phase is Graceful,
    {
        if mounted {
            let p = self.vms[self.idx].mount_point(self.base.as_str());
            self.probing = false;
            self.current = Some(UnmountSession::new(p.as_str()));
        } else {
            self.finish_current(UnmountVmOutcome::NotMounted);
        }
    }

    /// Record an unmount command's exit status for the current VM: a failed
    /// graceful unmount is retried forced; a final outcome is recorded and
    /// the batch moves on either way.
    pub fn on_unmount_result(&mut self, success: bool)
        requires
            old(self).wf(),
            old(self).current is Some,
        ensures
            final(self).wf(),
            old(self).same_setup(*final(self)),
            old(self).current->0.phase is Graceful && success ==> old(self).advanced(
                *final(self),
                UnmountVmOutcome::Unmounted,
            ),
            old(self).current->0.phase is Graceful && !success ==> final(self).idx == old(
                self,
            ).idx && final(self).results@ == old(self).results@ && final(self).current is Some
                && final(self).current->0.phase is Forced,
            old(self).current->0.phase is Forced && success ==> old(self).advanced(
                *final(self),
                UnmountVmOutcome::Unmounted,
            ),
            old(self).current->0.phase is Forced && !success ==> old(self).advanced(
                *final(self),
                UnmountVmOutcome::Failed,
            ),
    {
        let mut outcome: Option<UnmountVmOutcome> = None;
        match &mut self.current {
            Some(s) => {
                s.on_result(success);
                match s.outcome {
                    Some(UnmountOutcome::Unmounted) => {
                        outcome = Some(UnmountVmOutcome::Unmounted);
                    },
                    Some(UnmountOutcome::Failed) => {
                        outcome = Some(UnmountVmOutcome::Failed);
                    },
                    None => {
                    },
                }
            },
            None => {
            },
        }
        match outcome {
            Some(o) => {
                self.finish_current(o);
            },
            None => {
            },
        }
    }

    /// The report so far.
    pub fn results(&self) -> (r: &Vec<UnmountResult>)
        ensures
            r@ == self.results@,
    {
        &self.results
    }
}

/// A complete unmount batch reports one outcome per VM, under the registry's
/// aliases in registry order, however the individual unmounts ended.
pub proof fn lemma_unmount_batch_report_covers_all(b: UnmountBatch)
    requires
        b.wf(),
        b.idx == b.vms@.len(),
    ensures
        b.results@.len() == b.vms@.len(),
        forall|i: int| 0 <= i < b.vms@.len() ==> b.results@[i].alias@ == b.vms@[i].alias@,
{
}

/// However the individual attempts ended, a complete batch's report holds
/// exactly one outcome per VM, under the registry's aliases in registry
/// order: one VM's failure neither stops nor hides the others.
pub proof fn lemma_batch_report_covers_all(b: MountBatch)
    requires
        b.wf(),
        b.idx == b.vms@.len(),
    ensures
        b.results@.len() == b.vms@.len(),
        forall|i: int| 0 <= i < b.vms@.len() ==> b.results@[i].alias@ == b.vms@[i].alias@,
{
}

} // verus!
