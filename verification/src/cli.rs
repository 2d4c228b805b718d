//! The command surface, as plain data. Argument parsing itself lives outside
//! the library; these types carry a parsed invocation into it.

use vstd::prelude::*;

verus! {

/// The setup command.
#[derive(Debug, Clone)]
pub struct SetupCommand {
    pub command: SetupSubcommand,
}

/// The setup areas.
#[derive(Debug, Clone)]
pub enum SetupSubcommand {
    /// Sandbox environment management.
    Sandbox { action: SandboxAction },
    /// Application installation.
    Apps { action: AppsAction },
    /// Configuration deployment.
    Configs { action: ConfigsAction },
    /// Bootable image management.
    Usb { action: UsbAction },
    /// Run the complete setup.
    All { yes: bool },
    /// Run all setup checks.
    Check,
}

/// Sandbox operations.
#[derive(Debug, Clone)]
pub enum SandboxAction {
    /// Create a new sandbox.
    Create { name: String, sandbox_type: SandboxType },
    /// List existing sandboxes.
    List,
    /// Enter a sandbox.
    Enter { name: String },
    /// Destroy a sandbox.
    Destroy { name: String, force: bool },
}

/// The sandbox technology.
#[derive(Debug, Clone, Copy, PartialEq, Eq, Structural)]
pub enum SandboxType {
    Docker,
    Systemd,
    Flatpak,
}

/// Application operations.
#[derive(Debug, Clone)]
pub enum AppsAction {
    /// Install one application, or all when none is named.
    Install { app: Option<String> },
    /// List the available applications.
    List,
    /// Check what is installed.
    Check,
}

/// Configuration deployment operations.
#[derive(Debug, Clone)]
pub enum ConfigsAction {
    /// Apply one target's configuration, or all when none is named.
    Apply { target: Option<String> },
    /// Pull the latest configuration from the source.
    Pull,
    /// Show configuration differences.
    Diff,
    /// Back up the current configuration.
    Backup,
}

/// Bootable image operations.
#[derive(Debug, Clone)]
pub enum UsbAction {
    /// Create a bootable device.
    Create { device: String, iso: Option<String>, persist: bool, persist_size: u32, yes: bool },
    /// List the removable devices.
    List,
    /// Download the latest image.
    Download { output: Option<String> },
    /// Verify an image's checksum.
    Verify { iso: String },
}

/// The connectivity command.
#[derive(Debug, Clone)]
pub struct ConnectCommand {
    pub command: ConnectSubcommand,
}

/// The connectivity areas.
#[derive(Debug, Clone)]
pub enum ConnectSubcommand {
    /// Tunnel management.
    Vpn { action: VpnAction },
    /// Shell sessions.
    Ssh { action: SshAction },
    /// Remote mount management.
    Mount { action: MountAction },
    /// Bring the tunnel up and mount everything.
    Up,
    /// Unmount everything and tear the tunnel down.
    Down,
    /// Show the connection status.
    Status,
}

/// Tunnel operations.
#[derive(Debug, Clone, Copy, PartialEq, Eq, Structural)]
pub enum VpnAction {
    /// Bring the tunnel up.
    Up,
    /// Tear the tunnel down.
    Down,
    /// Show the tunnel status.
    Status,
    /// Toggle between split and full tunnel.
    Toggle,
    /// Split tunnel: only overlay traffic.
    Split,
    /// Full tunnel: all traffic.
    Full,
    /// Check the tunnel prerequisites.
    Setup,
}

/// Shell operations.
#[derive(Debug, Clone)]
pub enum SshAction {
    /// Open a session to a VM.
    Connect { vm: String },
    /// List the available VMs.
    List,
}

/// Mount operations.
#[derive(Debug, Clone)]
pub enum MountAction {
    /// Mount one VM, or all when none is named; optionally force the public
    /// address.
    Up { vm: Option<String>, public: bool },
    /// Unmount one VM, or all when none is named.
    Down { vm: Option<String> },
    /// Show the mount status.
    Status,
}

/// The status command.
#[derive(Debug, Clone)]
pub struct StatusCommand {
    pub command: StatusSubcommand,
}

/// The status areas.
#[derive(Debug, Clone)]
pub enum StatusSubcommand {
    /// Health checks.
    Health { category: Option<String>, watch: bool, interval: u64 },
    /// Network topology.
    Topology { format: TopologyFormat },
    /// Endpoint registry.
    Endpoints { service: Option<String>, check: bool },
    /// VM status.
    Vms { vm: Option<String> },
}

/// How the topology is rendered.
#[derive(Debug, Clone, Copy, PartialEq, Eq, Structural)]
pub enum TopologyFormat {
    Ascii,
    Json,
    Svg,
    Mermaid,
}

/// The export command.
#[derive(Debug, Clone)]
pub struct ExportCommand {
    pub command: ExportSubcommand,
}

/// The export areas.
#[derive(Debug, Clone)]
pub enum ExportSubcommand {
    /// Export everything.
    All { output: Option<String> },
    /// Export the topology.
    Topology { format: ExportFormat, output: Option<String> },
    /// Export the health report.
    Health { format: ExportFormat, output: Option<String> },
    /// Export the endpoints.
    Endpoints { format: ExportFormat, output: Option<String> },
    /// Export the full inventory.
    Inventory { output: Option<String> },
}

/// The export file formats.
#[derive(Debug, Clone, Copy, PartialEq, Eq, Structural)]
pub enum ExportFormat {
    Json,
    Md,
    Both,
}

} // verus!
