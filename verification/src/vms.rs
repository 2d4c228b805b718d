//! The machine registry's records: a VM reachable for mounting and shell
//! access, and the services it runs.

use vstd::prelude::*;

verus! {

/// Cloud provider tag.
#[derive(Debug, Clone, Copy, PartialEq, Eq, Structural)]
pub enum Provider {
    GCP,
    OCI,
    AWS,
    Azure,
    Hetzner,
}

impl Provider {
    /// The display text of the tag.
    pub open spec fn label_spec(self) -> Seq<char> {
        match self {
            Provider::GCP => "GCP"@,
            Provider::OCI => "OCI"@,
            Provider::AWS => "AWS"@,
            Provider::Azure => "Azure"@,
            Provider::Hetzner => "Hetzner"@,
        }
    }

    /// Render the tag for display.
    pub fn label(&self) -> (r: String)
        ensures
            r@ == self.label_spec(),
    {
        match self {
            Provider::GCP => String::from_str("GCP"),
            Provider::OCI => String::from_str("OCI"),
            Provider::AWS => String::from_str("AWS"),
            Provider::Azure => String::from_str("Azure"),
            Provider::Hetzner => String::from_str("Hetzner"),
        }
    }
}

/// How a shell session to the VM is opened.
#[derive(Debug, Clone, Copy, PartialEq, Eq, Structural)]
pub enum SshMethod {
    /// Through the cloud provider's compute helper.
    Gcloud,
    /// Through a direct socket connection.
    Direct,
}

impl SshMethod {
    /// The display text of the method.
    pub open spec fn label_spec(self) -> Seq<char> {
        match self {
            SshMethod::Gcloud => "Gcloud"@,
            SshMethod::Direct => "Direct"@,
        }
    }

    /// Render the method for display.
    pub fn label(&self) -> (r: String)
        ensures
            r@ == self.label_spec(),
    {
        match self {
            SshMethod::Gcloud => String::from_str("Gcloud"),
            SshMethod::Direct => String::from_str("Direct"),
        }
    }
}

/// Availability category of a VM.
#[derive(Debug, Clone, Copy, PartialEq, Eq, Structural)]
pub enum VmCategory {
    /// Always running, free tier.
    Free24x7,
    /// Always running, paid.
    Paid,
    /// Wake on demand.
    WakeOnDemand,
}

impl VmCategory {
    /// The display text of the category.
    pub open spec fn label_spec(self) -> Seq<char> {
        match self {
            VmCategory::Free24x7 => "Free (24/7)"@,
            VmCategory::Paid => "Paid"@,
            VmCategory::WakeOnDemand => "Wake-on-Demand"@,
        }
    }

    /// Render the category for display.
    pub fn label(&self) -> (r: String)
        ensures
            r@ == self.label_spec(),
    {
        match self {
            VmCategory::Free24x7 => String::from_str("Free (24/7)"),
            VmCategory::Paid => String::from_str("Paid"),
            VmCategory::WakeOnDemand => String::from_str("Wake-on-Demand"),
        }
    }
}

/// Probed state of a service; stale and unknown unless freshly probed.
#[derive(Debug, Clone, Copy, PartialEq, Eq, Structural)]
pub enum ServiceStatus {
    Running,
    Stopped,
    Unknown,
}

impl Default for ServiceStatus {
    /// An unprobed service counts as unknown.
    fn default() -> (r: Self)
        ensures
            r is Unknown,
    {
        ServiceStatus::Unknown
    }
}

impl ServiceStatus {
    /// The display text of the status.
    pub open spec fn label_spec(self) -> Seq<char> {
        match self {
            ServiceStatus::Running => "Running"@,
            ServiceStatus::Stopped => "Stopped"@,
            ServiceStatus::Unknown => "Unknown"@,
        }
    }

    /// Render the status for display.
    pub fn label(&self) -> (r: String)
        ensures
            r@ == self.label_spec(),
    {
        match self {
            ServiceStatus::Running => String::from_str("Running"),
            ServiceStatus::Stopped => String::from_str("Stopped"),
            ServiceStatus::Unknown => String::from_str("Unknown"),
        }
    }
}

/// Something running on a VM.
#[derive(Debug, Clone)]
pub struct Service {
    /// Service name.
    pub name: String,
    /// Domain, when one is assigned.
    pub domain: Option<String>,
    /// Port number.
    pub port: u16,
    /// Container identifier, when the service runs in one.
    pub container: Option<String>,
    /// Health check endpoint, when one exists.
    pub health_endpoint: Option<String>,
    /// Current status.
    pub status: ServiceStatus,
}

/// A remote machine reachable for mounting and shell access.
#[derive(Debug, Clone)]
pub struct Vm {
    /// Display name.
    pub name: String,
    /// Short alias; the registry's unique lookup key.
    pub alias: String,
    /// Cloud provider.
    pub provider: Provider,
    /// Public network address.
    pub public_ip: String,
    /// Private overlay address, present only when the VM is in the VPN mesh.
    pub wg_ip: Option<String>,
    /// Login user for shell access.
    pub ssh_user: String,
    /// Path to the private key credential.
    pub ssh_key: String,
    /// How a shell session is opened.
    pub ssh_method: SshMethod,
    /// Remote filesystem path to expose.
    pub remote_path: String,
    /// Services running on this VM.
    pub services: Vec<Service>,
    /// Availability category.
    pub category: VmCategory,
}

impl Vm {
    /// The address to reach the VM at: the overlay address whenever the
    /// tunnel is up and one is present, else the public address.
    pub open spec fn preferred_ip_spec(self, vpn_connected: bool) -> Seq<char> {
        if vpn_connected {
            match self.wg_ip {
                Some(ip) => ip@,
                None => self.public_ip@,
            }
        } else {
            self.public_ip@
        }
    }

    /// Select the address to use. With the tunnel up the overlay address is
    /// preferred when present; without it the public address is always used.
    pub fn preferred_ip(&self, vpn_connected: bool) -> (r: &str)
        ensures
            r@ == self.preferred_ip_spec(vpn_connected),
            vpn_connected && self.wg_ip is Some ==> r@ == self.wg_ip->0@,
            vpn_connected && self.wg_ip is None ==> r@ == self.public_ip@,
            !vpn_connected ==> r@ == self.public_ip@,
    {
        if vpn_connected {
            match &self.wg_ip {
                Some(ip) => ip.as_str(),
                None => self.public_ip.as_str(),
            }
        } else {
            self.public_ip.as_str()
        }
    }

    /// The VM's mount point under a base directory.
    pub open spec fn mount_point_spec(self, base: Seq<char>) -> Seq<char> {
        base + "/"@ + self.alias@
    }

    /// Compute the mount point: the alias appended to the base directory.
    pub fn mount_point(&self, base: &str) -> (r: String)
        ensures
            r@ == self.mount_point_spec(base@),
    {
        crate::text::concat3(base, "/", self.alias.as_str())
    }
}

} // verus!
