//! The configuration registry: connectivity settings and the VM registry,
//! loaded once per invocation and read-only afterwards. Lookup by alias and
//! every default value are pinned by contracts.

use vstd::prelude::*;

use crate::paths::{config_dir_or_default, data_dir_or_default, document_dir_or_tilde,
    home_dir_or_tilde, local_keys_dir};
use crate::text::{concat2, str_eq, strs_view};
use crate::vms::{Provider, Service, SshMethod, Vm, VmCategory};

verus! {

/// General settings.
#[derive(Debug, Clone)]
pub struct GeneralConfig {
    pub verbose: bool,
    pub export_dir: String,
}

/// Connectivity settings for the tunnel.
#[derive(Debug, Clone)]
pub struct VpnConfig {
    /// Tunnel interface name.
    pub interface: String,
    /// Default tunnel mode.
    pub default_mode: VpnMode,
    /// Path of the tunnel's configuration artifact.
    pub config_path: String,
}

/// Tunnel mode: split routes only overlay traffic through the tunnel, full
/// routes everything.
#[derive(Debug, Clone, Copy, PartialEq, Eq, Structural)]
pub enum VpnMode {
    Split,
    Full,
}

impl Default for VpnMode {
    /// The default tunnel mode is split.
    fn default() -> (r: Self)
        ensures
            r is Split,
    {
        VpnMode::Split
    }
}

/// Settings for the remote filesystem mounts.
#[derive(Debug, Clone)]
pub struct MountConfig {
    /// Base directory under which each VM's mount point lives.
    pub base_path: String,
    /// Reconnect on failure.
    pub reconnect: bool,
    /// Keep-alive interval in seconds.
    pub server_alive_interval: u32,
}

/// Settings for the sandbox environment.
#[derive(Debug, Clone)]
pub struct SandboxConfig {
    /// Container image to use as base.
    pub base_image: String,
    /// Name prefix for sandbox containers.
    pub container_prefix: String,
    /// Directory to store sandbox data.
    pub data_dir: String,
    /// Volumes to mount inside the container.
    pub volumes: Vec<VolumeMount>,
    /// Environment variables to set.
    pub env_vars: Vec<EnvVar>,
    /// Bring the tunnel up inside the container automatically.
    pub auto_vpn: bool,
    /// Mount the drives inside the container automatically.
    pub auto_mount: bool,
}

/// A volume mounted into the sandbox container.
#[derive(Debug, Clone)]
pub struct VolumeMount {
    pub host_path: String,
    pub container_path: String,
    pub readonly: bool,
}

/// An environment variable set in the sandbox container.
#[derive(Debug, Clone)]
pub struct EnvVar {
    pub name: String,
    pub value: String,
}

/// Settings for application installation.
#[derive(Debug, Clone)]
pub struct AppsConfig {
    pub package_manager: String,
    pub aur_helper: String,
    pub apps: AppsList,
}

/// The applications to install, by category.
#[derive(Debug, Clone)]
pub struct AppsList {
    pub terminal: Vec<String>,
    pub browser: Vec<String>,
    pub notes: Vec<String>,
    pub ide: Vec<String>,
    pub utils: Vec<String>,
}

/// Append clones of every string of `src` to `dst`, in order.
fn push_all(dst: &mut Vec<String>, src: &Vec<String>)
    ensures
        strs_view(final(dst)@) == strs_view(old(dst)@) + strs_view(src@),
{
    let mut j: usize = 0;
    proof {
        assert(strs_view(dst@) =~~= strs_view(dst@) + strs_view(src@).take(0));
    }
    while j < src.len()
        invariant
            j <= src@.len(),
            strs_view(dst@) == strs_view(old(dst)@) + strs_view(src@).take(j as int),
        decreases src@.len() - j,
    {
        let ghost prev = dst@;
        dst.push(src[j].clone());
        proof {
            assert(strs_view(dst@) =~~= strs_view(prev).push(src@[j as int]@));
            assert(strs_view(src@).take(j + 1) =~= strs_view(src@).take(j as int).push(
                strs_view(src@)[j as int],
            ));
            assert(strs_view(src@)[j as int] == src@[j as int]@);
            assert(strs_view(dst@) =~~= strs_view(old(dst)@) + strs_view(src@).take(j + 1));
        }
        j += 1;
    }
    proof {
        assert(strs_view(src@).take(src@.len() as int) =~= strs_view(src@));
        assert(strs_view(dst@) =~~= strs_view(old(dst)@) + strs_view(src@));
    }
}

impl AppsList {
    /// Every configured package, category by category, each category in its
    /// configured order.
    pub fn all_packages(&self) -> (r: Vec<String>)
        ensures
            strs_view(r@) == strs_view(self.terminal@) + strs_view(self.browser@) + strs_view(
                self.notes@,
            ) + strs_view(self.ide@) + strs_view(self.utils@),
    {
        let mut all: Vec<String> = Vec::new();
        push_all(&mut all, &self.terminal);
        push_all(&mut all, &self.browser);
        push_all(&mut all, &self.notes);
        push_all(&mut all, &self.ide);
        push_all(&mut all, &self.utils);
        proof {
            assert(strs_view(all@) =~~= strs_view(self.terminal@) + strs_view(self.browser@)
                + strs_view(self.notes@) + strs_view(self.ide@) + strs_view(self.utils@));
        }
        all
    }
}

impl Default for AppsList {
    /// An empty list in every category.
    fn default() -> (r: Self)
        ensures
            r.terminal@.len() == 0,
            r.browser@.len() == 0,
            r.notes@.len() == 0,
            r.ide@.len() == 0,
            r.utils@.len() == 0,
    {
        AppsList {
            terminal: Vec::new(),
            browser: Vec::new(),
            notes: Vec::new(),
            ide: Vec::new(),
            utils: Vec::new(),
        }
    }
}

/// Settings for configuration deployment.
#[derive(Debug, Clone)]
pub struct ConfigsConfig {
    pub source: String,
    pub targets: Vec<String>,
}

/// The whole configuration document.
#[derive(Debug, Clone)]
pub struct Config {
    pub general: GeneralConfig,
    pub vpn: VpnConfig,
    pub mount: MountConfig,
    pub sandbox: SandboxConfig,
    pub apps: AppsConfig,
    pub configs: ConfigsConfig,
    pub vms: Vec<Vm>,
}

/// The default tunnel interface name.
pub fn default_wg_interface() -> (r: String)
    ensures
        r@ == "wg0"@,
{
    String::from_str("wg0")
}

/// The default path of the tunnel's configuration artifact.
pub fn default_wg_config() -> (r: String)
    ensures
        r@ == "/etc/wireguard/wg0.conf"@,
{
    String::from_str("/etc/wireguard/wg0.conf")
}

/// The default keep-alive interval in seconds.
pub fn default_alive_interval() -> (r: u32)
    ensures
        r == 15,
{
    15
}

/// The default of flags that are on unless configured off.
pub fn default_true() -> (r: bool)
    ensures
        r == true,
{
    true
}

/// The default sandbox base image.
pub fn default_sandbox_image() -> (r: String)
    ensures
        r@ == "archlinux:latest"@,
{
    String::from_str("archlinux:latest")
}

/// The default sandbox container name prefix.
pub fn default_sandbox_prefix() -> (r: String)
    ensures
        r@ == "cloud-sandbox"@,
{
    String::from_str("cloud-sandbox")
}

/// The default package manager.
pub fn default_pkg_manager() -> (r: String)
    ensures
        r@ == "pacman"@,
{
    String::from_str("pacman")
}

/// The default helper for user-repository packages.
pub fn default_aur_helper() -> (r: String)
    ensures
        r@ == "yay"@,
{
    String::from_str("yay")
}

/// The default configuration deployment targets.
pub fn default_targets() -> (r: Vec<String>)
    ensures
        strs_view(r@) == seq!["linux"@, "browser"@, "ide"@, "git"@],
{
    let mut v: Vec<String> = Vec::new();
    v.push(String::from_str("linux"));
    v.push(String::from_str("browser"));
    v.push(String::from_str("ide"));
    v.push(String::from_str("git"));
    proof {
        assert(strs_view(v@) =~~= seq!["linux"@, "browser"@, "ide"@, "git"@]);
    }
    v
}

/// The default export directory, under the documents directory.
pub fn default_export_dir() -> (r: String)
    ensures
        exists|h: Seq<char>| r@ == h + "/exports/cloud"@,
{
    let base = document_dir_or_tilde();
    let r = concat2(base.as_str(), "/exports/cloud");
    proof {
        assert(r@ == base@ + "/exports/cloud"@);
    }
    r
}

/// The default mount base directory, under the home directory.
pub fn default_mount_base() -> (r: String)
    ensures
        exists|h: Seq<char>| r@ == h + "/mnt/cloud"@,
{
    let base = home_dir_or_tilde();
    let r = concat2(base.as_str(), "/mnt/cloud");
    proof {
        assert(r@ == base@ + "/mnt/cloud"@);
    }
    r
}

/// The default sandbox data directory, under the data directory.
pub fn default_sandbox_data() -> (r: String)
    ensures
        exists|h: Seq<char>| r@ == h + "/cloud/sandbox"@,
{
    let base = data_dir_or_default();
    let r = concat2(base.as_str(), "/cloud/sandbox");
    proof {
        assert(r@ == base@ + "/cloud/sandbox"@);
    }
    r
}

/// The default source of configuration files to deploy.
pub fn default_configs_source() -> (r: String)
    ensures
        exists|h: Seq<char>| r@ == h + "/configs"@,
{
    let base = local_keys_dir();
    let r = concat2(base.as_str(), "/configs");
    proof {
        assert(r@ == base@ + "/configs"@);
    }
    r
}

/// The default VM registry: the four machines the tool was set up with, each
/// field pinned.
pub open spec fn is_default_vms(vms: Seq<Vm>) -> bool {
    &&& vms.len() == 4
    &&& vms[0].name@ == "GCP Hub"@
    &&& vms[0].alias@ == "gcp"@
    &&& vms[0].provider is GCP
    &&& vms[0].public_ip@ == "34.55.55.234"@
    &&& vms[0].wg_ip is Some && vms[0].wg_ip->0@ == "10.0.0.1"@
    &&& vms[0].ssh_user@ == "diego"@
    &&& vms[0].ssh_key@ == "~/.ssh/google_compute_engine"@
    &&& vms[0].ssh_method is Gcloud
    &&& vms[0].remote_path@ == "/home/diego"@
    &&& vms[0].services@.len() == 0
    &&& vms[0].category is Free24x7
    &&& vms[1].name@ == "Oracle Dev"@
    &&& vms[1].alias@ == "dev"@
    &&& vms[1].provider is OCI
    &&& vms[1].public_ip@ == "84.235.234.87"@
    &&& vms[1].wg_ip is Some && vms[1].wg_ip->0@ == "10.0.0.2"@
    &&& vms[1].ssh_user@ == "ubuntu"@
    &&& vms[1].ssh_key@ == "~/.ssh/id_rsa"@
    &&& vms[1].ssh_method is Direct
    &&& vms[1].remote_path@ == "/home/ubuntu"@
    &&& vms[1].services@.len() == 0
    &&& vms[1].category is WakeOnDemand
    &&& vms[2].name@ == "Oracle Web"@
    &&& vms[2].alias@ == "web"@
    &&& vms[2].provider is OCI
    &&& vms[2].public_ip@ == "130.110.251.193"@
    &&& vms[2].wg_ip is Some && vms[2].wg_ip->0@ == "10.0.0.3"@
    &&& vms[2].ssh_user@ == "ubuntu"@
    &&& vms[2].ssh_key@ == "~/.ssh/id_rsa"@
    &&& vms[2].ssh_method is Direct
    &&& vms[2].remote_path@ == "/home/ubuntu"@
    &&& vms[2].services@.len() == 0
    &&& vms[2].category is Free24x7
    &&& vms[3].name@ == "Oracle Services"@
    &&& vms[3].alias@ == "services"@
    &&& vms[3].provider is OCI
    &&& vms[3].public_ip@ == "129.151.228.66"@
    &&& vms[3].wg_ip is Some && vms[3].wg_ip->0@ == "10.0.0.4"@
    &&& vms[3].ssh_user@ == "ubuntu"@
    &&& vms[3].ssh_key@ == "~/.ssh/id_rsa"@
    &&& vms[3].ssh_method is Direct
    &&& vms[3].remote_path@ == "/home/ubuntu"@
    &&& vms[3].services@.len() == 0
    &&& vms[3].category is Free24x7
}

/// The default VM registry.
pub fn default_vms() -> (r: Vec<Vm>)
    ensures
        is_default_vms(r@),
{
    let mut v: Vec<Vm> = Vec::new();
    v.push(Vm {
        name: String::from_str("GCP Hub"),
        alias: String::from_str("gcp"),
        provider: Provider::GCP,
        public_ip: String::from_str("34.55.55.234"),
        wg_ip: Some(String::from_str("10.0.0.1")),
        ssh_user: String::from_str("diego"),
        ssh_key: String::from_str("~/.ssh/google_compute_engine"),
        ssh_method: SshMethod::Gcloud,
        remote_path: String::from_str("/home/diego"),
        services: Vec::new(),
        category: VmCategory::Free24x7,
    });
    v.push(Vm {
        name: String::from_str("Oracle Dev"),
        alias: String::from_str("dev"),
        provider: Provider::OCI,
        public_ip: String::from_str("84.235.234.87"),
        wg_ip: Some(String::from_str("10.0.0.2")),
        ssh_user: String::from_str("ubuntu"),
        ssh_key: String::from_str("~/.ssh/id_rsa"),
        ssh_method: SshMethod::Direct,
        remote_path: String::from_str("/home/ubuntu"),
        services: Vec::new(),
        category: VmCategory::WakeOnDemand,
    });
    v.push(Vm {
        name: String::from_str("Oracle Web"),
        alias: String::from_str("web"),
        provider: Provider::OCI,
        public_ip: String::from_str("130.110.251.193"),
        wg_ip: Some(String::from_str("10.0.0.3")),
        ssh_user: String::from_str("ubuntu"),
        ssh_key: String::from_str("~/.ssh/id_rsa"),
        ssh_method: SshMethod::Direct,
        remote_path: String::from_str("/home/ubuntu"),
        services: Vec::new(),
        category: VmCategory::Free24x7,
    });
    v.push(Vm {
        name: String::from_str("Oracle Services"),
        alias: String::from_str("services"),
        provider: Provider::OCI,
        public_ip: String::from_str("129.151.228.66"),
        wg_ip: Some(String::from_str("10.0.0.4")),
        ssh_user: String::from_str("ubuntu"),
        ssh_key: String::from_str("~/.ssh/id_rsa"),
        ssh_method: SshMethod::Direct,
        remote_path: String::from_str("/home/ubuntu"),
        services: Vec::new(),
        category: VmCategory::Free24x7,
    });
    v
}

/// Look up the first VM of a given alias.
pub open spec fn find_vm(vms: Seq<Vm>, alias: Seq<char>) -> Option<Vm>
    decreases vms.len(),
{
    if vms.len() == 0 {
        None
    } else if vms[0].alias@ == alias {
        Some(vms[0])
    } else {
        find_vm(vms.drop_first(), alias)
    }
}

/// The registry's invariant: each alias names at most one VM.
pub open spec fn aliases_unique(vms: Seq<Vm>) -> bool {
    forall|i: int, j: int|
        0 <= i < j < vms.len() ==> (#[trigger] vms[i].alias@) != (#[trigger] vms[j].alias@)
}

/// The stock registry satisfies the uniqueness invariant: its four aliases
/// are pairwise distinct.
pub proof fn lemma_default_vms_unique(vms: Seq<Vm>)
    requires
        is_default_vms(vms),
    ensures
        aliases_unique(vms),
{
    reveal_strlit("gcp");
    reveal_strlit("dev");
    reveal_strlit("web");
    reveal_strlit("services");
    assert("gcp"@[0] == 'g' && "dev"@[0] == 'd' && "web"@[0] == 'w');
    assert("gcp"@.len() == 3 && "dev"@.len() == 3 && "web"@.len() == 3 && "services"@.len() == 8);
    assert forall|i: int, j: int| 0 <= i < j < vms.len() implies (#[trigger] vms[i].alias@) != (
    #[trigger] vms[j].alias@) by {
        assert("gcp"@ != "dev"@ && "gcp"@ != "web"@ && "gcp"@ != "services"@ && "dev"@ != "web"@
            && "dev"@ != "services"@ && "web"@ != "services"@);
    }
}

/// Under the registry invariant the lookup's answer is the answer: the VM
/// found for an alias is the one VM carrying it, at a single position.
pub proof fn lemma_find_vm_unique(vms: Seq<Vm>, alias: Seq<char>)
    requires
        aliases_unique(vms),
    ensures
        match find_vm(vms, alias) {
            Some(vm) => forall|i: int|
                0 <= i < vms.len() && (#[trigger] vms[i].alias@) == alias ==> vms[i] == vm,
            None => forall|i: int| 0 <= i < vms.len() ==> vms[i].alias@ != alias,
        },
    decreases vms.len(),
{
    if vms.len() > 0 {
        let d = vms.drop_first();
        assert forall|i: int, j: int| 0 <= i < j < d.len() implies (#[trigger] d[i].alias@) != (
        #[trigger] d[j].alias@) by {
            assert(d[i] == vms[i + 1]);
            assert(d[j] == vms[j + 1]);
        }
        lemma_find_vm_unique(d, alias);
        if vms[0].alias@ == alias {
            assert forall|i: int|
                0 <= i < vms.len() && (#[trigger] vms[i].alias@) == alias implies vms[i] == vms[0]
            by {
                if i > 0 {
                    assert(vms[0].alias@ != vms[i].alias@);
                }
            }
        } else {
            match find_vm(d, alias) {
                Some(vm) => {
                    assert forall|i: int|
                        0 <= i < vms.len() && (#[trigger] vms[i].alias@) == alias implies vms[i]
                        == vm by {
                        assert(i > 0);
                        assert(d[i - 1] == vms[i]);
                    }
                },
                None => {
                    assert forall|i: int| 0 <= i < vms.len() implies vms[i].alias@ != alias by {
                        if i > 0 {
                            assert(d[i - 1] == vms[i]);
                        }
                    }
                },
            }
        }
    }
}

pub proof fn lemma_find_vm_props(vms: Seq<Vm>, alias: Seq<char>)
    ensures
        match find_vm(vms, alias) {
            Some(vm) => vm.alias@ == alias && exists|i: int|
                0 <= i < vms.len() && vms[i] == vm,
            None => forall|i: int| 0 <= i < vms.len() ==> vms[i].alias@ != alias,
        },
    decreases vms.len(),
{
    if vms.len() > 0 && vms[0].alias@ != alias {
        lemma_find_vm_props(vms.drop_first(), alias);
        match find_vm(vms.drop_first(), alias) {
            Some(vm) => {
                let i = choose|i: int|
                    0 <= i < vms.drop_first().len() && vms.drop_first()[i] == vm;
                assert(vms[i + 1] == vm);
            },
            None => {
                assert forall|i: int| 0 <= i < vms.len() implies vms[i].alias@ != alias by {
                    if i > 0 {
                        assert(vms.drop_first()[i - 1] == vms[i]);
                    }
                }
            },
        }
    } else if vms.len() > 0 {
        assert(vms[0] == vms[0]);
    }
}

proof fn lemma_find_vm_skip(vms: Seq<Vm>, alias: Seq<char>, i: int)
    requires
        0 <= i <= vms.len(),
        forall|k: int| 0 <= k < i ==> vms[k].alias@ != alias,
    ensures
        find_vm(vms, alias) == find_vm(vms.skip(i), alias),
    decreases i,
{
    if i == 0 {
        assert(vms.skip(0) =~= vms);
    } else {
        let d = vms.drop_first();
        assert forall|k: int| 0 <= k < i - 1 implies d[k].alias@ != alias by {
            assert(d[k] == vms[k + 1]);
        }
        lemma_find_vm_skip(d, alias, i - 1);
        assert(d.skip(i - 1) =~= vms.skip(i));
    }
}

impl Config {
    /// The configuration document's conventional place, under the
    /// environment's configuration directory.
    pub fn default_config_path() -> (r: String)
        ensures
            exists|h: Seq<char>| r@ == h + "/cloud/config.toml"@,
    {
        let base = config_dir_or_default();
        let r = concat2(base.as_str(), "/cloud/config.toml");
        proof {
            assert(r@ == base@ + "/cloud/config.toml"@);
        }
        r
    }

    /// Look up a VM by its alias; the first match when aliases repeat.
    pub fn get_vm(&self, alias: &str) -> (r: Option<&Vm>)
        ensures
            match r {
                Some(vm) => find_vm(self.vms@, alias@) == Some(*vm),
                None => find_vm(self.vms@, alias@) is None,
            },
    {
        let mut i: usize = 0;
        while i < self.vms.len()
            invariant
                i <= self.vms@.len(),
                forall|k: int| 0 <= k < i ==> self.vms@[k].alias@ != alias@,
            decreases self.vms@.len() - i,
        {
            if str_eq(self.vms[i].alias.as_str(), alias) {
                proof {
                    lemma_find_vm_skip(self.vms@, alias@, i as int);
                    assert(self.vms@.skip(i as int)[0] == self.vms@[i as int]);
                }
                return Some(&self.vms[i]);
            }
            i += 1;
        }
        proof {
            lemma_find_vm_skip(self.vms@, alias@, i as int);
            assert(self.vms@.skip(i as int) =~= Seq::<Vm>::empty());
        }
        None
    }

    /// All registered VMs, in registry order.
    pub fn all_vms(&self) -> (r: &Vec<Vm>)
        ensures
            r@ == self.vms@,
    {
        &self.vms
    }
}

impl Default for Config {
    /// The configuration used when no document exists on disk: well-known
    /// tunnel interface and artifact path, mount base under the home
    /// directory, the stock sandbox and application settings, and the
    /// default VM registry.
    fn default() -> (r: Self)
        ensures
            r.general.verbose == false,
            exists|h: Seq<char>| r.general.export_dir@ == h + "/exports/cloud"@,
            r.vpn.interface@ == "wg0"@,
            r.vpn.default_mode is Split,
            r.vpn.config_path@ == "/etc/wireguard/wg0.conf"@,
            exists|h: Seq<char>| r.mount.base_path@ == h + "/mnt/cloud"@,
            r.mount.reconnect == true,
            r.mount.server_alive_interval == 15,
            r.sandbox.base_image@ == "archlinux:latest"@,
            r.sandbox.container_prefix@ == "cloud-sandbox"@,
            exists|h: Seq<char>| r.sandbox.data_dir@ == h + "/cloud/sandbox"@,
            r.sandbox.volumes@.len() == 0,
            r.sandbox.env_vars@.len() == 0,
            r.sandbox.auto_vpn == true,
            r.sandbox.auto_mount == true,
            r.apps.package_manager@ == "pacman"@,
            r.apps.aur_helper@ == "yay"@,
            strs_view(r.apps.apps.terminal@) == seq!["fish"@, "kitty"@],
            strs_view(r.apps.apps.browser@) == seq!["brave-bin"@],
            strs_view(r.apps.apps.notes@) == seq!["obsidian"@],
            strs_view(r.apps.apps.ide@) == seq!["code"@],
            strs_view(r.apps.apps.utils@) == seq!["htop"@, "ripgrep"@, "fd"@],
            exists|h: Seq<char>| r.configs.source@ == h + "/configs"@,
            strs_view(r.configs.targets@) == seq!["linux"@, "browser"@, "ide"@, "git"@],
            is_default_vms(r.vms@),
    {
        let mut terminal: Vec<String> = Vec::new();
        terminal.push(String::from_str("fish"));
        terminal.push(String::from_str("kitty"));
        let mut browser: Vec<String> = Vec::new();
        browser.push(String::from_str("brave-bin"));
        let mut notes: Vec<String> = Vec::new();
        notes.push(String::from_str("obsidian"));
        let mut ide: Vec<String> = Vec::new();
        ide.push(String::from_str("code"));
        let mut utils: Vec<String> = Vec::new();
        utils.push(String::from_str("htop"));
        utils.push(String::from_str("ripgrep"));
        utils.push(String::from_str("fd"));
        proof {
            assert(strs_view(terminal@) =~~= seq!["fish"@, "kitty"@]);
            assert(strs_view(browser@) =~~= seq!["brave-bin"@]);
            assert(strs_view(notes@) =~~= seq!["obsidian"@]);
            assert(strs_view(ide@) =~~= seq!["code"@]);
            assert(strs_view(utils@) =~~= seq!["htop"@, "ripgrep"@, "fd"@]);
        }
        Config {
            general: GeneralConfig { verbose: false, export_dir: default_export_dir() },
            vpn: VpnConfig {
                interface: default_wg_interface(),
                default_mode: VpnMode::Split,
                config_path: default_wg_config(),
            },
            mount: MountConfig {
                base_path: default_mount_base(),
                reconnect: true,
                server_alive_interval: 15,
            },
            sandbox: SandboxConfig {
                base_image: default_sandbox_image(),
                container_prefix: default_sandbox_prefix(),
                data_dir: default_sandbox_data(),
                volumes: Vec::new(),
                env_vars: Vec::new(),
                auto_vpn: true,
                auto_mount: true,
            },
            apps: AppsConfig {
                package_manager: default_pkg_manager(),
                aur_helper: default_aur_helper(),
                apps: AppsList { terminal, browser, notes, ide, utils },
            },
            configs: ConfigsConfig {
                source: default_configs_source(),
                targets: default_targets(),
            },
            vms: default_vms(),
        }
    }
}

} // verus!
