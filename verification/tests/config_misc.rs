use cloud_connect::cli::{MountAction, VpnAction};
use cloud_connect::config::{default_alive_interval, default_aur_helper, default_pkg_manager,
    default_sandbox_image, default_sandbox_prefix, default_targets, default_true, default_vms,
    default_wg_config, default_wg_interface, Config, VpnMode};
use cloud_connect::connect::mount_status_rows;
use cloud_connect::paths::{configs_dir, expand_tilde_with, ssh_keys_dir, wireguard_keys_dir};
use cloud_connect::setup::{checksum_for, full_container_name, get_partition_path,
    is_aur_package, latest_iso_name, mem_total_field, partition_aur, sandbox_rows,
    usb_device_check, usb_device_rows};
use cloud_connect::ssh::{ssh_connect_plan, ssh_outcome, ssh_target_rows, ConnectError};
use cloud_connect::vms::{Provider, ServiceStatus, SshMethod, VmCategory};

#[test]
fn defaults_are_pinned() {
    assert_eq!(default_wg_interface().as_str(), "wg0");
    assert_eq!(default_wg_config().as_str(), "/etc/wireguard/wg0.conf");
    assert_eq!(default_alive_interval(), 15);
    assert!(default_true());
    assert_eq!(default_sandbox_image().as_str(), "archlinux:latest");
    assert_eq!(default_sandbox_prefix().as_str(), "cloud-sandbox");
    assert_eq!(default_pkg_manager().as_str(), "pacman");
    assert_eq!(default_aur_helper().as_str(), "yay");
    let targets = default_targets();
    assert_eq!(targets, vec!["linux", "browser", "ide", "git"]);
}

#[test]
fn default_registry_holds_four_vms() {
    let vms = default_vms();
    assert_eq!(vms.len(), 4);
    assert_eq!(vms[0].alias.as_str(), "gcp");
    assert_eq!(vms[1].alias.as_str(), "dev");
    assert_eq!(vms[2].alias.as_str(), "web");
    assert_eq!(vms[3].alias.as_str(), "services");
    assert_eq!(vms[0].public_ip.as_str(), "34.55.55.234");
    assert_eq!(vms[0].wg_ip.as_deref(), Some("10.0.0.1"));
    assert!(matches!(vms[0].ssh_method, SshMethod::Gcloud));
    assert!(matches!(vms[1].ssh_method, SshMethod::Direct));
    assert!(matches!(vms[1].category, VmCategory::WakeOnDemand));
}

#[test]
fn default_config_is_pinned() {
    let cfg = Config::default();
    assert_eq!(cfg.vpn.interface.as_str(), "wg0");
    assert_eq!(cfg.vpn.default_mode, VpnMode::Split);
    assert_eq!(cfg.vpn.config_path.as_str(), "/etc/wireguard/wg0.conf");
    assert!(cfg.mount.base_path.ends_with("/mnt/cloud"));
    assert!(cfg.mount.reconnect);
    assert_eq!(cfg.mount.server_alive_interval, 15);
    assert_eq!(cfg.apps.apps.terminal, vec!["fish", "kitty"]);
    assert_eq!(cfg.apps.apps.utils, vec!["htop", "ripgrep", "fd"]);
    assert_eq!(cfg.vms.len(), 4);
}

#[test]
fn get_vm_finds_first_match() {
    let cfg = Config::default();
    let vm = cfg.get_vm("dev").expect("registered alias");
    assert_eq!(vm.name.as_str(), "Oracle Dev");
    assert!(cfg.get_vm("nosuch").is_none());
}

#[test]
fn all_vms_is_the_registry() {
    let cfg = Config::default();
    assert_eq!(cfg.all_vms().len(), 4);
}

#[test]
fn keys_dirs_carry_their_suffixes() {
    assert!(ssh_keys_dir().ends_with("/Documents/Git/LOCAL_KEYS/00_terminal/ssh"));
    assert!(wireguard_keys_dir().ends_with("/Documents/Git/LOCAL_KEYS/00_terminal/wireguard"));
    assert!(configs_dir().ends_with("/Documents/Git/LOCAL_KEYS/configs"));
}

#[test]
fn tilde_expansion() {
    assert_eq!(expand_tilde_with("~", "/home/me").as_str(), "/home/me");
    assert_eq!(expand_tilde_with("~/x/y", "/home/me").as_str(), "/home/me/x/y");
    assert_eq!(expand_tilde_with("/abs/path", "/home/me").as_str(), "/abs/path");
    assert_eq!(expand_tilde_with("~x", "/home/me").as_str(), "~x");
    assert_eq!(expand_tilde_with("", "/home/me").as_str(), "");
}

#[test]
fn ssh_plan_direct() {
    let cfg = Config::default();
    let plan = ssh_connect_plan(&cfg, "dev", true, "/home/me").expect("known alias");
    assert_eq!(plan.ip.as_str(), "10.0.0.2");
    assert!(plan.used_overlay);
    assert_eq!(plan.cmd.program.as_str(), "ssh");
    assert_eq!(
        plan.cmd.args,
        vec![
            "-i".to_string(),
            "/home/me/.ssh/id_rsa".to_string(),
            "-o".to_string(),
            "StrictHostKeyChecking=accept-new".to_string(),
            "ubuntu@10.0.0.2".to_string(),
        ]
    );
}

#[test]
fn ssh_plan_without_vpn_uses_public_ip() {
    let cfg = Config::default();
    let plan = ssh_connect_plan(&cfg, "dev", false, "/home/me").expect("known alias");
    assert_eq!(plan.ip.as_str(), "84.235.234.87");
    assert!(!plan.used_overlay);
}

#[test]
fn ssh_plan_gcloud() {
    let cfg = Config::default();
    let plan = ssh_connect_plan(&cfg, "gcp", false, "/home/me").expect("known alias");
    assert_eq!(plan.cmd.program.as_str(), "gcloud");
    assert_eq!(
        plan.cmd.args,
        vec!["compute", "ssh", "arch-1", "--zone", "us-central1-a"]
    );
}

#[test]
fn ssh_plan_unknown_alias() {
    let cfg = Config::default();
    let err = ssh_connect_plan(&cfg, "nosuch", false, "/home/me").expect_err("unknown alias");
    match &err {
        ConnectError::UnknownVm(a) => assert_eq!(a.as_str(), "nosuch"),
        _ => panic!("expected the unknown-VM error"),
    }
    assert_eq!(err.message().as_str(), "Unknown VM: nosuch");
}

#[test]
fn ssh_outcome_maps_exit_status() {
    assert!(ssh_outcome(true).is_ok());
    let e = ssh_outcome(false).expect_err("failure");
    assert!(matches!(e, ConnectError::SshConnectionFailed));
    assert_eq!(e.message().as_str(), "SSH connection failed");
}

#[test]
fn ssh_rows_show_dash_for_missing_overlay() {
    let mut vms = default_vms();
    vms[1].wg_ip = None;
    let rows = ssh_target_rows(&vms);
    assert_eq!(rows.len(), 4);
    assert_eq!(rows[0].wg_ip.as_str(), "10.0.0.1");
    assert_eq!(rows[1].wg_ip.as_str(), "-");
    assert_eq!(rows[0].method.as_str(), "Gcloud");
    assert_eq!(rows[1].method.as_str(), "Direct");
}

#[test]
fn mount_status_rows_follow_probes() {
    let vms = default_vms();
    let flags = vec![true, false, false, true];
    let rows = mount_status_rows(&vms, "/mnt/cloud", &flags);
    assert_eq!(rows.len(), 4);
    assert_eq!(rows[0].mount_point.as_str(), "/mnt/cloud/gcp");
    assert!(rows[0].mounted);
    assert!(!rows[1].mounted);
    assert_eq!(rows[3].alias.as_str(), "services");
    assert!(rows[3].mounted);
}

#[test]
fn aur_heuristic() {
    assert!(is_aur_package("brave-bin"));
    assert!(is_aur_package("somepkg-git"));
    assert!(is_aur_package("obsidian"));
    assert!(is_aur_package("visual-studio-code"));
    assert!(is_aur_package("spotify"));
    assert!(!is_aur_package("htop"));
    assert!(!is_aur_package("ripgrep"));
}

#[test]
fn package_partition_keeps_order() {
    let pkgs = vec![
        "fish".to_string(),
        "brave-bin".to_string(),
        "htop".to_string(),
        "obsidian".to_string(),
    ];
    let (official, aur) = partition_aur(&pkgs);
    assert_eq!(official, vec!["fish", "htop"]);
    assert_eq!(aur, vec!["brave-bin", "obsidian"]);
}

#[test]
fn container_names_are_normalized() {
    assert_eq!(full_container_name("work").as_str(), "cloud-sandbox-work");
    assert_eq!(full_container_name("cloud-sandbox-work").as_str(), "cloud-sandbox-work");
}

#[test]
fn partition_paths_by_device_kind() {
    assert_eq!(get_partition_path("/dev/sdb", 3).as_str(), "/dev/sdb3");
    assert_eq!(get_partition_path("/dev/nvme0n1", 2).as_str(), "/dev/nvme0n1p2");
    assert_eq!(get_partition_path("/dev/mmcblk0", 1).as_str(), "/dev/mmcblk0p1");
    assert_eq!(get_partition_path("/dev/sdb", 12).as_str(), "/dev/sdb12");
}

#[test]
fn checksum_lookup() {
    let listing = "abc123 archlinux-2024.01.01-x86_64.iso\ndef456 other.iso\n";
    let sum = checksum_for(listing, "archlinux-2024.01.01-x86_64.iso").expect("listed");
    assert_eq!(sum.as_str(), "abc123");
    assert!(checksum_for(listing, "missing.iso").is_none());
}

#[test]
fn usb_listing_rows() {
    let listing = "sda 500G sata Samsung_SSD /\nsdb 32G usb Kingston_DataTraveler\nsdc 16G usb SanDisk_Ultra /mnt/stick\n";
    let rows = usb_device_rows(listing);
    assert_eq!(rows.len(), 2);
    assert_eq!(rows[0].device.as_str(), "/dev/sdb");
    assert_eq!(rows[0].size.as_str(), "32G");
    assert_eq!(rows[0].model.as_str(), "Kingston_DataTraveler");
    assert_eq!(rows[0].mounted.as_str(), "-");
    assert_eq!(rows[1].device.as_str(), "/dev/sdc");
    assert_eq!(rows[1].mounted.as_str(), "/mnt/stick");
}

#[test]
fn mem_total_extraction() {
    let meminfo = "MemFree:  1000 kB\nMemTotal:       16308816 kB\nSwapTotal: 0 kB\n";
    assert_eq!(mem_total_field(meminfo).as_deref(), Some("16308816"));
    assert!(mem_total_field("MemFree: 1000 kB\n").is_none());
    // A short total line yields nothing rather than falling through.
    assert!(mem_total_field("MemTotal:\nMemTotal: 5 kB\n").is_none());
}

#[test]
fn sandbox_listing_rows() {
    let listing = "cloud-sandbox-work\tUp 2 hours\tarchlinux:latest\nother\tExited (0) 3 days ago\tubuntu:22.04\ncloud-desktop\tExited (1) 1 day ago\tarchlinux:latest\n";
    let rows = sandbox_rows(listing, "cloud-sandbox");
    assert_eq!(rows.len(), 2);
    assert_eq!(rows[0].name.as_str(), "work");
    assert!(rows[0].running);
    assert_eq!(rows[0].image.as_str(), "archlinux:latest");
    assert_eq!(rows[1].name.as_str(), "cloud-desktop");
    assert!(!rows[1].running);
}

#[test]
fn all_packages_flattens_in_order() {
    let cfg = Config::default();
    let all = cfg.apps.apps.all_packages();
    assert_eq!(
        all,
        vec!["fish", "kitty", "brave-bin", "obsidian", "code", "htop", "ripgrep", "fd"]
    );
}

#[test]
fn usb_device_gates() {
    assert!(usb_device_check("/dev/sdb", true, 16).is_ok());
    assert_eq!(
        usb_device_check("sdb", true, 16).unwrap_err(),
        "Invalid device path. Use format: /dev/sdX"
    );
    assert_eq!(
        usb_device_check("/dev/sdb", false, 16).unwrap_err(),
        "Device not found: /dev/sdb"
    );
    assert_eq!(
        usb_device_check("/dev/sdb", true, 4).unwrap_err(),
        "Device too small. Minimum 8GB required, 16GB+ recommended. Found: 4GB"
    );
}

#[test]
fn iso_name_from_mirror_listing() {
    let html = "<a href=\"archlinux-bootstrap-2024.02.01-x86_64.tar.gz\">bootstrap</a>\n<a href=\"archlinux-2024.02.01-x86_64.iso.sig\">sig</a>\n<a href=\"archlinux-2024.02.01-x86_64.iso\">iso</a>\n";
    assert_eq!(
        latest_iso_name(html).as_str(),
        "archlinux-2024.02.01-x86_64.iso"
    );
    // Nothing usable in the listing: the conventional name stands in.
    assert_eq!(latest_iso_name("<html></html>").as_str(), "archlinux-x86_64.iso");
}

#[test]
fn default_config_path_suffix() {
    assert!(Config::default_config_path().ends_with("/cloud/config.toml"));
}

#[test]
fn labels_render() {
    assert_eq!(Provider::GCP.label().as_str(), "GCP");
    assert_eq!(Provider::Hetzner.label().as_str(), "Hetzner");
    assert_eq!(VmCategory::Free24x7.label().as_str(), "Free (24/7)");
    assert_eq!(VmCategory::WakeOnDemand.label().as_str(), "Wake-on-Demand");
    assert_eq!(ServiceStatus::Running.label().as_str(), "Running");
    assert_eq!(ServiceStatus::default().label().as_str(), "Unknown");
}

#[test]
fn cli_types_carry_their_data() {
    let up = MountAction::Up { vm: Some("dev".to_string()), public: true };
    match up {
        MountAction::Up { vm, public } => {
            assert_eq!(vm.as_deref(), Some("dev"));
            assert!(public);
        },
        _ => panic!("expected the mount-up action"),
    }
    assert_eq!(VpnAction::Toggle, VpnAction::Toggle);
}
