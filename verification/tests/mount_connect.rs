use cloud_connect::cmd::Cmd;
use cloud_connect::connect::{ConnectRequest, ConnectSession, DisconnectRequest,
    DisconnectSession};
use cloud_connect::mount::{mount_probe, MountBatch, MountOutcome, MountRequest, MountSession,
    UnmountBatch, UnmountOutcome, UnmountRequest, UnmountSession, UnmountStepRequest,
    UnmountVmOutcome};
use cloud_connect::vms::{Provider, SshMethod, Vm, VmCategory};
use cloud_connect::vpn::{VpnDownOutcome, VpnUpOutcome};

fn vm(alias: &str, public_ip: &str, wg_ip: Option<&str>) -> Vm {
    Vm {
        name: format!("VM {}", alias),
        alias: alias.to_string(),
        provider: Provider::OCI,
        public_ip: public_ip.to_string(),
        wg_ip: wg_ip.map(|s| s.to_string()),
        ssh_user: "ubuntu".to_string(),
        ssh_key: "~/.ssh/id_rsa".to_string(),
        ssh_method: SshMethod::Direct,
        remote_path: "/home/ubuntu".to_string(),
        services: Vec::new(),
        category: VmCategory::Free24x7,
    }
}

#[test]
fn preferred_ip_rules() {
    let with_overlay = vm("dev", "1.2.3.4", Some("10.0.0.2"));
    let without_overlay = vm("web", "5.6.7.8", None);
    assert_eq!(with_overlay.preferred_ip(true), "10.0.0.2");
    assert_eq!(with_overlay.preferred_ip(false), "1.2.3.4");
    assert_eq!(without_overlay.preferred_ip(true), "5.6.7.8");
    assert_eq!(without_overlay.preferred_ip(false), "5.6.7.8");
}

#[test]
fn probe_skips_missing_path() {
    assert!(mount_probe("/mnt/cloud/dev", false).is_none());
    let cmd = mount_probe("/mnt/cloud/dev", true).expect("existing path is probed");
    assert_eq!(cmd.program.as_str(), "mountpoint");
    assert_eq!(cmd.args, vec!["-q".to_string(), "/mnt/cloud/dev".to_string()]);
    assert!(!cmd.sudo);
}

#[test]
fn mount_session_full_run() {
    let v = vm("dev", "1.2.3.4", Some("10.0.0.2"));
    let mut s = MountSession::new(&v, "/mnt/cloud", "/home/me", 15, true);
    match s.current_request() {
        MountRequest::EnsureDir(p) => assert_eq!(p.as_str(), "/mnt/cloud/dev"),
        _ => panic!("expected the directory step first"),
    }
    s.on_dir_result(true);
    match s.current_request() {
        MountRequest::ProbeMounted(p) => assert_eq!(p.as_str(), "/mnt/cloud/dev"),
        _ => panic!("expected the probe step"),
    }
    s.on_probe_result(false);
    let cmd: Cmd = match s.current_request() {
        MountRequest::RunMount(c) => c,
        _ => panic!("expected the mount command"),
    };
    assert_eq!(cmd.program.as_str(), "sshfs");
    assert_eq!(
        cmd.args,
        vec![
            "-o".to_string(),
            "IdentityFile=/home/me/.ssh/id_rsa".to_string(),
            "-o".to_string(),
            "StrictHostKeyChecking=accept-new".to_string(),
            "-o".to_string(),
            "reconnect".to_string(),
            "-o".to_string(),
            "ServerAliveInterval=15".to_string(),
            "-o".to_string(),
            "ServerAliveCountMax=3".to_string(),
            "-o".to_string(),
            "ConnectTimeout=10".to_string(),
            "ubuntu@10.0.0.2:/home/ubuntu".to_string(),
            "/mnt/cloud/dev".to_string(),
        ]
    );
    s.on_run_result(true);
    match s.current_request() {
        MountRequest::Finished(o) => assert_eq!(o, MountOutcome::Mounted),
        _ => panic!("expected the session to be done"),
    }
}

#[test]
fn mount_twice_second_is_skip() {
    let v = vm("dev", "1.2.3.4", Some("10.0.0.2"));
    // The world: nothing mounted at first; a successful mount changes that.
    let mut world_mounted = false;

    let mut first = MountSession::new(&v, "/mnt/cloud", "/home/me", 15, true);
    first.on_dir_result(true);
    first.on_probe_result(world_mounted);
    match first.current_request() {
        MountRequest::RunMount(_) => {},
        _ => panic!("first call must issue the mount command"),
    }
    first.on_run_result(true);
    world_mounted = true;
    match first.current_request() {
        MountRequest::Finished(o) => assert_eq!(o, MountOutcome::Mounted),
        _ => panic!("first call must finish mounted"),
    }

    let mut second = MountSession::new(&v, "/mnt/cloud", "/home/me", 15, true);
    second.on_dir_result(true);
    second.on_probe_result(world_mounted);
    // The second call is a no-op skip: no mount command, outcome AlreadyMounted.
    match second.current_request() {
        MountRequest::Finished(o) => assert_eq!(o, MountOutcome::AlreadyMounted),
        other => {
            if let MountRequest::RunMount(_) = other {
                panic!("second call must not mount again");
            }
            panic!("second call must be finished");
        },
    }
}

#[test]
fn unmount_forced_fallback_succeeds() {
    let mut s = UnmountSession::new("/mnt/cloud/dev");
    match s.current_request() {
        UnmountRequest::RunUnmount(c) => {
            assert_eq!(c.program.as_str(), "fusermount");
            assert_eq!(c.args, vec!["-u".to_string(), "/mnt/cloud/dev".to_string()]);
        },
        _ => panic!("expected the graceful unmount first"),
    }
    s.on_result(false);
    match s.current_request() {
        UnmountRequest::RunUnmount(c) => {
            assert_eq!(c.args, vec!["-uz".to_string(), "/mnt/cloud/dev".to_string()]);
        },
        _ => panic!("expected the forced retry"),
    }
    s.on_result(true);
    match s.current_request() {
        UnmountRequest::Finished(o) => assert_eq!(o, UnmountOutcome::Unmounted),
        _ => panic!("expected overall success"),
    }
}

#[test]
fn unmount_both_failures_fail() {
    let mut s = UnmountSession::new("/mnt/cloud/dev");
    s.on_result(false);
    s.on_result(false);
    match s.current_request() {
        UnmountRequest::Finished(o) => assert_eq!(o, UnmountOutcome::Failed),
        _ => panic!("expected overall failure"),
    }
}

/// Drive one VM of a mount batch: directory ok, not mounted, then the given
/// mount command result.
fn drive_one(batch: &mut MountBatch, success: bool) {
    match batch.current_request() {
        MountRequest::EnsureDir(_) => {},
        _ => panic!("expected the directory step"),
    }
    batch.on_dir_result(true);
    batch.on_probe_result(false);
    match batch.current_request() {
        MountRequest::RunMount(_) => {},
        _ => panic!("expected the mount command"),
    }
    batch.on_run_result(success);
}

#[test]
fn batch_continues_past_failure() {
    let vms = vec![
        vm("one", "1.1.1.1", None),
        vm("two", "2.2.2.2", None),
        vm("three", "3.3.3.3", None),
    ];
    let mut batch = MountBatch::new(
        vms,
        "/mnt/cloud".to_string(),
        "/home/me".to_string(),
        15,
        false,
    );
    drive_one(&mut batch, true);
    drive_one(&mut batch, false);  // the middle VM's mount tool fails
    drive_one(&mut batch, true);
    assert!(batch.is_complete());
    let results = batch.results();
    assert_eq!(results.len(), 3);
    assert_eq!(results[0].alias.as_str(), "one");
    assert_eq!(results[0].outcome, MountOutcome::Mounted);
    assert_eq!(results[1].alias.as_str(), "two");
    assert_eq!(results[1].outcome, MountOutcome::Failed);
    assert_eq!(results[2].alias.as_str(), "three");
    assert_eq!(results[2].outcome, MountOutcome::Mounted);
}

#[test]
fn batch_records_skips() {
    let vms = vec![vm("one", "1.1.1.1", None), vm("two", "2.2.2.2", None)];
    let mut batch = MountBatch::new(
        vms,
        "/mnt/cloud".to_string(),
        "/home/me".to_string(),
        15,
        false,
    );
    batch.on_dir_result(true);
    batch.on_probe_result(true);  // already mounted: skip
    drive_one(&mut batch, true);
    assert!(batch.is_complete());
    let results = batch.results();
    assert_eq!(results[0].outcome, MountOutcome::AlreadyMounted);
    assert_eq!(results[1].outcome, MountOutcome::Mounted);
}

#[test]
fn connect_orders_vpn_up_before_mounts() {
    let vms = vec![vm("dev", "1.2.3.4", Some("10.0.0.2"))];
    let mut issued: Vec<String> = Vec::new();
    let mut s = ConnectSession::new(
        "wg0".to_string(),
        vms,
        "/mnt/cloud".to_string(),
        "/home/me".to_string(),
        15,
    );
    // Tunnel up comes first.
    match s.current_request() {
        ConnectRequest::RunVpnUp(c) => {
            assert_eq!(c.program.as_str(), "wg-quick");
            assert_eq!(c.args, vec!["up".to_string(), "wg0".to_string()]);
            assert!(c.sudo);
            issued.push(c.program.clone());
        },
        _ => panic!("the tunnel-up command must come first"),
    }
    s.on_vpn_result(VpnUpOutcome::Connected);
    // Then the tunnel state is re-read.
    match s.current_request() {
        ConnectRequest::RunVpnCheck(c) => {
            assert_eq!(c.program.as_str(), "wg");
            assert_eq!(c.args, vec!["show".to_string(), "wg0".to_string()]);
        },
        _ => panic!("the tunnel check must follow"),
    }
    s.on_vpn_check(true);
    // Only now are mounts attempted, with the overlay address preferred.
    match s.current_request() {
        ConnectRequest::Mount(MountRequest::EnsureDir(p)) => {
            assert_eq!(p.as_str(), "/mnt/cloud/dev")
        },
        _ => panic!("mounting must follow the tunnel"),
    }
    s.on_mount_dir_result(true);
    s.on_mount_probe_result(false);
    match s.current_request() {
        ConnectRequest::Mount(MountRequest::RunMount(c)) => {
            issued.push(c.program.clone());
            assert!(c.args.contains(&"ubuntu@10.0.0.2:/home/ubuntu".to_string()));
        },
        _ => panic!("expected the mount command"),
    }
    s.on_mount_run_result(true);
    match s.current_request() {
        ConnectRequest::Finished => {},
        _ => panic!("expected the connect to be over"),
    }
    assert_eq!(issued, vec!["wg-quick".to_string(), "sshfs".to_string()]);
}

#[test]
fn connect_aborts_on_vpn_failure() {
    let vms = vec![vm("dev", "1.2.3.4", Some("10.0.0.2"))];
    let mut s = ConnectSession::new(
        "wg0".to_string(),
        vms,
        "/mnt/cloud".to_string(),
        "/home/me".to_string(),
        15,
    );
    s.on_vpn_result(VpnUpOutcome::Failed);
    match s.current_request() {
        ConnectRequest::Finished => {},
        _ => panic!("a failed tunnel-up must abort before any mount"),
    }
}

#[test]
fn disconnect_unmounts_before_vpn_down() {
    let vms = vec![vm("one", "1.1.1.1", None), vm("two", "2.2.2.2", None)];
    let mut s = DisconnectSession::new("wg0".to_string(), vms, "/mnt/cloud".to_string());
    // First VM: mounted, graceful unmount works.
    match s.current_request() {
        DisconnectRequest::Unmount(UnmountStepRequest::ProbeMounted(p)) => {
            assert_eq!(p.as_str(), "/mnt/cloud/one")
        },
        _ => panic!("unmounting must come first"),
    }
    s.on_probe_result(true);
    match s.current_request() {
        DisconnectRequest::Unmount(UnmountStepRequest::RunUnmount(c)) => {
            assert_eq!(c.args, vec!["-u".to_string(), "/mnt/cloud/one".to_string()]);
        },
        _ => panic!("expected the graceful unmount"),
    }
    s.on_unmount_result(true);
    // Second VM: not mounted, skipped.
    s.on_probe_result(false);
    // Only now the tunnel goes down.
    match s.current_request() {
        DisconnectRequest::RunVpnDown(c) => {
            assert_eq!(c.program.as_str(), "wg-quick");
            assert_eq!(c.args, vec!["down".to_string(), "wg0".to_string()]);
        },
        _ => panic!("the tunnel-down command must come last"),
    }
    s.on_vpn_down_result(VpnDownOutcome::Disconnected);
    match s.current_request() {
        DisconnectRequest::Finished => {},
        _ => panic!("expected the disconnect to be over"),
    }
    let results = s.batch.results();
    assert_eq!(results.len(), 2);
    assert_eq!(results[0].outcome, UnmountVmOutcome::Unmounted);
    assert_eq!(results[1].outcome, UnmountVmOutcome::NotMounted);
}

#[test]
fn disconnect_of_empty_registry_goes_straight_to_vpn_down() {
    let s = DisconnectSession::new("wg0".to_string(), Vec::new(), "/mnt/cloud".to_string());
    match s.current_request() {
        DisconnectRequest::RunVpnDown(_) => {},
        _ => panic!("nothing to unmount"),
    }
}

#[test]
fn batch_records_directory_failure_and_continues() {
    let vms = vec![vm("one", "1.1.1.1", None), vm("two", "2.2.2.2", None)];
    let mut batch = MountBatch::new(
        vms,
        "/mnt/cloud".to_string(),
        "/home/me".to_string(),
        15,
        false,
    );
    batch.on_dir_result(false);  // the first VM's directory cannot be made
    drive_one(&mut batch, true);
    assert!(batch.is_complete());
    let results = batch.results();
    assert_eq!(results[0].outcome, MountOutcome::Failed);
    assert_eq!(results[1].outcome, MountOutcome::Mounted);
}

#[test]
fn unmount_batch_continues_past_double_failure() {
    let vms = vec![vm("one", "1.1.1.1", None), vm("two", "2.2.2.2", None)];
    let mut b = UnmountBatch::new(vms, "/mnt/cloud".to_string());
    b.on_probe_result(true);
    b.on_unmount_result(false);  // graceful fails
    b.on_unmount_result(false);  // forced fails too
    b.on_probe_result(true);
    b.on_unmount_result(true);
    assert!(b.is_complete());
    let results = b.results();
    assert_eq!(results[0].outcome, UnmountVmOutcome::Failed);
    assert_eq!(results[1].outcome, UnmountVmOutcome::Unmounted);
}

#[test]
fn alive_interval_is_formatted_into_the_mount_command() {
    let v = vm("dev", "1.2.3.4", None);
    let mut s = MountSession::new(&v, "/mnt/cloud", "/home/me", 120, false);
    s.on_dir_result(true);
    s.on_probe_result(false);
    match s.current_request() {
        MountRequest::RunMount(c) => {
            assert!(c.args.contains(&"ServerAliveInterval=120".to_string()));
            assert!(c.args.contains(&"ubuntu@1.2.3.4:/home/ubuntu".to_string()));
        },
        _ => panic!("expected the mount command"),
    }
}

#[test]
fn unmount_batch_forced_fallback() {
    let vms = vec![vm("one", "1.1.1.1", None)];
    let mut b = UnmountBatch::new(vms, "/mnt/cloud".to_string());
    b.on_probe_result(true);
    b.on_unmount_result(false);  // graceful fails
    match b.current_request() {
        UnmountStepRequest::RunUnmount(c) => {
            assert_eq!(c.args, vec!["-uz".to_string(), "/mnt/cloud/one".to_string()]);
        },
        _ => panic!("expected the forced retry"),
    }
    b.on_unmount_result(true);  // forced succeeds
    assert!(b.is_complete());
    assert_eq!(b.results()[0].outcome, UnmountVmOutcome::Unmounted);
}
