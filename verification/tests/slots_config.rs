use cfctl::binder::{
    ensure_process_state, timeout_text, wait_for_binder_device, BinderDeviceConfig, BinderDevices,
    BinderWait, Error, DEFAULT_POLL_MILLIS,
};
use cfctl::config::{adb_port_for, join_path, CfctlDaemonConfig};
use cfctl::hal::{capabilities, rc_to_result, vibrate, vibrate_duration, Caps, KNOWN_CAPS};
use cfctl::host::{deadline_from_timeout, epoch_secs, secs_remaining, Clock};
use cfctl::launcher::{spawn_guest_process, LaunchParams};
use cfctl::lite::{
    allocate_instance_slot, append_run_log, cleanup_network, config_from_env, console_log_path,
    env_lookup, kill_guest_processes, render_caps, run_once, split_list, verify_boot_completed,
    wait_for_adb, BootObservation, RunConfig, Verdict, WaitObservation,
};
use cfctl::metadata::{render_env_file, InstanceMetadata, InstancePaths, MetadataCache};
use cfctl::protocol::{
    describe_request, error_detail, lock_entry_idle, lock_plan, make_serial, DeployRequest,
    DestroyOptions, ErrorDetail, InstanceState, LockPlan, LogsOptions, Request, Response,
    StartOptions,
};
use cfctl::readiness::{
    adb_connect, adb_devices, adb_shell_getprop, resolve_active_adb_serial, tool_failure,
};
use cfctl::host::{FileStep, ToolOutput};
use cfctl::slots::{allocate_id, Allocation, MAX_INSTANCE_ID};

#[test]
fn allocation_takes_the_first_free_id_from_the_counter() {
    assert_eq!(allocate_id("", &vec![]), Ok(Allocation { id: 1, next: 2 }));
    assert_eq!(allocate_id("5", &vec![]), Ok(Allocation { id: 5, next: 6 }));
    assert_eq!(allocate_id(" 5\n", &vec![5, 6]), Ok(Allocation { id: 7, next: 8 }));
    assert_eq!(allocate_id("99", &vec![]), Ok(Allocation { id: 99, next: 1 }));
    assert_eq!(allocate_id("99", &vec![99, 1]), Ok(Allocation { id: 2, next: 3 }));
    assert_eq!(allocate_id("0", &vec![1]), Ok(Allocation { id: 2, next: 3 }));
    assert_eq!(allocate_id("100", &vec![]), Ok(Allocation { id: 1, next: 2 }));
    assert_eq!(allocate_id("junk", &vec![]), Ok(Allocation { id: 1, next: 2 }));
    assert_eq!(MAX_INSTANCE_ID, 99);
}

#[test]
fn allocation_never_returns_an_occupied_id() {
    let occupied: Vec<u64> = (1..=99).filter(|id| id % 3 != 0).collect();
    for start in 0..120u64 {
        let drawn = allocate_id(&start.to_string(), &occupied).unwrap();
        assert!(!occupied.contains(&drawn.id));
        assert!((1..=99).contains(&drawn.id));
        assert_eq!(drawn.next, drawn.id % 99 + 1);
    }
    let all: Vec<u64> = (1..=99).collect();
    assert_eq!(allocate_id("17", &all), Err("no available instance slots (1-99)".to_string()));
    let but_one: Vec<u64> = (1..=99).filter(|id| *id != 42).collect();
    assert_eq!(allocate_id("43", &but_one), Ok(Allocation { id: 42, next: 43 }));
}

#[test]
fn default_configuration() {
    let config = CfctlDaemonConfig::default();
    assert_eq!(config.socket_path, "/run/cfctl.sock");
    assert_eq!(config.state_dir, "/var/lib/cfctl");
    assert_eq!(config.etc_instances_dir, "/etc/cuttlefish/instances");
    assert_eq!(config.default_boot_image, "/var/lib/cuttlefish/images/boot.img");
    assert_eq!(config.default_init_boot_image, "/var/lib/cuttlefish/images/init_boot.img");
    assert_eq!(config.start_timeout_secs, 120);
    assert_eq!(config.adb_wait_timeout_secs, 90);
    assert_eq!(config.journal_lines, 200);
    assert_eq!(config.adb_host, "127.0.0.1");
    assert_eq!(config.base_adb_port, 6520);
    assert_eq!(config.cuttlefish_fhs, "/run/current-system/sw/bin/cuttlefish-fhs");
    assert!(config.disable_host_gpu);
    assert_eq!(config.guest_capabilities, vec!["net_admin"]);
    assert_eq!(config.host_instance_dir(4), "/var/lib/cuttlefish/instances/4");
    assert_eq!(config.host_assembly_dir(4), "/var/lib/cuttlefish/assembly/4");
    assert_eq!(config.console_log_path(4), "/var/lib/cuttlefish/instances/4/instances/cvd-4/console_log");
}

#[test]
fn paths_and_ports() {
    assert_eq!(join_path("/a", "b"), "/a/b");
    assert_eq!(join_path("/a/", "b"), "/a/b");
    assert_eq!(join_path("", "b"), "b");
    assert_eq!(join_path("/", "b"), "/b");
    assert_eq!(adb_port_for(6520, 1), 6520);
    assert_eq!(adb_port_for(6520, 99), 6618);
    assert_eq!(adb_port_for(65535, 2), 0);
    assert_eq!(adb_port_for(0, 0), 65535);
    assert_eq!(make_serial("127.0.0.1", 6520), "127.0.0.1:6520");
    let config = CfctlDaemonConfig::default();
    let paths = InstancePaths::new(&config, 12);
    assert_eq!(paths.root, "/var/lib/cfctl/instances/12");
    assert_eq!(paths.artifacts, "/var/lib/cfctl/instances/12/artifacts");
    assert_eq!(paths.metadata, "/var/lib/cfctl/instances/12/metadata.json");
    assert_eq!(paths.run_log, "/var/lib/cfctl/instances/12/cfctl-run.log");
    assert_eq!(paths.run_log_path(), "/var/lib/cfctl/instances/12/cfctl-run.log");
    assert_eq!(paths.id_string(), "12");
    assert_eq!(paths.env_file(&config), "/etc/cuttlefish/instances/12.env");
}

fn record(id: u64) -> InstanceMetadata {
    InstanceMetadata {
        id,
        purpose: Some("p".to_string()),
        adb_port: 6520,
        state: InstanceState::Starting,
        boot_image: "/b".to_string(),
        init_boot_image: "/i".to_string(),
        created_at: 1,
        updated_at: 2,
        held: true,
    }
}

#[test]
fn records_round_trip_through_the_cache() {
    let mut cache = MetadataCache::new();
    assert!(cache.get(3).is_none());
    cache.insert(3, record(3));
    let back = cache.get(3).unwrap();
    assert_eq!(back.id, 3);
    assert_eq!(back.purpose.as_deref(), Some("p"));
    assert_eq!(back.adb_port, 6520);
    assert_eq!(back.state, InstanceState::Starting);
    assert_eq!(back.boot_image, "/b");
    assert_eq!(back.init_boot_image, "/i");
    assert_eq!((back.created_at, back.updated_at, back.held), (1, 2, true));
    cache.remove(3);
    assert!(cache.get(3).is_none());
    let summary = record(3).summary("10.0.0.1");
    assert_eq!(summary.id, 3);
    assert_eq!(summary.state, InstanceState::Starting);
    assert_eq!(summary.adb.unwrap().serial, "10.0.0.1:6520");
    assert_eq!(
        render_env_file(&record(3), 9),
        "# Autogenerated by cfctl at 9\nCUTTLEFISH_BOOT_IMAGE=/b\nCUTTLEFISH_INIT_BOOT_IMAGE=/i\nCUTTLEFISH_BASE_INSTANCE_NUM=3\nCUTTLEFISH_ADB_TCP_PORT=6520\n"
    );
}

#[test]
fn clocks_and_deadlines() {
    let clock = Clock { epoch_secs: Some(77), millis: 1_500 };
    assert_eq!(epoch_secs(&clock), Ok(77));
    assert_eq!(epoch_secs(&Clock { epoch_secs: None, millis: 0 }), Err("system clock is set before the epoch".to_string()));
    assert_eq!(clock.deadline(2), 3_500);
    assert_eq!(clock.deadline(u64::MAX), u64::MAX);
    assert_eq!(Clock { epoch_secs: None, millis: u64::MAX - 5 }.deadline(1), u64::MAX);
    assert!(clock.reached(1_500));
    assert!(!clock.reached(1_501));
    assert_eq!(deadline_from_timeout(&clock, Some(1)), Some(2_500));
    assert_eq!(deadline_from_timeout(&clock, None), None);
    assert_eq!(secs_remaining(&clock, Some(3_499)), Some(1));
    assert_eq!(secs_remaining(&clock, Some(3_500)), Some(2));
    assert_eq!(secs_remaining(&clock, Some(1_000)), Some(0));
    assert_eq!(secs_remaining(&clock, None), None);
}

#[test]
fn requests_are_labelled_and_locked() {
    let start = Request::StartInstance { id: 7, options: StartOptions::default() };
    assert_eq!(describe_request(&start), "StartInstance(7)");
    assert_eq!(lock_plan(&start), LockPlan { instance: Some(7), id_allocation: false });
    let create = Request::CreateInstance { purpose: None };
    assert_eq!(describe_request(&create), "CreateInstance");
    assert_eq!(lock_plan(&create), LockPlan { instance: None, id_allocation: true });
    let both = Request::CreateStartInstance { purpose: None, options: StartOptions::default() };
    assert_eq!(describe_request(&both), "CreateStartInstance");
    assert_eq!(lock_plan(&both), LockPlan { instance: None, id_allocation: true });
    let deploy = Request::Deploy(DeployRequest { id: 3, boot_image: None, init_boot_image: None });
    assert_eq!(describe_request(&deploy), "Deploy(3)");
    assert_eq!(lock_plan(&deploy).instance, Some(3));
    assert_eq!(describe_request(&Request::PruneExpired { max_age_secs: 60 }), "PruneExpired(max_age_secs=60)");
    assert_eq!(lock_plan(&Request::PruneAll), LockPlan { instance: None, id_allocation: false });
    assert_eq!(describe_request(&Request::PruneAll), "PruneAll");
    assert_eq!(describe_request(&Request::ListInstances), "ListInstances");
    for (request, label) in [
        (Request::StopInstance { id: 1 }, "StopInstance(1)"),
        (Request::HoldInstance { id: 1 }, "HoldInstance(1)"),
        (Request::DestroyInstance { id: 1, options: DestroyOptions::default() }, "DestroyInstance(1)"),
        (Request::WaitForAdb { id: 1, timeout_secs: None }, "WaitForAdb(1)"),
        (Request::Logs { id: 1, lines: None, options: LogsOptions::default() }, "Logs(1)"),
        (Request::Status { id: 1 }, "Status(1)"),
        (Request::Describe { id: 1, run_log_lines: None }, "Describe(1)"),
    ] {
        assert_eq!(describe_request(&request), label);
        assert_eq!(lock_plan(&request), LockPlan { instance: Some(1), id_allocation: false });
    }
    assert!(lock_entry_idle(1));
    assert!(!lock_entry_idle(2));
    assert!(!lock_entry_idle(0));
}

#[test]
fn responses() {
    let ok = Response::ok();
    assert!(ok.ok && ok.message.is_none() && ok.error.is_none() && ok.action.is_none());
    let noted = Response::ok().with_message("deploy updated".to_string());
    assert!(noted.ok);
    assert_eq!(noted.message.as_deref(), Some("deploy updated"));
    let failed = Response::error("boom".to_string());
    assert!(!failed.ok);
    assert_eq!(failed.message.as_deref(), Some("boom"));
    assert!(failed.error.is_none());
    let detailed = Response::error_with_detail(error_detail("code_x", "why".to_string()));
    assert!(!detailed.ok);
    assert!(detailed.message.is_none());
    let ErrorDetail { code, message } = detailed.error.unwrap();
    assert_eq!(code, "code_x");
    assert_eq!(message.as_deref(), Some("why"));
    assert_eq!(InstanceState::default(), InstanceState::Unknown);
    assert_eq!(InstanceState::Running.name(), "running");
    assert_eq!(InstanceState::Destroyed.name(), "destroyed");
}

fn out(code: i32, stdout: &str, stderr: &str) -> Result<ToolOutput, String> {
    Ok(ToolOutput { code: Some(code), status: format!("exit status: {}", code), stdout: stdout.to_string(), stderr: stderr.to_string() })
}

#[test]
fn bridge_commands_and_failures() {
    let c = adb_connect("/fhs", "0.0.0.0:6520");
    assert_eq!((c.program.as_str(), c.args), ("/fhs", vec!["--".to_string(), "adb".to_string(), "connect".to_string(), "0.0.0.0:6520".to_string()]));
    assert_eq!(adb_devices("/fhs").args, vec!["--", "adb", "devices"]);
    assert_eq!(adb_shell_getprop("/fhs", "s", "p").args, vec!["--", "adb", "-s", "s", "shell", "getprop", "p"]);
    assert!(tool_failure(&out(0, "", "noise"), "ctx", "adb").is_none());
    let failed = tool_failure(&out(1, "", "refused"), "ctx", "adb connect").unwrap();
    assert_eq!(failed.brief, "adb connect returned exit status: 1: refused");
    assert_eq!(failed.detailed, failed.brief);
    let missing = tool_failure(&Err("No such file".to_string()), "invoking adb devices", "adb devices").unwrap();
    assert_eq!(missing.brief, "invoking adb devices");
    assert_eq!(missing.detailed, "invoking adb devices: No such file");
}

#[test]
fn the_device_list_is_read_past_its_heading() {
    let list = "List of devices attached\n127.0.0.1:6520\toffline\n0.0.0.0:6520   device usb:1\nother\tdevice\n";
    assert_eq!(resolve_active_adb_serial(list, "127.0.0.1:6520", "0.0.0.0:6520"), Some("0.0.0.0:6520".to_string()));
    assert_eq!(resolve_active_adb_serial(list, "127.0.0.1:6520", "x"), None);
    assert_eq!(resolve_active_adb_serial(list, "other", "x"), Some("other".to_string()));
    // The first line is the heading, whatever it says.
    assert_eq!(resolve_active_adb_serial("a\tdevice\n", "a", "b"), None);
    assert_eq!(resolve_active_adb_serial("h\n\n  \nb device\n", "a", "b"), Some("b".to_string()));
    assert_eq!(resolve_active_adb_serial("h\nb devices\n", "a", "b"), None);
    assert_eq!(resolve_active_adb_serial("h\nb\n", "a", "b"), None);
    assert_eq!(resolve_active_adb_serial("", "a", "b"), None);
}

#[test]
fn the_daemon_launches_through_the_wrapper() {
    let mut config = CfctlDaemonConfig::default();
    config.cuttlefish_fhs = "/fhs".to_string();
    config.disable_host_gpu = false;
    let mut m = record(3);
    m.boot_image = "/img/boot".to_string();
    let plan = spawn_guest_process(&config, 3, &m, true, &None, true, false);
    assert_eq!(plan.command.program, "/fhs");
    assert_eq!(
        plan.command.args,
        vec![
            "--",
            "launch_cvd",
            "--system_image_dir=/var/lib/cuttlefish/images",
            "--instance_dir=/var/lib/cuttlefish/instances/3",
            "--assembly_dir=/var/lib/cuttlefish/assembly/3",
            "--vm_manager=qemu_cli",
            "--enable_wifi=false",
            "--enable_host_bluetooth=false",
            "--enable_modem_simulator=false",
            "--start_webrtc=true",
            "--start_webrtc_sig_server=true",
            "--report_anonymous_usage_stats=n",
            "--daemon=false",
            "--console=true",
            "--verbosity=DEBUG",
            "--resume=false",
            "--boot_image=/img/boot",
        ]
    );
    let env: Vec<(&str, &str)> = plan.env.iter().map(|(k, v)| (k.as_str(), v.as_str())).collect();
    assert_eq!(
        env,
        vec![
            ("GFXSTREAM_DISABLE_GRAPHICS_DETECTOR", "1"),
            ("GFXSTREAM_HEADLESS", "1"),
            ("CUTTLEFISH_INSTANCE", "3"),
            ("CUTTLEFISH_INSTANCE_NUM", "3"),
            ("CUTTLEFISH_ADB_TCP_PORT", "6520"),
        ]
    );
    assert_eq!(plan.dir.as_deref(), Some("/var/lib/cuttlefish/instances"));
    assert_eq!(plan.log_path, "/var/lib/cfctl/instances/3/cfctl-run.log");

    config.disable_host_gpu = true;
    let on_track = spawn_guest_process(&config, 3, &m, false, &Some("next".to_string()), false, true);
    assert_eq!(on_track.command.program, "cfenv");
    assert_eq!(&on_track.command.args[..4], &["-t", "next", "--", "launch_cvd"]);
    assert!(on_track.command.args.contains(&"--start_webrtc=false".to_string()));
    assert_eq!(on_track.command.args.last().map(|s| s.as_str()), Some("--init_boot_image=/i"));
    assert_eq!(on_track.env[0], ("CUTTLEFISH_DISABLE_HOST_GPU".to_string(), "1".to_string()));
}

fn vars(pairs: &[(&str, &str)]) -> Vec<(String, String)> {
    pairs.iter().map(|(k, v)| (k.to_string(), v.to_string())).collect()
}

#[test]
fn configuration_from_the_environment() {
    let env = vars(&[
        ("CFCTL_STATE_DIR", "/s"),
        ("CFCTL_START_TIMEOUT_SECS", "30"),
        ("CFCTL_ADB_TIMEOUT_SECS", "soon"),
        ("CFCTL_JOURNAL_LINES", "5"),
        ("CFCTL_BASE_ADB_PORT", "70000"),
        ("CFCTL_DISABLE_HOST_GPU", "false"),
        ("CFCTL_GUEST_CAPABILITIES", " net_admin, ,+sys_nice,-x,"),
        ("CFCTL_STATE_DIR", "/ignored"),
    ]);
    assert_eq!(env_lookup(&env, "CFCTL_STATE_DIR"), Some("/s".to_string()));
    assert_eq!(env_lookup(&env, "CFCTL_NONE"), None);
    let config = config_from_env(&env);
    assert_eq!(config.state_dir, "/s");
    assert_eq!(config.start_timeout_secs, 30);
    assert_eq!(config.adb_wait_timeout_secs, 90);
    assert_eq!(config.journal_lines, 5);
    assert_eq!(config.base_adb_port, 6520);
    assert!(!config.disable_host_gpu);
    assert_eq!(config.guest_capabilities, vec!["net_admin", "+sys_nice", "-x"]);
    assert_eq!(render_caps(&config.guest_capabilities), "+net_admin,+sys_nice,-x");
    assert_eq!(config.adb_host, "127.0.0.1");
    assert_eq!(split_list(""), Vec::<String>::new());
    assert_eq!(split_list("a"), vec!["a"]);
    assert_eq!(split_list(",a,,b ,"), vec!["a", "b"]);
    let unchanged = config_from_env(&vars(&[("CFCTL_DISABLE_HOST_GPU", "yes")]));
    assert!(unchanged.disable_host_gpu);
}

fn run_config() -> RunConfig {
    RunConfig {
        boot_image: None,
        init_boot_image: None,
        logs_dir: None,
        disable_webrtc: false,
        verify_boot: false,
        skip_adb_wait: false,
        timeout_secs: None,
        keep_state: false,
        track: None,
        run_as_root: false,
        state_dir: None,
        instances_dir: None,
        assembly_dir: None,
        system_image_dir: None,
        guest_user: None,
        guest_group: None,
        cuttlefish_fhs: None,
        adb_host: None,
        base_adb_port: None,
    }
}

#[test]
fn a_single_run_is_planned() {
    let mut cfg = run_config();
    cfg.verify_boot = true;
    cfg.skip_adb_wait = true;
    assert_eq!(run_once(&cfg, &Vec::new(), "logs/run-1").err().as_deref(), Some("cannot combine --verify-boot with --skip-adb-wait"));

    let plan = run_once(&run_config(), &Vec::new(), "logs/run-1").unwrap();
    assert_eq!(plan.logs_dir, "logs/run-1");
    assert_eq!(plan.run_log, "logs/run-1/cfctl-run.log");
    assert_eq!(plan.config.state_dir, "logs/run-1/state");
    assert_eq!(plan.config.etc_instances_dir, "logs/run-1/etc");
    assert_eq!(plan.config.base_adb_port, 7200);

    let mut cfg = run_config();
    cfg.logs_dir = Some("/logs".to_string());
    cfg.state_dir = Some("/st".to_string());
    cfg.guest_user = Some("me".to_string());
    cfg.base_adb_port = Some(9000);
    let env = vars(&[("CFCTL_STATE_DIR", "/env-state"), ("CFCTL_GUEST_USER", "env-user"), ("CFCTL_ADB_HOST", "10.1.1.1")]);
    let plan = run_once(&cfg, &env, "unused").unwrap();
    assert_eq!(plan.logs_dir, "/logs");
    assert_eq!(plan.config.state_dir, "/st");
    assert_eq!(plan.config.etc_instances_dir, "/etc/cuttlefish/instances");
    assert_eq!(plan.config.guest_user, "me");
    assert_eq!(plan.config.adb_host, "10.1.1.1");
    assert_eq!(plan.config.base_adb_port, 9000);
    let plan = run_once(&run_config(), &env, "d").unwrap();
    assert_eq!(plan.config.state_dir, "/env-state");
    assert_eq!(plan.config.etc_instances_dir, "d/etc");
}

#[test]
fn a_slot_is_the_first_whose_port_is_free() {
    let slot = allocate_instance_slot(7200, 0, 0, &vec![]).unwrap();
    assert_eq!((slot.name.as_str(), slot.port), ("10", 7209));
    let slot = allocate_instance_slot(7200, 85, 3, &vec![]).unwrap();
    assert_eq!((slot.name.as_str(), slot.port), ("98", 7297));
    let slot = allocate_instance_slot(7200, 89, 0, &vec![7298, 7209]).unwrap();
    assert_eq!((slot.name.as_str(), slot.port), ("11", 7210));
    let busy: Vec<u16> = (7209..7299).collect();
    assert_eq!(allocate_instance_slot(7200, 5, 5, &busy).err().as_deref(), Some("unable to allocate free adb port after 90 attempts"));
    let slot = allocate_instance_slot(65535, u64::MAX, u64::MAX, &vec![]).unwrap();
    assert_eq!(slot.port, ((65535u32 + slot.name.parse::<u32>().unwrap() - 1) % 65536) as u16);
}

#[test]
fn the_wait_of_a_single_run_is_judged_round_by_round() {
    let tail = Some("boom".to_string());
    let v = wait_for_adb(WaitObservation::Exited("exit status: 1".to_string()), "h:1", "0.0.0.0:1", false, &tail);
    assert!(matches!(v, Verdict::Failed(e) if e == "cfctl-run.log tail:\nboom: launch_cvd exited prematurely with exit status: 1"));
    let v = wait_for_adb(WaitObservation::ConnectFailed("refused".to_string()), "h:1", "0.0.0.0:1", false, &tail);
    assert!(matches!(v, Verdict::Retry(1000)));
    let v = wait_for_adb(WaitObservation::ConnectFailed("refused".to_string()), "h:1", "0.0.0.0:1", true, &None);
    assert!(matches!(v, Verdict::Failed(e) if e == "timeout waiting for adb on h:1: refused"));
    let v = wait_for_adb(WaitObservation::DevicesFailed("x".to_string()), "h:1", "0.0.0.0:1", true, &None);
    assert!(matches!(v, Verdict::Failed(e) if e == "adb devices failed repeatedly: x"));
    let v = wait_for_adb(WaitObservation::Devices("List\n".to_string()), "h:1", "0.0.0.0:1", true, &None);
    assert!(matches!(v, Verdict::Failed(e) if e == "adb device 0.0.0.0:1 never appeared"));
    let v = wait_for_adb(WaitObservation::Devices("List\nh:1 device\n".to_string()), "h:1", "0.0.0.0:1", true, &None);
    assert!(matches!(v, Verdict::Ready(s) if s == "h:1"));
    assert_eq!(append_run_log("m".to_string(), &None), "m");
    assert_eq!(console_log_path("/i/10", "10"), "/i/10/instances/cvd-10/console_log");
}

#[test]
fn the_verification_of_a_single_run_is_judged_round_by_round() {
    let confirmed = |v: Verdict<_>| matches!(v, Verdict::Ready(cfctl::protocol::BootVerificationResult { adb_ready: true, boot_marker_observed: true, failure_reason: None }));
    for value in ["1", "true", "TRUE"] {
        assert!(confirmed(verify_boot_completed(BootObservation::Property { value: value.to_string(), marker_in_logs: false }, "s", "c", true, &None)));
    }
    assert!(confirmed(verify_boot_completed(BootObservation::Property { value: "0".to_string(), marker_in_logs: true }, "s", "c", true, &None)));
    assert!(confirmed(verify_boot_completed(BootObservation::PropertyFailed { cause: "x".to_string(), marker_in_logs: true }, "s", "c", true, &None)));
    let v = verify_boot_completed(BootObservation::Property { value: "True".to_string(), marker_in_logs: false }, "s", "c", false, &None);
    assert!(matches!(v, Verdict::Retry(1000)));
    let v = verify_boot_completed(BootObservation::Property { value: "0".to_string(), marker_in_logs: false }, "s", "c", true, &Some("t".to_string()));
    assert!(matches!(v, Verdict::Failed(e) if e == "VIRTUAL_DEVICE_BOOT_COMPLETED not observed (last value 0)"));
    let v = verify_boot_completed(BootObservation::DeviceAbsent, "s", "c", false, &None);
    assert!(matches!(v, Verdict::Retry(500)));
    let v = verify_boot_completed(BootObservation::DeviceAbsent, "s", "c", true, &Some("t".to_string()));
    assert!(matches!(v, Verdict::Failed(e) if e == "cfctl-run.log tail:\nt: adb serial c did not appear during verify"));
    let v = verify_boot_completed(BootObservation::ConnectFailed("r".to_string()), "s", "c", true, &None);
    assert!(matches!(v, Verdict::Failed(e) if e == "adb connect never succeeded for s: r"));
    let v = verify_boot_completed(BootObservation::DevicesFailed("r".to_string()), "s", "c", true, &None);
    assert!(matches!(v, Verdict::Failed(e) if e == "adb devices never succeeded: r"));
    let v = verify_boot_completed(BootObservation::PropertyFailed { cause: "r".to_string(), marker_in_logs: false }, "s", "c", true, &None);
    assert!(matches!(v, Verdict::Failed(e) if e == "adb getprop never succeeded: r"));
}

#[test]
fn a_single_run_cleans_up_after_itself() {
    assert_eq!(kill_guest_processes("/t/i/10", "/t/a/10"), vec!["--instance_dir=/t/i/10", "--assembly_dir=/t/a/10", "/t/i/10", "/t/a/10"]);
    let c = cleanup_network("7").unwrap();
    assert_eq!((c.program.as_str(), c.args), ("ip", vec!["link".to_string(), "del".to_string(), "cvd-eth-07".to_string()]));
    assert_eq!(cleanup_network("10").unwrap().args[2], "cvd-eth-10");
    assert!(cleanup_network("ten").is_none());
    assert!(cleanup_network("4294967296").is_none());
}

#[test]
fn a_single_run_launches_for_the_guest_user() {
    let mut config = CfctlDaemonConfig::default();
    config.cuttlefish_fhs = "/fhs".to_string();
    config.guest_capabilities = vec!["net_admin".to_string(), "-sys_boot".to_string()];
    let params = LaunchParams {
        instance_name: "10".to_string(),
        adb_port: 7209,
        instance_dir: "/t/i/10".to_string(),
        assembly_dir: "/t/a/10".to_string(),
        boot_image: "/b".to_string(),
        init_boot_image: "/ib".to_string(),
        enable_webrtc: false,
        track: None,
    };
    let plan = cfctl::lite::spawn_guest_process(&config, &params, "/t/i", "/logs/cfctl-run.log", false, false);
    assert_eq!(plan.command.program, "sudo");
    assert_eq!(
        &plan.command.args[..18],
        &[
            "-u",
            "justin",
            "-g",
            "cvdnetwork",
            "--preserve-env=CUTTLEFISH_INSTANCE",
            "--preserve-env=CUTTLEFISH_INSTANCE_NUM",
            "--preserve-env=CUTTLEFISH_ADB_TCP_PORT",
            "--preserve-env=CUTTLEFISH_DISABLE_HOST_GPU",
            "--preserve-env=GFXSTREAM_DISABLE_GRAPHICS_DETECTOR",
            "--preserve-env=GFXSTREAM_HEADLESS",
            "--",
            "setpriv",
            "--ambient-caps",
            "+net_admin,-sys_boot",
            "--",
            "/fhs",
            "--",
            "launch_cvd",
        ]
    );
    assert_eq!(plan.command.args.last().map(|s| s.as_str()), Some("--resume=false"));
    assert_eq!(plan.dir.as_deref(), Some("/t/i"));
    assert_eq!(plan.log_path, "/logs/cfctl-run.log");
    config.guest_capabilities = Vec::new();
    let plain = cfctl::lite::spawn_guest_process(&config, &params, "/t/i", "/l", true, true);
    assert_eq!(&plain.command.args[10..13], &["--", "/fhs", "--"]);
    assert_eq!(plain.command.args.last().map(|s| s.as_str()), Some("--init_boot_image=/ib"));
}

#[test]
fn binder_devices_and_waits() {
    let config = BinderDeviceConfig::new("/dev/x".to_string());
    assert_eq!(config.path(), "/dev/x");
    assert_eq!(config.poll_interval(), DEFAULT_POLL_MILLIS);
    assert_eq!(DEFAULT_POLL_MILLIS, 200);
    let quick = config.with_poll_interval(10);
    assert_eq!(quick.path(), "/dev/x");
    assert_eq!(quick.poll_interval(), 10);
    assert_eq!(BinderDeviceConfig::default().path(), "/dev/binder");

    assert!(matches!(wait_for_binder_device(&quick, 1_000, 0, Ok(())), BinderWait::Ready));
    assert!(matches!(wait_for_binder_device(&quick, 1_000, 5_000_000_000, Ok(())), BinderWait::Ready));
    assert!(matches!(wait_for_binder_device(&quick, 1_000, 999_999_999, Err("e".to_string())), BinderWait::Retry(10)));
    assert!(matches!(wait_for_binder_device(&quick, 1_000, 1_000_000_000, Err("e".to_string())), BinderWait::Failed(_)));
    assert!(matches!(wait_for_binder_device(&quick, u64::MAX, u64::MAX, Err("e".to_string())), BinderWait::Retry(10)));
    match wait_for_binder_device(&quick, 2, 2_000_500, Err("No such file or directory".to_string())) {
        BinderWait::Failed(Error::Timeout { path, elapsed_nanos, last_error }) => {
            assert_eq!(path, "/dev/x");
            assert_eq!(elapsed_nanos, 2_000_500);
            let again = Error::Timeout { path: path.clone(), elapsed_nanos, last_error: None };
            assert_eq!(again.message(), "timed out waiting for binder device /dev/x after 2.0005ms");
            assert_eq!(last_error.as_deref(), Some("binder device /dev/x is not accessible: No such file or directory"));
        }
        other => panic!("expected timeout error, got {:?}", other),
    }
    let timeout = Error::Timeout { path: "/dev/x".to_string(), elapsed_nanos: 1_500_000_000, last_error: None };
    assert_eq!(timeout.message(), "timed out waiting for binder device /dev/x after 1.5s");
    assert_eq!(timeout_text("/p", "2ms"), "timed out waiting for binder device /p after 2ms");
    assert_eq!(Error::InvalidBinderPath("\u{fffd}".to_string()).message(), "invalid binder device path '\u{fffd}'");
    assert_eq!(Error::BinderInit("raced".to_string()).message(), "binder process initialization failed: raced");
    assert_eq!(Error::UnsupportedPlatform.message(), "binder operation is only supported on Android targets");
    assert!(matches!(ensure_process_state("/dev/binder"), Err(Error::UnsupportedPlatform)));

    let devices = BinderDevices::from_env(Some("/capsule/binder".to_string()), Some("  ".to_string()), None);
    assert_eq!(devices.binder(), "/capsule/binder");
    assert_eq!(devices.hwbinder(), "/dev/hwbinder");
    assert_eq!(devices.vndbinder(), "/dev/vndbinder");
}

#[test]
fn vibrator_results() {
    assert_eq!(rc_to_result(0, "vibrate"), Ok(()));
    assert_eq!(rc_to_result(-1, "vibrate"), Err("vibrate: service unavailable".to_string()));
    assert_eq!(rc_to_result(-2, "c"), Err("c: invalid binder client".to_string()));
    assert_eq!(rc_to_result(-3, "c"), Err("c: binder call failed".to_string()));
    assert_eq!(rc_to_result(-22, "c"), Err("c: invalid argument".to_string()));
    assert_eq!(rc_to_result(7, "c"), Err("c: unexpected error code 7".to_string()));
    assert_eq!(vibrate_duration(250), Ok(250));
    assert_eq!(vibrate_duration(i32::MAX as u32), Ok(i32::MAX));
    assert_eq!(vibrate_duration(i32::MAX as u32 + 1), Err("duration exceeds i32::MAX ms".to_string()));
    assert_eq!(Caps::from_bits_truncate(u64::MAX).bits, KNOWN_CAPS);
    assert_eq!(Caps::from_bits_truncate(0b101).bits, 0b101);
    assert!(Caps { bits: 0b111 }.contains(Caps { bits: 0b101 }));
    assert!(!Caps { bits: 0b001 }.contains(Caps { bits: 0b101 }));
    assert!(capabilities().is_err());
    assert_eq!(vibrate(10), Err("hal_vibrator::vibrate is only available on Android targets".to_string()));
}

fn await_binder(config: &BinderDeviceConfig, timeout_millis: u64) -> BinderWait {
    let started = std::time::Instant::now();
    loop {
        let probe = if std::path::Path::new(config.path()).exists() {
            Ok(())
        } else {
            Err("No such file or directory (os error 2)".to_string())
        };
        let elapsed = u64::try_from(started.elapsed().as_nanos()).unwrap();
        match wait_for_binder_device(config, timeout_millis, elapsed, probe) {
            BinderWait::Retry(millis) => {
                let resume = std::time::Instant::now() + std::time::Duration::from_millis(millis);
                while std::time::Instant::now() < resume {}
            }
            other => return other,
        }
    }
}

#[test]
fn wait_for_binder_times_out_fast() {
    let config = BinderDeviceConfig::new("/nonexistent/binder-device".to_string()).with_poll_interval(1);
    match await_binder(&config, 2) {
        BinderWait::Failed(Error::Timeout { .. }) => {}
        other => panic!("expected timeout error, got {:?}", other),
    }
}

#[test]
fn wait_for_binder_device_succeeds_when_file_is_available() {
    let tmp_dir = tempfile::tempdir().expect("tempdir");
    let placeholder = tempfile::Builder::new()
        .prefix("binder")
        .tempfile_in(tmp_dir.path())
        .expect("create binder placeholder");
    let binder_path = placeholder.path().to_str().expect("a path in words").to_string();

    let config = BinderDeviceConfig::new(binder_path).with_poll_interval(10);
    match await_binder(&config, 1_000) {
        BinderWait::Ready => {}
        other => panic!("binder ready expected, got {:?}", other),
    }
}

#[test]
fn timeouts_of_zero_mean_the_default() {
    assert_eq!(cfctl::lite::effective_timeout(None, 30), 30);
    assert_eq!(cfctl::lite::effective_timeout(Some(0), 30), 30);
    assert_eq!(cfctl::lite::effective_timeout(Some(1), 30), 1);
    assert_eq!(cfctl::lite::effective_timeout(Some(u64::MAX), 30), u64::MAX);
    assert_eq!(cfctl::lite::VERIFY_TIMEOUT_SECS, 120);
    assert_eq!(cfctl::lite::effective_timeout(Some(0), cfctl::lite::VERIFY_TIMEOUT_SECS), 120);
}

#[test]
fn a_boot_is_verified_over_the_bridge_that_came_up() {
    assert_eq!(cfctl::lite::verification_serial(&Some("127.0.0.1:7201".to_string())), Ok("127.0.0.1:7201".to_string()));
    assert_eq!(
        cfctl::lite::verification_serial(&None),
        Err("boot verification requires adb to be ready".to_string())
    );
}

#[test]
fn host_failures_are_worded_in_brief_and_in_full() {
    let told = cfctl::host::HostFailure {
        context: Some("writing metadata tmp /s/1.tmp".to_string()),
        cause: "No space left on device (os error 28)".to_string(),
    };
    assert_eq!(told.clone().in_brief(), "writing metadata tmp /s/1.tmp");
    assert_eq!(told.in_full(), "writing metadata tmp /s/1.tmp: No space left on device (os error 28)");
    let bare = cfctl::host::HostFailure { context: None, cause: "stream did not contain valid UTF-8".to_string() };
    assert_eq!(bare.clone().in_brief(), "stream did not contain valid UTF-8");
    assert_eq!(bare.in_full(), "stream did not contain valid UTF-8");
    assert_eq!(
        cfctl::launcher::spawn_context_text("7", "/usr/bin/cuttlefish-fhs"),
        "spawning cuttlefish guest 7 via /usr/bin/cuttlefish-fhs"
    );
}

#[test]
fn file_steps_say_what_they_do() {
    match FileStep::create("artifacts dir", "/s/instances/3/artifacts".to_string()) {
        FileStep::CreateDirAll { path, doing } => {
            assert_eq!(path, "/s/instances/3/artifacts");
            assert_eq!(doing.as_deref(), Some("creating artifacts dir /s/instances/3/artifacts"));
        }
        other => panic!("a step that creates a directory expected, got {:?}", other),
    }
    match FileStep::trash("/cf/instances/3".to_string(), "/cf/instances/.trash-3-9-1".to_string()) {
        FileStep::Trash { path, trash, doing } => {
            assert_eq!((path.as_str(), trash.as_str()), ("/cf/instances/3", "/cf/instances/.trash-3-9-1"));
            assert_eq!(
                doing.as_deref(),
                Some("renaming /cf/instances/3 -> /cf/instances/.trash-3-9-1 before async purge")
            );
        }
        other => panic!("a step that moves a directory away expected, got {:?}", other),
    }
    match FileStep::copy("init_boot image", "/in/init.img".to_string(), "/s/init_boot.img".to_string()) {
        FileStep::Copy { from, to, doing } => {
            assert_eq!((from.as_str(), to.as_str()), ("/in/init.img", "/s/init_boot.img"));
            assert_eq!(doing.as_deref(), Some("copy init_boot image /in/init.img -> /s/init_boot.img"));
        }
        other => panic!("a step that copies a file expected, got {:?}", other),
    }
}
