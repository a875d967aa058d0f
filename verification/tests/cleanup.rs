use cfctl::cleanup::{
    collect_guest_pids, guest_process_patterns, is_trash_name, kill_open_file_holders,
    teardown, trash_name, trash_path, Cleanup, CleanupOutcome, CleanupPhase, KillGuests,
};
use cfctl::config::CfctlDaemonConfig;
use cfctl::host::{Clock, Effect, HostCall, Reply, Step, ToolOutput};

fn ran(code: Option<i32>, stdout: &str) -> Result<ToolOutput, String> {
    Ok(ToolOutput { code, status: String::new(), stdout: stdout.to_string(), stderr: String::new() })
}

fn commands(effects: &Vec<Effect>) -> Vec<String> {
    effects
        .iter()
        .map(|e| match e {
            Effect::Run(c) => format!("{} {}", c.program, c.args.join(" ")),
            Effect::Pause { millis } => format!("pause {}", millis),
            Effect::RemoveTree { path } => format!("rmtree {}", path),
            Effect::RemoveFile { path } => format!("rm {}", path),
            Effect::Trash { path, trash } => format!("trash {} {}", path, trash),
            Effect::CreateDirAll { path } => format!("mkdir {}", path),
            Effect::Detach { commands } => format!(
                "detach {}",
                commands.iter().map(|c| format!("{} {}", c.program, c.args.join(" "))).collect::<Vec<_>>().join("; ")
            ),
            Effect::WatchExit { id, token } => format!("watch {} {}", id, token),
        })
        .collect()
}

#[test]
fn outcome_counts_the_guest_as_gone_without_remaining_processes() {
    let clean = CleanupOutcome::from_parts(Vec::new(), vec!["a".to_string()]);
    assert!(clean.guest_processes_killed);
    let dirty = CleanupOutcome::from_parts(vec![5, 6], vec!["a".to_string(), "b".to_string()]);
    assert!(!dirty.guest_processes_killed);
    let summary = dirty.summary();
    assert!(!summary.guest_processes_killed);
    assert_eq!(summary.remaining_pids, vec![5, 6]);
    assert_eq!(summary.steps, vec!["a", "b"]);
}

#[test]
fn patterns_name_the_directories_of_the_instance() {
    assert_eq!(
        guest_process_patterns(7),
        vec![
            "--instance_dir=/var/lib/cuttlefish/instances/7",
            "--assembly_dir=/var/lib/cuttlefish/assembly/7",
            "/var/lib/cuttlefish/instances/7/",
            "/var/lib/cuttlefish/assembly/7/",
            "cvd-7",
        ]
    );
}

#[test]
fn trash_names_carry_time_and_process() {
    assert_eq!(trash_name("7", 1700, 42), "7.__trash__.1700.42");
    assert_eq!(trash_path("/cf/instances", 7, 0, 1), "/cf/instances/7.__trash__.0.1");
    assert!(is_trash_name("7.__trash__.1700.42"));
    assert!(!is_trash_name("7"));
    assert!(!is_trash_name("7.__trash__"));
}

#[test]
fn pids_are_collected_once_and_in_order() {
    let runs = vec![
        ran(Some(0), "30\n10\n"),
        ran(Some(1), "999\n"),
        Err("pgrep not found".to_string()),
        ran(None, "998\n"),
        ran(Some(0), " 20 \nnot a pid\n10\n\n-4\n+7\n99999999999\n"),
    ];
    assert_eq!(collect_guest_pids(&runs), vec![-4, 7, 10, 20, 30]);
    assert_eq!(collect_guest_pids(&Vec::new()), Vec::<i32>::new());
}

#[test]
fn teardown_removes_devices_directories_and_the_link() {
    assert_eq!(
        commands(&teardown(3)),
        vec![
            "ip tuntap del dev cvd-mtap-03",
            "ip tuntap del dev cvd-tap-03",
            "ip link del cvd-eth-03",
            "rmtree /tmp/cf_avd_0/cvd-3",
            "rmtree /tmp/cf_env_0/env-3",
            "rmtree /tmp/cf_img_0/cvd-3",
            "rm /var/lib/cuttlefish/.cuttlefish_config.json",
        ]
    );
    assert_eq!(commands(&teardown(12))[0], "ip tuntap del dev cvd-mtap-12");
}

#[test]
fn holders_are_killed_line_by_line() {
    assert_eq!(commands(&kill_open_file_holders(&ran(Some(0), "12\n\n  \n 34\n"))), vec!["kill -9 12", "kill -9  34"]);
    assert!(kill_open_file_holders(&ran(Some(1), "12\n")).is_empty());
    assert!(kill_open_file_holders(&Err("no lsof".to_string())).is_empty());
}

fn found(pids: &str) -> Reply {
    Reply::Tools(vec![ran(if pids.is_empty() { Some(1) } else { Some(0) }, pids)])
}

#[test]
fn kill_pass_chases_survivors_once() {
    let (op, d) = KillGuests::begin(2);
    assert_eq!(op, KillGuests::Swept { id: 2 });
    assert_eq!(
        commands(&d.effects),
        vec![
            "pkill -9 -f --instance_dir=/var/lib/cuttlefish/instances/2",
            "pkill -9 -f --assembly_dir=/var/lib/cuttlefish/assembly/2",
            "pkill -9 -f /var/lib/cuttlefish/instances/2/",
            "pkill -9 -f /var/lib/cuttlefish/assembly/2/",
            "pkill -9 -f cvd-2",
            "pause 200",
        ]
    );
    let HostCall::Tools { commands: searches } = d.call else { panic!("expected searches") };
    assert_eq!(searches.len(), 5);
    assert_eq!(searches[4].program, "pgrep");
    assert_eq!(searches[4].args, vec!["-f", "cvd-2"]);

    assert!(matches!(op.resume(found("")), Step::Done(Ok(true), _)));
    let Step::Ask(next, d) = op.resume(found("8\n6\n")) else { panic!("expected a chase") };
    assert_eq!(next, KillGuests::Chased { id: 2 });
    assert_eq!(commands(&d.effects), vec!["kill -9 6", "kill -9 8", "pause 200"]);
    assert!(matches!(next.resume(found("6\n")), Step::Done(Ok(false), _)));
    assert!(matches!(next.resume(found("")), Step::Done(Ok(true), _)));
    assert!(matches!(next.resume(Reply::Done(Ok(()))), Step::Done(Err(_), _)));
}

fn pass(remaining: &str, epoch: Option<u64>) -> (CleanupOutcome, Vec<String>) {
    let mut config = CfctlDaemonConfig::default();
    config.cuttlefish_instances_dir = "/cf/i".to_string();
    config.cuttlefish_assembly_dir = "/cf/a/".to_string();
    let clock = Clock { epoch_secs: epoch, millis: 0 };
    let (op, _) = Cleanup::begin(2);
    let Step::Ask(op, d) = op.resume(&config, 9, found(""), &clock) else { panic!("expected holders") };
    assert_eq!(op.phase, CleanupPhase::InstanceHolders);
    assert_eq!(d.effects.len(), 7);
    let HostCall::Tool(lsof) = d.call else { panic!("expected lsof") };
    assert_eq!(lsof.args, vec!["-t", "/var/lib/cuttlefish/instances/2"]);
    let Step::Ask(op, d) = op.resume(&config, 9, Reply::Tool(ran(Some(0), "55\n")), &clock) else { panic!("expected holders") };
    assert_eq!(op.phase, CleanupPhase::AssemblyHolders);
    assert_eq!(commands(&d.effects), vec!["kill -9 55"]);
    let HostCall::Tool(lsof) = d.call else { panic!("expected lsof") };
    assert_eq!(lsof.args, vec!["-t", "/var/lib/cuttlefish/assembly/2"]);
    let Step::Ask(op, _) = op.resume(&config, 9, Reply::Tool(ran(Some(1), "")), &clock) else { panic!("expected a search") };
    assert_eq!(op.phase, CleanupPhase::Collecting);
    let Step::Done(Ok(outcome), last) = op.resume(&config, 9, found(remaining), &clock) else { panic!("expected an outcome") };
    (outcome, commands(&last))
}

#[test]
fn clean_pass_moves_the_directories_away() {
    let (outcome, last) = pass("", Some(1700));
    assert!(outcome.guest_processes_killed);
    assert!(outcome.remaining_pids.is_empty());
    assert_eq!(outcome.steps.len(), 9);
    assert_eq!(
        last,
        vec![
            "trash /cf/i/2 /cf/i/2.__trash__.1700.9",
            "trash /cf/a/2 /cf/a/2.__trash__.1700.9",
            "detach chown -R justin:cvdnetwork /var/lib/cuttlefish; chmod -R g+rwX /var/lib/cuttlefish",
        ]
    );
    let (_, last) = pass("", None);
    assert_eq!(last[0], "trash /cf/i/2 /cf/i/2.__trash__.0.9");
}

#[test]
fn unclean_pass_keeps_the_directories() {
    let (outcome, last) = pass("4\n3\n", Some(1700));
    assert!(!outcome.guest_processes_killed);
    assert_eq!(outcome.remaining_pids, vec![3, 4]);
    assert_eq!(
        outcome.steps,
        vec![
            "kill_guest_processes",
            "remove_network_devices",
            "remove_ephemeral_dirs",
            "remove_cuttlefish_config_symlink",
            "kill_open_file_holders",
            "collect_guest_pids",
            "reset_permissions",
        ]
    );
    assert_eq!(last, vec!["detach chown -R justin:cvdnetwork /var/lib/cuttlefish; chmod -R g+rwX /var/lib/cuttlefish"]);
}
