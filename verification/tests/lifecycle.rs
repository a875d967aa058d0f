use std::collections::HashMap;

use cfctl::config::CfctlDaemonConfig;
use cfctl::destroy::FinishDestroy;
use cfctl::guest::{ExitStatusInfo, GuestHandle, GuestRegistry};
use cfctl::host::{
    Clock, Directive, Effect, FileStep, FinishReport, GuestSignal, HostCall, HostFailure,
    LaunchReport, LogRead, Reply, SignalReport, Step, ToolOutput,
};
use cfctl::manager::InstanceManager;
use cfctl::metadata::InstanceMetadata;
use cfctl::protocol::{
    DeployRequest, DestroyOptions, InstanceState, LogsOptions, Request, Response, StartOptions,
};
use cfctl::session::Session;
use cfctl::slots::allocate_id;
use cfctl::stop::GuestExit;

#[derive(Clone, Copy, PartialEq)]
enum Spawn {
    Runs,
    ExitsWith(i32),
    Fails,
    LogFails,
}

struct Guest {
    exit: Option<ExitStatusInfo>,
}

/// An in-memory stand-in for the machine: files, guests, tools and clocks.
struct World {
    epoch: Option<u64>,
    millis: u64,
    records: HashMap<String, InstanceMetadata>,
    texts: HashMap<String, String>,
    logs: HashMap<String, String>,
    guests: HashMap<u64, Guest>,
    next_token: u64,
    spawn: Spawn,
    term_exit: Option<ExitStatusInfo>,
    kill_works: bool,
    signals_fail: bool,
    adb_connects: bool,
    ready_serial: Option<String>,
    getprop: Option<String>,
    strays: Vec<i32>,
    strays_die: bool,
    hint: String,
    write_fails: bool,
    writes_left: Option<usize>,
    failing: Vec<&'static str>,
    finish_times_out: bool,
    calls: Vec<String>,
    watched: Vec<(u64, u64)>,
    pauses: u64,
}

fn world() -> World {
    World {
        epoch: Some(1_000),
        millis: 0,
        records: HashMap::new(),
        texts: HashMap::new(),
        logs: HashMap::new(),
        guests: HashMap::new(),
        next_token: 1,
        spawn: Spawn::Runs,
        term_exit: Some(ExitStatusInfo { code: None, signal: Some(15) }),
        kill_works: true,
        signals_fail: false,
        adb_connects: true,
        ready_serial: None,
        getprop: None,
        strays: Vec::new(),
        strays_die: true,
        hint: String::new(),
        write_fails: false,
        writes_left: None,
        failing: Vec::new(),
        finish_times_out: false,
        calls: Vec::new(),
        watched: Vec::new(),
        pauses: 0,
    }
}

fn config() -> CfctlDaemonConfig {
    let mut config = CfctlDaemonConfig::default();
    config.state_dir = "/state".to_string();
    config.etc_instances_dir = "/etc/inst".to_string();
    config.cuttlefish_fhs = "/bin/fhs".to_string();
    config.cuttlefish_instances_dir = "/cf/instances".to_string();
    config.cuttlefish_assembly_dir = "/cf/assembly".to_string();
    config.start_timeout_secs = 5;
    config.adb_wait_timeout_secs = 2;
    config.journal_lines = 20;
    config.base_adb_port = 6500;
    config
}

fn told(context: &str, cause: &str) -> HostFailure {
    HostFailure { context: Some(context.to_string()), cause: cause.to_string() }
}

fn bare(cause: &str) -> HostFailure {
    HostFailure { context: None, cause: cause.to_string() }
}

fn manager() -> InstanceManager {
    InstanceManager::new(config(), GuestRegistry::new(), 4242)
}

fn tool(code: i32, stdout: &str, stderr: &str) -> Result<ToolOutput, String> {
    Ok(ToolOutput {
        code: Some(code),
        status: format!("exit status: {}", code),
        stdout: stdout.to_string(),
        stderr: stderr.to_string(),
    })
}

impl World {
    fn clock(&self) -> Clock {
        Clock { epoch_secs: self.epoch, millis: self.millis }
    }

    fn apply(&mut self, effects: &Vec<Effect>) {
        for effect in effects {
            match effect {
                Effect::Run(command) => {
                    self.calls.push(format!("{} {}", command.program, command.args.join(" ")));
                    if self.strays_die && (command.program == "pkill" || command.program == "kill") {
                        if command.program == "pkill" {
                            self.strays.clear();
                        } else {
                            let pid: i32 = command.args[1].parse().unwrap();
                            self.strays.retain(|p| *p != pid);
                        }
                    }
                }
                Effect::Pause { millis } => {
                    self.millis += millis;
                    self.pauses += 1;
                }
                Effect::WatchExit { id, token } => self.watched.push((*id, *token)),
                Effect::Trash { path, .. } => self.calls.push(format!("trash {}", path)),
                Effect::RemoveTree { path } => self.calls.push(format!("rmtree {}", path)),
                Effect::RemoveFile { path } => self.calls.push(format!("rm {}", path)),
                Effect::CreateDirAll { path } => self.calls.push(format!("mkdir {}", path)),
                Effect::Detach { .. } => self.calls.push("detach".to_string()),
            }
        }
    }

    fn perform(&mut self, manager: &mut InstanceManager, call: HostCall) -> Reply {
        match call {
            HostCall::Settle => Reply::Done(Ok(())),
            HostCall::AllocateId => {
                let occupied: Vec<u64> = self.records.values().map(|m| m.id).collect();
                match allocate_id(&self.hint, &occupied) {
                    Ok(allocation) => {
                        self.hint = allocation.next.to_string();
                        Reply::Slot(Ok(allocation.id))
                    }
                    Err(message) => Reply::Slot(Err(message)),
                }
            }
            HostCall::ReadMetadata { path, .. } => match self.records.get(&path) {
                Some(m) => Reply::Metadata(Ok(m.clone())),
                None => Reply::Metadata(Err(format!("opening metadata file {}", path))),
            },
            HostCall::WriteMetadata { path, metadata, .. } => {
                if self.write_fails || self.writes_left == Some(0) {
                    return Reply::Done(Err(told(&format!("writing metadata tmp {}", path), "disk full")));
                }
                if let Some(left) = self.writes_left.as_mut() {
                    *left -= 1;
                }
                self.calls.push(format!("write {} {}", path, metadata.state.name()));
                self.records.insert(path, metadata);
                Reply::Done(Ok(()))
            }
            HostCall::WriteText { path, content, .. } => {
                if self.failing.contains(&"write_text") {
                    return Reply::Done(Err(bare("env file not writable")));
                }
                self.texts.insert(path, content);
                Reply::Done(Ok(()))
            }
            HostCall::Files { steps } => {
                if self.failing.contains(&"files") {
                    let doing = match steps.first() {
                        Some(FileStep::CreateDirAll { doing, .. })
                        | Some(FileStep::Trash { doing, .. })
                        | Some(FileStep::Copy { doing, .. }) => doing.clone(),
                        None => None,
                    };
                    return Reply::Done(Err(HostFailure { context: doing, cause: "read-only file system".to_string() }));
                }
                self.calls.push(format!("files {}", steps.len()));
                Reply::Done(Ok(()))
            }
            HostCall::Probe { paths } => {
                Reply::Flags(paths.iter().map(|p| self.records.contains_key(p)).collect())
            }
            HostCall::EnsureQemuDatadir => {
                if self.failing.contains(&"qemu") {
                    return Reply::Done(Err(told("creating qemu datadir", "permission denied")));
                }
                Reply::Done(Ok(()))
            }
            HostCall::Launch { plan } => {
                self.calls.push(format!("launch {}", plan.command.program));
                self.logs.insert(plan.log_path.clone(), String::new());
                match self.spawn {
                    Spawn::LogFails => Reply::Launched(LaunchReport::LogFailed(told("opening run log", "permission denied"))),
                    Spawn::Fails => Reply::Launched(LaunchReport::SpawnFailed(told(&plan.spawning, "No such file or directory"))),
                    Spawn::Runs | Spawn::ExitsWith(_) => {
                        let token = self.next_token;
                        self.next_token += 1;
                        let exit = match self.spawn {
                            Spawn::ExitsWith(code) => Some(ExitStatusInfo { code: Some(code), signal: None }),
                            _ => None,
                        };
                        if exit.is_some() {
                            self.logs.insert(plan.log_path, "first line\nlaunch failed marker\n".to_string());
                        }
                        self.guests.insert(token, Guest { exit });
                        Reply::Launched(LaunchReport::Spawned { pid: 100 + token as i32, token })
                    }
                }
            }
            HostCall::PollGuest { token } | HostCall::AwaitGuest { token, .. } => {
                if self.failing.contains(&"poll") {
                    return Reply::Guest(Err("no child processes".to_string()));
                }
                Reply::Guest(Ok(self.guests.get(&token).and_then(|g| g.exit)))
            }
            HostCall::Signal { token, signal } => {
                if self.signals_fail {
                    return Reply::Signalled(SignalReport {
                        delivered: false,
                        no_such_process: false,
                        error: "Operation not permitted".to_string(),
                    });
                }
                let term_exit = self.term_exit;
                let kill_works = self.kill_works;
                if let Some(guest) = self.guests.get_mut(&token) {
                    if guest.exit.is_none() {
                        match signal {
                            GuestSignal::Terminate => guest.exit = term_exit,
                            GuestSignal::Kill => {
                                if kill_works {
                                    guest.exit = Some(ExitStatusInfo { code: None, signal: Some(9) });
                                }
                            }
                        }
                    }
                }
                Reply::Signalled(SignalReport {
                    delivered: true,
                    no_such_process: false,
                    error: String::new(),
                })
            }
            HostCall::Tool(command) => {
                self.calls.push(format!("{} {}", command.program, command.args.join(" ")));
                if command.program == "lsof" {
                    return Reply::Tool(tool(1, "", ""));
                }
                let verb = command.args.get(2).map(|s| s.as_str()).unwrap_or("");
                match verb {
                    "connect" => {
                        if self.adb_connects {
                            Reply::Tool(tool(0, "connected", ""))
                        } else {
                            Reply::Tool(tool(1, "", "connection refused"))
                        }
                    }
                    "devices" => {
                        let mut out = "List of devices attached\n".to_string();
                        if let Some(serial) = &self.ready_serial {
                            out.push_str(&format!("{}\tdevice\n", serial));
                        }
                        Reply::Tool(tool(0, &out, ""))
                    }
                    _ => match &self.getprop {
                        Some(value) => Reply::Tool(tool(0, value, "")),
                        None => Reply::Tool(tool(1, "", "device offline")),
                    },
                }
            }
            HostCall::Tools { commands } => {
                let listing: String = self.strays.iter().map(|p| format!("{}\n", p)).collect();
                Reply::Tools(
                    commands
                        .iter()
                        .map(|_| if self.strays.is_empty() { tool(1, "", "") } else { tool(0, &listing, "") })
                        .collect(),
                )
            }
            HostCall::ReadLog { path, .. } if self.failing.contains(&"read_log") => {
                Reply::Log(LogRead::Failed(told(&format!("opening log file {}", path), "permission denied")))
            }
            HostCall::ReadLog { path, .. } => match self.logs.get(&path) {
                Some(text) => Reply::Log(LogRead::Content { text: text.clone(), clipped: false }),
                None => Reply::Log(LogRead::Missing),
            },
            HostCall::ListDirs { .. } => {
                let mut names: Vec<String> = self.records.values().map(|m| m.id.to_string()).collect();
                names.sort();
                names.push("not-a-number".to_string());
                Reply::Dirs(Ok(Some(names)))
            }
            HostCall::ReadRecords { paths } => Reply::Records(
                paths
                    .iter()
                    .map(|p| match self.records.get(p) {
                        Some(m) => Ok(m.clone()),
                        None => Err(format!("opening metadata file {}", p)),
                    })
                    .collect(),
            ),
            HostCall::FinishDestroy { id, .. } => {
                if self.finish_times_out {
                    return Reply::Finish(FinishReport::TimedOut);
                }
                if self.failing.contains(&"finish_lost") {
                    return Reply::Finish(FinishReport::Lost("receiving on a closed channel".to_string()));
                }
                if self.failing.contains(&"finish_failed") {
                    return Reply::Finish(FinishReport::Failed("disk full".to_string()));
                }
                let (mut op, mut directive) = FinishDestroy::begin(id);
                loop {
                    let Directive { effects, call } = directive;
                    self.apply(&effects);
                    let reply = self.perform(manager, call);
                    match op.resume(manager, reply, &self.clock()) {
                        Step::Ask(next, d) => {
                            op = next;
                            directive = d;
                        }
                        Step::Done(Ok(outcome), last) => {
                            self.apply(&last);
                            return Reply::Finish(FinishReport::Finished(outcome));
                        }
                        Step::Done(Err(e), _) => return Reply::Finish(FinishReport::Failed(e)),
                    }
                }
            }
            HostCall::RemoveArtifacts { env_file, root } => {
                self.calls.push(format!("remove {}", root));
                self.texts.remove(&env_file);
                self.records.remove(&format!("{}/metadata.json", root));
                Reply::Done(Ok(()))
            }
        }
    }

    fn serve(&mut self, manager: &mut InstanceManager, request: Request) -> Response {
        let mut step = manager.handle(request, &self.clock());
        loop {
            match step {
                Step::Ask(session, directive) => {
                    let Directive { effects, call } = directive;
                    self.apply(&effects);
                    let reply = self.perform(manager, call);
                    step = Session::resume(session, manager, reply, &self.clock());
                }
                Step::Done(response, last) => {
                    self.apply(&last);
                    return response;
                }
            }
        }
    }

    fn guest_exited(&mut self, manager: &mut InstanceManager, id: u64, token: u64, exit: ExitStatusInfo) {
        let mut step = GuestExit::begin(manager, id, token, exit, &self.clock());
        loop {
            match step {
                Step::Ask(op, directive) => {
                    let Directive { effects, call } = directive;
                    self.apply(&effects);
                    let reply = self.perform(manager, call);
                    step = op.resume(manager, reply, &self.clock());
                }
                Step::Done(_, last) => {
                    self.apply(&last);
                    return;
                }
            }
        }
    }

    fn launches(&self) -> usize {
        self.calls.iter().filter(|c| c.starts_with("launch ")).count()
    }
}

fn skip_wait() -> StartOptions {
    StartOptions { skip_adb_wait: true, ..StartOptions::default() }
}

fn create(world: &mut World, manager: &mut InstanceManager) -> u64 {
    let response = world.serve(manager, Request::CreateInstance { purpose: Some("test".to_string()) });
    assert!(response.ok, "create failed: {:?}", response);
    response.create.unwrap().summary.id
}

fn state_of(world: &mut World, manager: &mut InstanceManager, id: u64) -> InstanceState {
    let response = world.serve(manager, Request::Status { id });
    assert!(response.ok, "status failed: {:?}", response);
    response.action.unwrap().summary.state
}

fn error_of(response: &Response) -> (String, String) {
    assert!(!response.ok);
    let detail = response.error.clone().expect("an error with a code");
    (detail.code, detail.message.unwrap_or_default())
}

#[test]
fn create_writes_the_initial_record() {
    let (mut w, mut m) = (world(), manager());
    let response = w.serve(&mut m, Request::CreateInstance { purpose: Some("demo".to_string()) });
    assert!(response.ok);
    let summary = response.create.unwrap().summary;
    assert_eq!(summary.id, 1);
    assert_eq!(summary.state, InstanceState::Created);
    let adb = summary.adb.unwrap();
    assert_eq!(adb.host, "127.0.0.1");
    assert_eq!(adb.port, 6500);
    assert_eq!(adb.serial, "127.0.0.1:6500");
    let record = w.records.get("/state/instances/1/metadata.json").unwrap();
    assert_eq!(record.purpose.as_deref(), Some("demo"));
    assert_eq!(record.created_at, 1_000);
    assert_eq!(record.updated_at, 1_000);
    assert!(!record.held);
    assert_eq!(
        w.texts.get("/etc/inst/1.env").map(|s| s.as_str()),
        Some(
            "# Autogenerated by cfctl at 1000\nCUTTLEFISH_BOOT_IMAGE=/var/lib/cuttlefish/images/boot.img\nCUTTLEFISH_INIT_BOOT_IMAGE=/var/lib/cuttlefish/images/init_boot.img\nCUTTLEFISH_BASE_INSTANCE_NUM=1\nCUTTLEFISH_ADB_TCP_PORT=6500\n"
        )
    );
    assert_eq!(w.hint, "2");
    let second = create(&mut w, &mut m);
    assert_eq!(second, 2);
}

#[test]
fn start_without_wait_ends_running_and_watches_the_guest() {
    let (mut w, mut m) = (world(), manager());
    let id = create(&mut w, &mut m);
    let response = w.serve(&mut m, Request::StartInstance { id, options: skip_wait() });
    assert!(response.ok, "{:?}", response);
    assert_eq!(response.action.unwrap().summary.state, InstanceState::Running);
    assert_eq!(state_of(&mut w, &mut m, id), InstanceState::Running);
    assert_eq!(w.records.get("/state/instances/1/metadata.json").unwrap().state, InstanceState::Running);
    assert_eq!(w.watched, vec![(id, 1)]);
    assert_eq!(m.guest_registry.get(id), Some(1));
    assert_eq!(w.launches(), 1);
}

#[test]
fn start_with_wait_ends_running_once_the_device_is_listed() {
    let (mut w, mut m) = (world(), manager());
    let id = create(&mut w, &mut m);
    w.ready_serial = Some("127.0.0.1:6500".to_string());
    let response = w.serve(&mut m, Request::StartInstance { id, options: StartOptions::default() });
    assert!(response.ok, "{:?}", response);
    assert_eq!(state_of(&mut w, &mut m, id), InstanceState::Running);
    assert_ne!(state_of(&mut w, &mut m, id), InstanceState::Starting);
    assert_eq!(w.watched, vec![(id, 1)]);
    assert!(w.calls.contains(&"/bin/fhs -- adb connect 0.0.0.0:6500".to_string()));
    assert!(w.calls.contains(&"/bin/fhs -- adb devices".to_string()));
}

#[test]
fn start_with_boot_verification_reports_the_marker() {
    let (mut w, mut m) = (world(), manager());
    let id = create(&mut w, &mut m);
    w.ready_serial = Some("0.0.0.0:6500".to_string());
    w.getprop = Some("1\n".to_string());
    let options = StartOptions { verify_boot: true, ..StartOptions::default() };
    let response = w.serve(&mut m, Request::StartInstance { id, options });
    assert!(response.ok, "{:?}", response);
    let action = response.action.unwrap();
    let verification = action.verification.unwrap();
    assert!(verification.adb_ready);
    assert!(verification.boot_marker_observed);
    assert_eq!(verification.failure_reason, None);
    assert!(w
        .calls
        .contains(&"/bin/fhs -- adb -s 0.0.0.0:6500 shell getprop VIRTUAL_DEVICE_BOOT_COMPLETED".to_string()));
    assert_eq!(state_of(&mut w, &mut m, id), InstanceState::Running);
}

#[test]
fn boot_verification_falls_back_to_the_logs() {
    let (mut w, mut m) = (world(), manager());
    let id = create(&mut w, &mut m);
    w.ready_serial = Some("127.0.0.1:6500".to_string());
    w.getprop = None;
    w.logs.insert(
        "/cf/instances/1/instances/cvd-1/console_log".to_string(),
        "booting\nVIRTUAL_DEVICE_BOOT_COMPLETED\n".to_string(),
    );
    let options = StartOptions { verify_boot: true, ..StartOptions::default() };
    let response = w.serve(&mut m, Request::StartInstance { id, options });
    assert!(response.ok, "{:?}", response);
    assert!(response.action.unwrap().verification.unwrap().boot_marker_observed);
}

#[test]
fn boot_verification_gives_up_with_the_last_value_quoted() {
    let (mut w, mut m) = (world(), manager());
    let id = create(&mut w, &mut m);
    w.ready_serial = Some("127.0.0.1:6500".to_string());
    w.getprop = Some(" 0\n".to_string());
    let options = StartOptions { verify_boot: true, timeout_secs: Some(3), ..StartOptions::default() };
    let response = w.serve(&mut m, Request::StartInstance { id, options });
    let (code, message) = error_of(&response);
    assert_eq!(code, "verify_boot_marker_missing");
    assert_eq!(
        message,
        "VIRTUAL_DEVICE_BOOT_COMPLETED not observed for instance 1 (last value: \"0\")"
    );
    // Verification is advisory: the guest is left alone and stays registered.
    assert!(m.guest_registry.contains(id));
    assert_eq!(w.guests.get(&1).unwrap().exit, None);
}

#[test]
fn start_rejects_options_that_exclude_each_other() {
    let (mut w, mut m) = (world(), manager());
    let id = create(&mut w, &mut m);
    let options = StartOptions { verify_boot: true, skip_adb_wait: true, ..StartOptions::default() };
    let response = w.serve(&mut m, Request::StartInstance { id, options });
    let (code, message) = error_of(&response);
    assert_eq!(code, "start_instance_invalid_options");
    assert_eq!(message, "cannot use both skip_adb_wait and verify_boot (boot verification requires ADB)");
    assert_eq!(w.launches(), 0);
    assert_eq!(state_of(&mut w, &mut m, id), InstanceState::Created);
}

#[test]
fn start_rejects_an_instance_that_already_runs() {
    let (mut w, mut m) = (world(), manager());
    let id = create(&mut w, &mut m);
    assert!(w.serve(&mut m, Request::StartInstance { id, options: skip_wait() }).ok);
    let again = w.serve(&mut m, Request::StartInstance { id, options: skip_wait() });
    let (code, message) = error_of(&again);
    assert_eq!(code, "start_instance_already_running");
    assert_eq!(message, "instance 1 already running");
    assert_eq!(w.launches(), 1);
    assert_eq!(state_of(&mut w, &mut m, id), InstanceState::Running);
}

#[test]
fn start_marks_the_instance_failed_when_the_spawn_fails() {
    let (mut w, mut m) = (world(), manager());
    let id = create(&mut w, &mut m);
    w.spawn = Spawn::Fails;
    let response = w.serve(&mut m, Request::StartInstance { id, options: skip_wait() });
    let (code, message) = error_of(&response);
    assert_eq!(code, "start_instance_spawn_failed");
    assert_eq!(message, "launching cuttlefish guest: spawning cuttlefish guest 1 via /bin/fhs: No such file or directory");
    assert!(!m.guest_registry.contains(id));
    assert_eq!(state_of(&mut w, &mut m, id), InstanceState::Failed);
    w.spawn = Spawn::LogFails;
    let response = w.serve(&mut m, Request::StartInstance { id, options: skip_wait() });
    assert_eq!(error_of(&response).0, "start_instance_prepare_log");
}

#[test]
fn start_of_an_unknown_instance_fails_on_its_record() {
    let (mut w, mut m) = (world(), manager());
    let response = w.serve(&mut m, Request::StartInstance { id: 9, options: skip_wait() });
    let (code, message) = error_of(&response);
    assert_eq!(code, "start_instance_metadata");
    assert_eq!(message, "opening metadata file /state/instances/9/metadata.json");
}

#[test]
fn wait_for_adb_returns_error_when_guest_exits_quickly() {
    let (mut w, mut m) = (world(), manager());
    let id = create(&mut w, &mut m);
    let mut starting = w.records.get("/state/instances/1/metadata.json").unwrap().clone();
    starting.state = InstanceState::Starting;
    w.records.insert("/state/instances/1/metadata.json".to_string(), starting.clone());
    m.remember(id, &starting);
    w.logs.insert("/state/instances/1/cfctl-run.log".to_string(), "first line\nlaunch failed marker\n".to_string());
    w.guests.insert(7, Guest { exit: Some(ExitStatusInfo { code: Some(42), signal: None }) });
    m.guest_registry.insert(id, &GuestHandle::new(107, 7));

    let response = w.serve(&mut m, Request::WaitForAdb { id, timeout_secs: Some(2) });
    let (code, message) = error_of(&response);
    assert_eq!(code, "wait_for_adb_guest_exit");
    assert!(message.contains("exited before adb became ready"), "unexpected message: {message}");
    assert!(message.contains("cfctl-run.log tail"), "log tail missing from message: {message}");
    assert!(message.contains("launch failed marker"), "log content missing: {message}");
    assert_eq!(
        message,
        "cfctl-run.log tail:\nfirst line\nlaunch failed marker: instance 1 exited before adb became ready (exit code 42)"
    );
    assert_eq!(state_of(&mut w, &mut m, id), InstanceState::Failed);
    assert_eq!(w.records.get("/state/instances/1/metadata.json").unwrap().state, InstanceState::Failed);
    assert!(!m.guest_registry.contains(id), "child should be reaped");
}

#[test]
fn a_start_fails_when_its_guest_exits_at_once() {
    let (mut w, mut m) = (world(), manager());
    let id = create(&mut w, &mut m);
    w.spawn = Spawn::ExitsWith(42);
    let response = w.serve(&mut m, Request::StartInstance { id, options: StartOptions { timeout_secs: Some(2), ..StartOptions::default() } });
    let (code, message) = error_of(&response);
    assert_eq!(code, "wait_for_adb_guest_exit");
    assert_eq!(
        message,
        "cfctl-run.log tail:\nfirst line\nlaunch failed marker: instance 1 exited before adb became ready (exit code 42)"
    );
    assert_eq!(state_of(&mut w, &mut m, id), InstanceState::Failed);
    assert_eq!(w.records.get("/state/instances/1/metadata.json").unwrap().state, InstanceState::Failed);
    assert!(!m.guest_registry.contains(id));
}

#[test]
fn wait_for_adb_times_out_when_adb_never_appears() {
    let (mut w, mut m) = (world(), manager());
    let id = create(&mut w, &mut m);
    assert!(w.serve(&mut m, Request::StartInstance { id, options: skip_wait() }).ok);
    w.logs.insert("/state/instances/1/cfctl-run.log".to_string(), "still booting\n".to_string());
    let response = w.serve(&mut m, Request::WaitForAdb { id, timeout_secs: Some(0) });
    let (code, message) = error_of(&response);
    assert_eq!(code, "wait_for_adb_timeout");
    assert!(message.contains("timeout waiting for adb"), "timeout message missing: {message}");
    assert!(message.contains("cfctl-run.log tail"), "log tail missing from timeout message: {message}");
    assert_eq!(
        message,
        "cfctl-run.log tail:\nstill booting: timeout waiting for adb device 127.0.0.1:6500"
    );
    assert_eq!(state_of(&mut w, &mut m, id), InstanceState::Failed);
    assert!(w.guests.get(&1).unwrap().exit.is_some(), "timeout path should terminate the child");
    assert!(!m.guest_registry.contains(id));
}

#[test]
fn wait_retries_until_the_deadline() {
    let (mut w, mut m) = (world(), manager());
    let id = create(&mut w, &mut m);
    assert!(w.serve(&mut m, Request::StartInstance { id, options: skip_wait() }).ok);
    w.adb_connects = false;
    let (pauses, millis) = (w.pauses, w.millis);
    let response = w.serve(&mut m, Request::WaitForAdb { id, timeout_secs: Some(3) });
    let (code, message) = error_of(&response);
    assert_eq!(code, "wait_for_adb_timeout");
    // The run log was truncated at the launch and is still empty.
    assert_eq!(
        message,
        "cfctl-run.log tail:\n: timeout waiting for adb on 127.0.0.1:6500: adb connect returned exit status: 1: connection refused"
    );
    // Three rounds fail before the deadline of three seconds, one second apart.
    assert_eq!(w.pauses - pauses, 3);
    assert_eq!(w.millis - millis, 3_000);
}

#[test]
fn wait_without_a_guest_reports_the_lost_handle() {
    let (mut w, mut m) = (world(), manager());
    let id = create(&mut w, &mut m);
    let response = w.serve(&mut m, Request::WaitForAdb { id, timeout_secs: Some(1) });
    let (code, message) = error_of(&response);
    assert_eq!(code, "wait_for_adb_handle_lost");
    assert_eq!(message, "instance 1 lost guest handle before adb became ready");
    assert_eq!(state_of(&mut w, &mut m, id), InstanceState::Failed);
}

#[test]
fn a_failure_that_cannot_be_recorded_says_so() {
    let (mut w, mut m) = (world(), manager());
    let id = create(&mut w, &mut m);
    w.write_fails = true;
    let response = w.serve(&mut m, Request::WaitForAdb { id, timeout_secs: Some(1) });
    let (code, message) = error_of(&response);
    assert_eq!(code, "wait_for_adb_handle_lost");
    assert_eq!(
        message,
        "instance 1 lost guest handle and record failed: writing metadata tmp /state/instances/1/metadata.json: disk full"
    );
}

#[test]
fn a_timeout_leaves_the_handle_when_the_guest_cannot_be_signalled() {
    let (mut w, mut m) = (world(), manager());
    let id = create(&mut w, &mut m);
    assert!(w.serve(&mut m, Request::StartInstance { id, options: skip_wait() }).ok);
    w.signals_fail = true;
    let response = w.serve(&mut m, Request::WaitForAdb { id, timeout_secs: Some(0) });
    assert_eq!(error_of(&response).0, "wait_for_adb_timeout");
    assert!(m.guest_registry.contains(id));
}

#[test]
fn end_to_end_create_start_stop_destroy() {
    let (mut w, mut m) = (world(), manager());
    w.term_exit = Some(ExitStatusInfo { code: Some(0), signal: None });
    let id = create(&mut w, &mut m);
    assert!(w.serve(&mut m, Request::StartInstance { id, options: skip_wait() }).ok);
    assert_eq!(state_of(&mut w, &mut m, id), InstanceState::Running);

    let stopped = w.serve(&mut m, Request::StopInstance { id });
    assert!(stopped.ok, "{:?}", stopped);
    let action = stopped.action.unwrap();
    assert_eq!(action.summary.state, InstanceState::Stopped);
    let cleanup = action.cleanup.unwrap();
    assert!(cleanup.guest_processes_killed);
    assert!(cleanup.remaining_pids.is_empty());
    assert_eq!(
        cleanup.steps,
        vec![
            "kill_guest_processes",
            "remove_network_devices",
            "remove_ephemeral_dirs",
            "remove_cuttlefish_config_symlink",
            "kill_open_file_holders",
            "collect_guest_pids",
            "trash_instance_dir",
            "trash_assembly_dir",
            "reset_permissions",
        ]
    );
    assert_eq!(state_of(&mut w, &mut m, id), InstanceState::Stopped);
    assert!(!m.guest_registry.contains(id));

    let destroyed = w.serve(&mut m, Request::DestroyInstance { id, options: DestroyOptions::default() });
    assert!(destroyed.ok, "{:?}", destroyed);
    let action = destroyed.action.unwrap();
    assert_eq!(action.summary.state, InstanceState::Destroyed);
    assert!(action.summary.adb.is_none());
    assert!(action.cleanup.unwrap().guest_processes_killed);
    assert!(w.records.is_empty());
    assert!(w.texts.is_empty());

    let listed = w.serve(&mut m, Request::ListInstances);
    assert!(listed.ok);
    assert!(listed.instances.unwrap().iter().all(|s| s.id != id));
}

#[test]
fn stop_reports_failed_after_an_exit_that_was_not_clean() {
    let (mut w, mut m) = (world(), manager());
    let id = create(&mut w, &mut m);
    assert!(w.serve(&mut m, Request::StartInstance { id, options: skip_wait() }).ok);
    let stopped = w.serve(&mut m, Request::StopInstance { id });
    assert!(stopped.ok);
    assert_eq!(stopped.action.unwrap().summary.state, InstanceState::Failed);
    assert_eq!(state_of(&mut w, &mut m, id), InstanceState::Failed);
}

#[test]
fn stop_escalates_to_the_forced_signal() {
    let (mut w, mut m) = (world(), manager());
    let id = create(&mut w, &mut m);
    assert!(w.serve(&mut m, Request::StartInstance { id, options: skip_wait() }).ok);
    w.term_exit = None;
    let stopped = w.serve(&mut m, Request::StopInstance { id });
    assert!(stopped.ok);
    assert_eq!(w.guests.get(&1).unwrap().exit, Some(ExitStatusInfo { code: None, signal: Some(9) }));
    assert_eq!(stopped.action.unwrap().summary.state, InstanceState::Failed);
    assert!(!m.guest_registry.contains(id));
}

#[test]
fn stop_is_failed_when_processes_survive_the_teardown() {
    let (mut w, mut m) = (world(), manager());
    w.term_exit = Some(ExitStatusInfo { code: Some(0), signal: None });
    let id = create(&mut w, &mut m);
    assert!(w.serve(&mut m, Request::StartInstance { id, options: skip_wait() }).ok);
    w.strays = vec![77, 31];
    w.strays_die = false;
    let stopped = w.serve(&mut m, Request::StopInstance { id });
    assert!(stopped.ok);
    let action = stopped.action.unwrap();
    assert_eq!(action.summary.state, InstanceState::Failed);
    let cleanup = action.cleanup.unwrap();
    assert!(!cleanup.guest_processes_killed);
    assert_eq!(cleanup.remaining_pids, vec![31, 77]);
    assert!(!cleanup.steps.contains(&"trash_instance_dir".to_string()));
    assert!(!w.calls.iter().any(|c| c.starts_with("trash ")));
    assert!(w.calls.contains(&"kill -9 31".to_string()));
    assert!(w.calls.contains(&"kill -9 77".to_string()));
    assert_eq!(state_of(&mut w, &mut m, id), InstanceState::Failed);
}

#[test]
fn end_to_end_guest_that_exits_at_once() {
    let (mut w, mut m) = (world(), manager());
    let id = create(&mut w, &mut m);
    w.spawn = Spawn::ExitsWith(3);
    let response = w.serve(&mut m, Request::StartInstance { id, options: StartOptions::default() });
    let (code, message) = error_of(&response);
    assert_eq!(code, "wait_for_adb_guest_exit");
    assert!(message.ends_with("instance 1 exited before adb became ready (exit code 3)"));
    assert_eq!(state_of(&mut w, &mut m, id), InstanceState::Failed);
}

#[test]
fn create_start_starts_the_new_instance() {
    let (mut w, mut m) = (world(), manager());
    let response = w.serve(&mut m, Request::CreateStartInstance { purpose: None, options: skip_wait() });
    assert!(response.ok, "{:?}", response);
    let summary = response.action.unwrap().summary;
    assert_eq!(summary.id, 1);
    assert_eq!(summary.state, InstanceState::Running);
    // A start that fails leaves the instance in place.
    w.spawn = Spawn::Fails;
    let response = w.serve(&mut m, Request::CreateStartInstance { purpose: None, options: skip_wait() });
    assert_eq!(error_of(&response).0, "start_instance_spawn_failed");
    assert_eq!(state_of(&mut w, &mut m, 2), InstanceState::Failed);
}

#[test]
fn create_start_reports_a_failed_creation() {
    let (mut w, mut m) = (world(), manager());
    w.write_fails = true;
    let response = w.serve(&mut m, Request::CreateStartInstance { purpose: None, options: skip_wait() });
    let (code, message) = error_of(&response);
    assert_eq!(code, "create_start_create_failed");
    assert_eq!(message, "writing metadata tmp /state/instances/1/metadata.json");
    assert_eq!(w.launches(), 0);
}

#[test]
fn destroy_keeps_the_instance_while_processes_remain() {
    let (mut w, mut m) = (world(), manager());
    let id = create(&mut w, &mut m);
    w.strays = vec![501];
    w.strays_die = false;
    let response = w.serve(&mut m, Request::DestroyInstance { id, options: DestroyOptions::default() });
    let (code, message) = error_of(&response);
    assert_eq!(code, "destroy_incomplete");
    assert_eq!(message, "guest processes still running for 1: [501]");
    assert!(!w.calls.iter().any(|c| c.starts_with("remove ")));
    let record = w.records.get("/state/instances/1/metadata.json").expect("the record is kept");
    assert_eq!(record.state, InstanceState::Failed);
    assert!(w.texts.contains_key("/etc/inst/1.env"));

    // Once the processes are gone a repeated destroy removes the instance.
    w.strays_die = true;
    let response = w.serve(&mut m, Request::DestroyInstance { id, options: DestroyOptions::default() });
    assert!(response.ok, "{:?}", response);
    assert!(w.calls.contains(&"remove /state/instances/1".to_string()));
    assert!(w.records.is_empty());
    assert!(w.texts.is_empty());
}

#[test]
fn destroy_reports_a_timeout() {
    let (mut w, mut m) = (world(), manager());
    let id = create(&mut w, &mut m);
    w.finish_times_out = true;
    let response = w.serve(&mut m, Request::DestroyInstance { id, options: DestroyOptions { timeout_secs: Some(1) } });
    let (code, message) = error_of(&response);
    assert_eq!(code, "destroy_timeout");
    assert_eq!(message, "destroy 1 exceeded timeout");
    assert_eq!(w.records.get("/state/instances/1/metadata.json").unwrap().state, InstanceState::Destroyed);
}

#[test]
fn destroy_of_an_unknown_instance_succeeds() {
    let (mut w, mut m) = (world(), manager());
    let response = w.serve(&mut m, Request::DestroyInstance { id: 5, options: DestroyOptions::default() });
    assert!(response.ok, "{:?}", response);
    assert_eq!(response.action.unwrap().summary.state, InstanceState::Destroyed);
    assert!(!w.calls.iter().any(|c| c.starts_with("write ")));
}

#[test]
fn hold_exempts_an_instance_from_pruning() {
    let (mut w, mut m) = (world(), manager());
    let old = create(&mut w, &mut m);
    let held = create(&mut w, &mut m);
    w.epoch = Some(1_010);
    let response = w.serve(&mut m, Request::HoldInstance { id: held });
    assert!(response.ok);
    assert!(w.records.get("/state/instances/2/metadata.json").unwrap().held);
    assert_eq!(w.records.get("/state/instances/2/metadata.json").unwrap().updated_at, 1_010);
    w.epoch = Some(100_000);
    let fresh = create(&mut w, &mut m);

    let response = w.serve(&mut m, Request::PruneExpired { max_age_secs: 3_600 });
    assert!(response.ok);
    assert_eq!(response.message.as_deref(), Some("pruned 1 expired instances"));
    assert!(!w.records.contains_key("/state/instances/1/metadata.json"));
    assert!(w.records.contains_key("/state/instances/2/metadata.json"));
    assert!(w.records.contains_key("/state/instances/3/metadata.json"));
    assert_eq!(state_of(&mut w, &mut m, held), InstanceState::Created);
    assert_eq!((old, held, fresh), (1, 2, 3));

    let response = w.serve(&mut m, Request::PruneAll);
    assert!(response.ok);
    assert_eq!(response.message.as_deref(), Some("pruned 1 instances"));
    assert!(w.records.contains_key("/state/instances/2/metadata.json"));
    assert!(!w.records.contains_key("/state/instances/3/metadata.json"));
}

#[test]
fn pruning_everything_counts_no_held_instance() {
    let (mut w, mut m) = (world(), manager());
    let held = create(&mut w, &mut m);
    assert!(w.serve(&mut m, Request::HoldInstance { id: held }).ok);
    let response = w.serve(&mut m, Request::PruneAll);
    assert!(response.ok);
    assert_eq!(response.message.as_deref(), Some("pruned 0 instances"));
    assert!(w.records.contains_key("/state/instances/1/metadata.json"));
}

#[test]
fn prune_counts_instances_that_could_not_be_cleaned() {
    let (mut w, mut m) = (world(), manager());
    create(&mut w, &mut m);
    create(&mut w, &mut m);
    w.strays = vec![9];
    w.strays_die = false;
    let response = w.serve(&mut m, Request::PruneAll);
    assert!(response.ok);
    assert_eq!(response.message.as_deref(), Some("pruned 0 instances; 2 still running"));
    assert_eq!(w.records.len(), 2);
}

#[test]
fn list_is_sorted_and_leaves_destroyed_instances_out() {
    let (mut w, mut m) = (world(), manager());
    for _ in 0..11 {
        create(&mut w, &mut m);
    }
    w.records.get_mut("/state/instances/3/metadata.json").unwrap().state = InstanceState::Destroyed;
    let response = w.serve(&mut m, Request::ListInstances);
    assert!(response.ok);
    let ids: Vec<u64> = response.instances.unwrap().iter().map(|s| s.id).collect();
    assert_eq!(ids, vec![1, 2, 4, 5, 6, 7, 8, 9, 10, 11]);
}

#[test]
fn ids_are_recycled_after_a_destroy() {
    let (mut w, mut m) = (world(), manager());
    for _ in 0..99 {
        create(&mut w, &mut m);
    }
    let full = w.serve(&mut m, Request::CreateInstance { purpose: None });
    assert_eq!(
        error_of(&full),
        ("create_instance_failed".to_string(), "no available instance slots (1-99)".to_string())
    );
    assert!(full.message.is_none());
    assert!(w.serve(&mut m, Request::DestroyInstance { id: 57, options: DestroyOptions::default() }).ok);
    assert_eq!(create(&mut w, &mut m), 57);
}

#[test]
fn deploy_points_the_record_at_the_copies() {
    let (mut w, mut m) = (world(), manager());
    let id = create(&mut w, &mut m);
    w.epoch = Some(2_000);
    let request = DeployRequest { id, boot_image: Some("/tmp/new-boot.img".to_string()), init_boot_image: None };
    let response = w.serve(&mut m, Request::Deploy(request));
    assert!(response.ok);
    assert_eq!(response.message.as_deref(), Some("deploy updated"));
    let record = w.records.get("/state/instances/1/metadata.json").unwrap();
    assert_eq!(record.boot_image, "/state/instances/1/artifacts/boot.img");
    assert_eq!(record.init_boot_image, "/var/lib/cuttlefish/images/init_boot.img");
    assert_eq!(record.state, InstanceState::Created);
    assert_eq!(record.updated_at, 2_000);
    assert!(w.texts.get("/etc/inst/1.env").unwrap().contains("CUTTLEFISH_BOOT_IMAGE=/state/instances/1/artifacts/boot.img\n"));
}

#[test]
fn logs_return_the_tail_of_the_run_log() {
    let (mut w, mut m) = (world(), manager());
    let id = create(&mut w, &mut m);
    w.logs.insert("/state/instances/1/cfctl-run.log".to_string(), "a\nb\nc\n".to_string());
    let response = w.serve(&mut m, Request::Logs { id, lines: Some(2), options: LogsOptions::default() });
    assert!(response.ok);
    let logs = response.logs.unwrap();
    assert_eq!(logs.journal.as_deref(), Some("b\nc"));
    assert_eq!(
        logs.console_log_path.as_deref(),
        Some("/var/lib/cuttlefish/instances/1/instances/cvd-1/console_log")
    );
    let expired = w.serve(&mut m, Request::Logs { id, lines: None, options: LogsOptions { timeout_secs: Some(0), stream_stdout: false } });
    let (code, message) = error_of(&expired);
    assert_eq!(code, "logs_timeout");
    assert_eq!(message, "timeout expired before logs retrieved");
    let none = w.serve(&mut m, Request::Logs { id: 2, lines: None, options: LogsOptions::default() });
    assert!(none.ok);
    assert_eq!(none.logs.unwrap().journal, None);
}

#[test]
fn describe_attaches_the_run_log() {
    let (mut w, mut m) = (world(), manager());
    let id = create(&mut w, &mut m);
    w.logs.insert("/state/instances/1/cfctl-run.log".to_string(), "one\ntwo\nthree".to_string());
    let response = w.serve(&mut m, Request::Describe { id, run_log_lines: Some(1) });
    assert!(response.ok);
    let action = response.action.unwrap();
    assert_eq!(action.journal_tail.as_deref(), Some("three"));
    assert_eq!(action.summary.state, InstanceState::Created);
}

#[test]
fn status_of_an_unknown_instance_is_an_error_with_a_code() {
    let (mut w, mut m) = (world(), manager());
    let response = w.serve(&mut m, Request::Status { id: 4 });
    assert_eq!(
        error_of(&response),
        ("status_failed".to_string(), "opening metadata file /state/instances/4/metadata.json".to_string())
    );
    assert!(response.message.is_none());
    let response = w.serve(&mut m, Request::Describe { id: 4, run_log_lines: None });
    assert_eq!(error_of(&response).0, "describe_failed");
    let response = w.serve(&mut m, Request::StopInstance { id: 4 });
    assert_eq!(error_of(&response).0, "stop_instance_failed");
    let response = w.serve(&mut m, Request::HoldInstance { id: 4 });
    assert_eq!(error_of(&response).0, "hold_instance_failed");
    let response = w.serve(&mut m, Request::Deploy(DeployRequest { id: 4, boot_image: None, init_boot_image: None }));
    assert_eq!(error_of(&response).0, "deploy_failed");
}

#[test]
fn a_guest_that_dies_on_its_own_moves_the_instance() {
    let (mut w, mut m) = (world(), manager());
    let id = create(&mut w, &mut m);
    assert!(w.serve(&mut m, Request::StartInstance { id, options: skip_wait() }).ok);
    w.guest_exited(&mut m, id, 1, ExitStatusInfo { code: Some(0), signal: None });
    assert_eq!(state_of(&mut w, &mut m, id), InstanceState::Stopped);
    assert!(!m.guest_registry.contains(id));

    assert!(w.serve(&mut m, Request::StartInstance { id, options: skip_wait() }).ok);
    // A watcher of the first guest does not evict the handle of the second.
    w.guest_exited(&mut m, id, 1, ExitStatusInfo { code: Some(1), signal: None });
    assert_eq!(m.guest_registry.get(id), Some(2));
    w.guest_exited(&mut m, id, 2, ExitStatusInfo { code: None, signal: Some(11) });
    assert_eq!(state_of(&mut w, &mut m, id), InstanceState::Failed);
}

#[test]
fn every_response_carries_exactly_one_payload() {
    let (mut w, mut m) = (world(), manager());
    let id = create(&mut w, &mut m);
    let requests = vec![
        Request::CreateInstance { purpose: None },
        Request::StartInstance { id, options: skip_wait() },
        Request::Status { id },
        Request::Status { id: 50 },
        Request::HoldInstance { id },
        Request::Logs { id, lines: None, options: LogsOptions::default() },
        Request::ListInstances,
        Request::StopInstance { id },
        Request::PruneExpired { max_age_secs: 10 },
        Request::DestroyInstance { id, options: DestroyOptions::default() },
        Request::PruneAll,
    ];
    for request in requests {
        let label = cfctl::protocol::describe_request(&request);
        let r = w.serve(&mut m, request);
        let populated = [
            r.message.is_some(),
            r.create.is_some(),
            r.action.is_some(),
            r.logs.is_some(),
            r.instances.is_some(),
            r.error.is_some(),
        ];
        assert_eq!(populated.iter().filter(|p| **p).count(), 1, "payloads of {}", label);
    }
}

fn started(w: &mut World, m: &mut InstanceManager) -> u64 {
    let id = create(w, m);
    assert!(w.serve(m, Request::StartInstance { id, options: skip_wait() }).ok);
    id
}

#[test]
fn each_step_of_a_start_fails_under_its_own_code() {
    let attempt = |prepare: &dyn Fn(&mut World), options: StartOptions| {
        let (mut w, mut m) = (world(), manager());
        let id = create(&mut w, &mut m);
        prepare(&mut w);
        let response = w.serve(&mut m, Request::StartInstance { id, options });
        (error_of(&response), w.launches())
    };
    let ((code, message), launches) = attempt(&|w| w.epoch = None, skip_wait());
    assert_eq!((code.as_str(), launches), ("start_instance_timestamp", 0));
    assert_eq!(message, "system clock is set before the epoch");
    let ((code, _), launches) = attempt(&|w| w.write_fails = true, skip_wait());
    assert_eq!((code.as_str(), launches), ("start_instance_write_metadata", 0));
    let ((code, message), launches) = attempt(&|w| w.failing.push("write_text"), skip_wait());
    assert_eq!((code.as_str(), launches), ("start_instance_write_env", 0));
    assert_eq!(message, "env file not writable");
    let ((code, message), launches) = attempt(&|w| w.failing.push("files"), skip_wait());
    assert_eq!((code.as_str(), launches), ("start_instance_prepare_dirs", 0));
    assert_eq!(message, "creating instances root /cf/instances");
    let ((code, _), launches) = attempt(&|w| w.failing.push("qemu"), skip_wait());
    assert_eq!((code.as_str(), launches), ("start_instance_ensure_qemu", 0));
    let ((code, _), launches) = attempt(&|w| w.writes_left = Some(1), skip_wait());
    assert_eq!((code.as_str(), launches), ("start_instance_write_metadata_after_skip", 1));
    let ((code, _), launches) = attempt(&|w| w.failing.push("poll"), StartOptions::default());
    assert_eq!((code.as_str(), launches), ("wait_for_adb_wait", 1));
}

#[test]
fn a_wait_fails_under_the_code_of_its_step() {
    let (mut w, mut m) = (world(), manager());
    let response = w.serve(&mut m, Request::WaitForAdb { id: 3, timeout_secs: None });
    assert_eq!(error_of(&response).0, "wait_for_adb_metadata");

    let (mut w, mut m) = (world(), manager());
    let id = started(&mut w, &mut m);
    w.ready_serial = Some("127.0.0.1:6500".to_string());
    w.write_fails = true;
    let response = w.serve(&mut m, Request::WaitForAdb { id, timeout_secs: None });
    assert_eq!(error_of(&response).0, "wait_for_adb_write_metadata");
    w.write_fails = false;
    w.epoch = None;
    let response = w.serve(&mut m, Request::WaitForAdb { id, timeout_secs: None });
    assert_eq!(error_of(&response).0, "wait_for_adb_time");
    w.epoch = Some(5);
    let response = w.serve(&mut m, Request::WaitForAdb { id, timeout_secs: None });
    assert!(response.ok);
    assert_eq!(state_of(&mut w, &mut m, id), InstanceState::Running);
}

#[test]
fn a_verification_that_never_reads_the_property_fails_on_the_bridge() {
    let (mut w, mut m) = (world(), manager());
    let id = create(&mut w, &mut m);
    w.ready_serial = Some("127.0.0.1:6500".to_string());
    let options = StartOptions { verify_boot: true, timeout_secs: Some(1), ..StartOptions::default() };
    let response = w.serve(&mut m, Request::StartInstance { id, options });
    let (code, message) = error_of(&response);
    assert_eq!(code, "verify_boot_adb_failed");
    assert_eq!(message, "adb getprop never succeeded for instance 1: adb returned exit status: 1: device offline");
}

#[test]
fn a_destroy_fails_under_the_code_of_its_phase() {
    let (mut w, mut m) = (world(), manager());
    let id = create(&mut w, &mut m);
    w.write_fails = true;
    let response = w.serve(&mut m, Request::DestroyInstance { id, options: DestroyOptions::default() });
    let (code, message) = error_of(&response);
    assert_eq!(code, "destroy_prepare_failed");
    assert_eq!(message, "writing metadata tmp /state/instances/1/metadata.json");
    w.write_fails = false;
    w.failing.push("finish_lost");
    let response = w.serve(&mut m, Request::DestroyInstance { id, options: DestroyOptions::default() });
    let (code, message) = error_of(&response);
    assert_eq!(code, "destroy_recv_failed");
    assert_eq!(message, "destroy 1 recv failed: receiving on a closed channel");
    w.failing = vec!["finish_failed"];
    let response = w.serve(&mut m, Request::DestroyInstance { id, options: DestroyOptions::default() });
    let (code, message) = error_of(&response);
    assert_eq!(code, "destroy_cleanup_failed");
    assert_eq!(message, "cleanup for 1 failed: disk full");
}

#[test]
fn logs_that_cannot_be_read_are_a_fetch_failure() {
    let (mut w, mut m) = (world(), manager());
    let id = create(&mut w, &mut m);
    w.failing.push("read_log");
    let response = w.serve(&mut m, Request::Logs { id, lines: None, options: LogsOptions::default() });
    let (code, message) = error_of(&response);
    assert_eq!(code, "logs_fetch_failed");
    assert_eq!(message, "opening log file /state/instances/1/cfctl-run.log");
}

#[test]
fn a_record_that_disagrees_with_its_directory_is_served_under_the_directory() {
    let (mut w, mut m) = (world(), manager());
    let id = create(&mut w, &mut m);
    let mut stray = w.records.get("/state/instances/1/metadata.json").unwrap().clone();
    stray.id = 40;
    w.records.insert("/state/instances/8/metadata.json".to_string(), stray);
    let response = w.serve(&mut m, Request::HoldInstance { id: 8 });
    assert!(response.ok);
    assert_eq!(response.action.unwrap().summary.id, 40);
    assert!(w.records.get("/state/instances/8/metadata.json").unwrap().held);
    assert!(!w.records.get("/state/instances/1/metadata.json").unwrap().held);
    assert_eq!(id, 1);
}
