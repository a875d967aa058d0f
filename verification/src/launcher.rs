//! The command line and environment with which a guest is launched.

use vstd::prelude::*;
use crate::config::{host_assembly_dir_of, host_instance_dir_of, CfctlDaemonConfig, ConfigView};
use crate::host::{Command, CommandView, LaunchPlan};
use crate::metadata::{run_log_of, InstanceMetadata, MetadataView};
use crate::protocol::InstanceId;
use crate::text::{decimal, decimal_string, join2};

verus! {

/// What a launch needs to know about the instance.
#[derive(Debug)]
pub struct LaunchParams {
    pub instance_name: String,
    pub adb_port: u16,
    pub instance_dir: String,
    pub assembly_dir: String,
    pub boot_image: String,
    pub init_boot_image: String,
    pub enable_webrtc: bool,
    pub track: Option<String>,
}

/// The word for a switch.
pub open spec fn switch_word(on: bool) -> Seq<char> {
    if on {
        "true"@
    } else {
        "false"@
    }
}

/// The launcher's flags: directories, fixed settings, the two streaming
/// switches, and an image flag for each image that exists.
pub open spec fn launch_flags(
    system_image_dir: Seq<char>,
    instance_dir: Seq<char>,
    assembly_dir: Seq<char>,
    webrtc: bool,
    boot: Option<Seq<char>>,
    init: Option<Seq<char>>,
) -> Seq<Seq<char>> {
    let fixed = seq![
        "launch_cvd"@,
        "--system_image_dir="@ + system_image_dir,
        "--instance_dir="@ + instance_dir,
        "--assembly_dir="@ + assembly_dir,
        "--vm_manager=qemu_cli"@,
        "--enable_wifi=false"@,
        "--enable_host_bluetooth=false"@,
        "--enable_modem_simulator=false"@,
        "--start_webrtc="@ + switch_word(webrtc),
        "--start_webrtc_sig_server="@ + switch_word(webrtc),
        "--report_anonymous_usage_stats=n"@,
        "--daemon=false"@,
        "--console=true"@,
        "--verbosity=DEBUG"@,
        "--resume=false"@,
    ];
    let with_boot = match boot {
        Some(path) => fixed.push("--boot_image="@ + path),
        None => fixed,
    };
    match init {
        Some(path) => with_boot.push("--init_boot_image="@ + path),
        None => with_boot,
    }
}

/// What precedes the launcher's flags: the image channel's environment
/// tool for a named track, the default wrapper otherwise.
pub open spec fn wrapper_args(fhs: Seq<char>, track: Option<Seq<char>>) -> Seq<Seq<char>> {
    match track {
        Some(t) => seq!["cfenv"@, "-t"@, t, "--"@],
        None => seq![fhs, "--"@],
    }
}

/// The environment of a guest, as names and values.
pub open spec fn launch_env(disable_host_gpu: bool, name: Seq<char>, adb_port: u16) -> Seq<
    (Seq<char>, Seq<char>),
> {
    let rest = seq![
        ("GFXSTREAM_DISABLE_GRAPHICS_DETECTOR"@, "1"@),
        ("GFXSTREAM_HEADLESS"@, "1"@),
        ("CUTTLEFISH_INSTANCE"@, name),
        ("CUTTLEFISH_INSTANCE_NUM"@, name),
        ("CUTTLEFISH_ADB_TCP_PORT"@, decimal(adb_port as nat)),
    ];
    if disable_host_gpu {
        seq![("CUTTLEFISH_DISABLE_HOST_GPU"@, "1"@)] + rest
    } else {
        rest
    }
}

/// The views of a list of name and value pairs.
pub open spec fn pairs_view(list: Seq<(String, String)>) -> Seq<(Seq<char>, Seq<char>)> {
    Seq::new(list.len(), |i: int| (list[i].0@, list[i].1@))
}

fn flag(name: &str, value: &str) -> (out: String)
    ensures
        out@ == name@ + value@,
{
    join2(name, value)
}

fn switch(on: bool) -> (out: &'static str)
    ensures
        out@ == switch_word(on),
{
    if on {
        "true"
    } else {
        "false"
    }
}

/// Appends the launcher's flags to a command line.
pub fn push_flags(
    args: &mut Vec<String>,
    system_image_dir: &str,
    instance_dir: &str,
    assembly_dir: &str,
    webrtc: bool,
    boot: Option<&str>,
    init: Option<&str>,
)
    ensures
        final(args).deep_view() == old(args).deep_view() + launch_flags(
            system_image_dir@,
            instance_dir@,
            assembly_dir@,
            webrtc,
            match boot {
                Some(p) => Some(p@),
                None => None,
            },
            match init {
                Some(p) => Some(p@),
                None => None,
            },
        ),
{
    let ghost before = args.deep_view();
    args.push(String::from_str("launch_cvd"));
    args.push(flag("--system_image_dir=", system_image_dir));
    args.push(flag("--instance_dir=", instance_dir));
    args.push(flag("--assembly_dir=", assembly_dir));
    args.push(String::from_str("--vm_manager=qemu_cli"));
    args.push(String::from_str("--enable_wifi=false"));
    args.push(String::from_str("--enable_host_bluetooth=false"));
    args.push(String::from_str("--enable_modem_simulator=false"));
    args.push(flag("--start_webrtc=", switch(webrtc)));
    args.push(flag("--start_webrtc_sig_server=", switch(webrtc)));
    args.push(String::from_str("--report_anonymous_usage_stats=n"));
    args.push(String::from_str("--daemon=false"));
    args.push(String::from_str("--console=true"));
    args.push(String::from_str("--verbosity=DEBUG"));
    args.push(String::from_str("--resume=false"));
    match boot {
        Some(path) => {
            args.push(flag("--boot_image=", path));
        },
        None => {},
    }
    match init {
        Some(path) => {
            args.push(flag("--init_boot_image=", path));
        },
        None => {},
    }
    assert(args.deep_view() =~= before + launch_flags(
        system_image_dir@,
        instance_dir@,
        assembly_dir@,
        webrtc,
        match boot {
            Some(p) => Some(p@),
            None => None,
        },
        match init {
            Some(p) => Some(p@),
            None => None,
        },
    ));
}

/// Builds the environment of a guest.
pub fn environment(disable_host_gpu: bool, name: &str, adb_port: u16) -> (out: Vec<(String,
    String)>)
    ensures
        pairs_view(out@) == launch_env(disable_host_gpu, name@, adb_port),
{
    let mut out: Vec<(String, String)> = Vec::new();
    if disable_host_gpu {
        out.push((String::from_str("CUTTLEFISH_DISABLE_HOST_GPU"), String::from_str("1")));
    }
    out.push((String::from_str("GFXSTREAM_DISABLE_GRAPHICS_DETECTOR"), String::from_str("1")));
    out.push((String::from_str("GFXSTREAM_HEADLESS"), String::from_str("1")));
    out.push((String::from_str("CUTTLEFISH_INSTANCE"), String::from_str(name)));
    out.push((String::from_str("CUTTLEFISH_INSTANCE_NUM"), String::from_str(name)));
    out.push((String::from_str("CUTTLEFISH_ADB_TCP_PORT"), decimal_string(adb_port as u64)));
    assert(pairs_view(out@) =~= launch_env(disable_host_gpu, name@, adb_port));
    out
}

/// An image path if the image exists.
pub open spec fn present(path: Seq<char>, exists: bool) -> Option<Seq<char>> {
    if exists {
        Some(path)
    } else {
        None
    }
}

/// What the host is doing when it spawns the guest `name` through the
/// wrapper `fhs`.
pub open spec fn spawn_context(name: Seq<char>, fhs: Seq<char>) -> Seq<char> {
    "spawning cuttlefish guest "@ + name + " via "@ + fhs
}

/// Words what the host is doing when it spawns a guest.
pub fn spawn_context_text(name: &str, fhs: &str) -> (out: String)
    ensures
        out@ == spawn_context(name@, fhs@),
{
    let mut out = crate::text::join3("spawning cuttlefish guest ", name, " via ");
    out.append(fhs);
    out
}

/// The launch of the guest of an instance under the daemon.
pub open spec fn daemon_launch_command(
    config: ConfigView,
    id: InstanceId,
    m: MetadataView,
    webrtc: bool,
    track: Option<Seq<char>>,
    boot_exists: bool,
    init_exists: bool,
) -> CommandView {
    let all = wrapper_args(config.cuttlefish_fhs, track) + launch_flags(
        config.cuttlefish_system_image_dir,
        host_instance_dir_of(config, id),
        host_assembly_dir_of(config, id),
        webrtc,
        present(m.boot_image, boot_exists),
        present(m.init_boot_image, init_exists),
    );
    CommandView { program: all[0], args: all.subrange(1, all.len() as int) }
}

/// Whether `plan` is the launch of the guest of instance `id` under the
/// daemon: the command, the environment, the launcher's instance root as
/// working directory, the run log of the instance for the output, and what is
/// said where the spawn fails.
pub open spec fn daemon_launch(
    plan: LaunchPlan,
    config: ConfigView,
    id: InstanceId,
    m: MetadataView,
    webrtc: bool,
    track: Option<Seq<char>>,
    boot_exists: bool,
    init_exists: bool,
) -> bool {
    &&& plan.command@ == daemon_launch_command(
        config,
        id,
        m,
        webrtc,
        track,
        boot_exists,
        init_exists,
    )
    &&& pairs_view(plan.env@) == launch_env(config.disable_host_gpu, decimal(id as nat), m.adb_port)
    &&& plan.dir matches Some(d) && d@ == config.cuttlefish_instances_dir
    &&& plan.log_path@ == run_log_of(config, id)
    &&& plan.spawning@ == spawn_context(decimal(id as nat), config.cuttlefish_fhs)
}

/// Plans the launch of the guest of instance `id`.
///
/// The guest runs through the environment tool of the named track, or
/// through the default wrapper; an image flag is passed only for an image
/// that exists; the guest's output goes to the run log and its working
/// directory is the launcher's instance root.
pub fn spawn_guest_process(
    config: &CfctlDaemonConfig,
    id: InstanceId,
    metadata: &InstanceMetadata,
    webrtc_enabled: bool,
    track: &Option<String>,
    boot_exists: bool,
    init_exists: bool,
) -> (plan: LaunchPlan)
    ensures
        daemon_launch(
            plan,
            config@,
            id,
            metadata@,
            webrtc_enabled,
            track.deep_view(),
            boot_exists,
            init_exists,
        ),
{
    let name = decimal_string(id);
    let instance_dir = config.host_instance_dir(id);
    let assembly_dir = config.host_assembly_dir(id);
    let mut args: Vec<String> = Vec::new();
    let program = match track {
        Some(t) => {
            args.push(String::from_str("-t"));
            args.push(t.clone());
            args.push(String::from_str("--"));
            String::from_str("cfenv")
        },
        None => {
            args.push(String::from_str("--"));
            config.cuttlefish_fhs.clone()
        },
    };
    let ghost head = args.deep_view();
    assert(seq![program@] + head =~= wrapper_args(config.cuttlefish_fhs@, track.deep_view()));
    let boot = if boot_exists {
        Some(metadata.boot_image.as_str())
    } else {
        None
    };
    let init = if init_exists {
        Some(metadata.init_boot_image.as_str())
    } else {
        None
    };
    push_flags(
        &mut args,
        config.cuttlefish_system_image_dir.as_str(),
        instance_dir.as_str(),
        assembly_dir.as_str(),
        webrtc_enabled,
        boot,
        init,
    );
    proof {
        let flags = launch_flags(
            config.cuttlefish_system_image_dir@,
            instance_dir@,
            assembly_dir@,
            webrtc_enabled,
            present(metadata.boot_image@, boot_exists),
            present(metadata.init_boot_image@, init_exists),
        );
        let all = wrapper_args(config.cuttlefish_fhs@, track.deep_view()) + flags;
        assert(all =~= seq![program@] + (head + flags));
        assert(all.subrange(1, all.len() as int) =~= head + flags);
    }
    let paths = crate::metadata::InstancePaths::new(config, id);
    LaunchPlan {
        command: Command { program, args },
        env: environment(config.disable_host_gpu, name.as_str(), metadata.adb_port),
        dir: Some(config.cuttlefish_instances_dir.clone()),
        log_path: paths.run_log,
        spawning: spawn_context_text(name.as_str(), config.cuttlefish_fhs.as_str()),
    }
}

} // verus!
