//! Waiting for a binder device node, and the binder endpoints of a process.

use vstd::prelude::*;
use crate::scan::{trim_span, trimmed};
use crate::text::{chars_of, join2, join3};

verus! {

/// Milliseconds between two probes of a binder device, unless configured.
pub const DEFAULT_POLL_MILLIS: u64 = 200;

/// Which binder device to probe, and how often.
#[derive(Clone, Debug)]
pub struct BinderDeviceConfig {
    path: String,
    poll_millis: u64,
}

impl BinderDeviceConfig {
    /// The path of the device.
    pub closed spec fn spec_path(&self) -> Seq<char> {
        self.path@
    }

    /// The poll interval in milliseconds.
    pub closed spec fn spec_poll_interval(&self) -> u64 {
        self.poll_millis
    }

    /// A configuration for the device at `path` with the default poll interval.
    pub fn new(path: String) -> (config: BinderDeviceConfig)
        ensures
            config.spec_path() == path@,
            config.spec_poll_interval() == DEFAULT_POLL_MILLIS,
    {
        BinderDeviceConfig { path, poll_millis: DEFAULT_POLL_MILLIS }
    }

    /// The same configuration with another poll interval, in milliseconds.
    pub fn with_poll_interval(self, millis: u64) -> (config: BinderDeviceConfig)
        ensures
            config.spec_path() == self.spec_path(),
            config.spec_poll_interval() == millis,
    {
        let mut config = self;
        config.poll_millis = millis;
        config
    }

    /// The path of the device.
    pub fn path(&self) -> (path: &str)
        ensures
            path@ == self.spec_path(),
    {
        self.path.as_str()
    }

    /// The poll interval in milliseconds.
    pub fn poll_interval(&self) -> (millis: u64)
        ensures
            millis == self.spec_poll_interval(),
    {
        self.poll_millis
    }
}

impl Default for BinderDeviceConfig {
    fn default() -> (config: BinderDeviceConfig)
        ensures
            config.spec_path() == "/dev/binder"@,
            config.spec_poll_interval() == DEFAULT_POLL_MILLIS,
    {
        BinderDeviceConfig::new(String::from_str("/dev/binder"))
    }
}

/// What can go wrong with a binder device.
#[derive(Debug)]
pub enum Error {
    /// The device did not become accessible in time.
    Timeout { path: String, elapsed_nanos: u64, last_error: Option<String> },
    /// The device is not accessible.
    Io { path: String, source: String },
    /// The path of the device is no valid text.
    InvalidBinderPath(String),
    /// The process could not be attached to the binder driver.
    BinderInit(String),
    /// Binder is only available on Android.
    UnsupportedPlatform,
}

/// A span of time, given in nanoseconds, as the standard debug formatter
/// renders it.
pub uninterp spec fn elapsed_words(nanos: u64) -> Seq<char>;

/// `<core::time::Duration as core::fmt::Debug>::fmt`, reached through
/// `format!("{:?}", ..)`, on the duration that `Duration::from_nanos` makes
/// of `nanos`. The contract only names the result; it depends on the
/// number of nanoseconds alone.
#[verifier::external_body]
fn render_elapsed(nanos: u64) -> (out: String)
    ensures
        out@ == elapsed_words(nanos),
{
    format!("{:?}", std::time::Duration::from_nanos(nanos))
}

/// Whether a span of `elapsed_nanos` nanoseconds has reached a timeout of
/// `timeout_millis` milliseconds.
pub open spec fn timed_out(elapsed_nanos: u64, timeout_millis: u64) -> bool {
    elapsed_nanos >= timeout_millis * 1_000_000
}

fn has_timed_out(elapsed_nanos: u64, timeout_millis: u64) -> (out: bool)
    ensures
        out == timed_out(elapsed_nanos, timeout_millis),
{
    if timeout_millis <= u64::MAX / 1_000_000 {
        elapsed_nanos >= timeout_millis * 1_000_000
    } else {
        false
    }
}

/// The message of a timeout, given the elapsed time in words.
pub open spec fn timeout_message(path: Seq<char>, elapsed: Seq<char>) -> Seq<char> {
    "timed out waiting for binder device "@ + path + " after "@ + elapsed
}

/// Words the message of a timeout.
pub fn timeout_text(path: &str, elapsed: &str) -> (out: String)
    ensures
        out@ == timeout_message(path@, elapsed@),
{
    let mut out = join3("timed out waiting for binder device ", path, " after ");
    out.append(elapsed);
    out
}

impl Error {
    /// The message of the error.
    pub open spec fn message_of(self) -> Seq<char> {
        match self {
            Error::Timeout { path, elapsed_nanos, .. } => timeout_message(
                path@,
                elapsed_words(elapsed_nanos),
            ),
            Error::Io { path, source } => "binder device "@ + path@ + " is not accessible: "@
                + source@,
            Error::InvalidBinderPath(path) => "invalid binder device path '"@ + path@ + "'"@,
            Error::BinderInit(cause) => "binder process initialization failed: "@ + cause@,
            Error::UnsupportedPlatform => "binder operation is only supported on Android targets"@,
        }
    }

    /// Words the error.
    pub fn message(&self) -> (out: String)
        ensures
            out@ == self.message_of(),
    {
        match self {
            Error::Timeout { path, elapsed_nanos, .. } => {
                let elapsed = render_elapsed(*elapsed_nanos);
                timeout_text(path.as_str(), elapsed.as_str())
            },
            Error::Io { path, source } => {
                let mut out = join3("binder device ", path.as_str(), " is not accessible: ");
                out.append(source.as_str());
                out
            },
            Error::InvalidBinderPath(path) => join3("invalid binder device path '", path.as_str(),
                "'"),
            Error::BinderInit(cause) => join2("binder process initialization failed: ",
                cause.as_str()),
            Error::UnsupportedPlatform => String::from_str(
                "binder operation is only supported on Android targets",
            ),
        }
    }
}

/// What a wait for a binder device does after one probe.
#[derive(Debug)]
pub enum BinderWait {
    /// The device is accessible.
    Ready,
    /// Sleep for this many milliseconds, then probe again.
    Retry(u64),
    /// Give up.
    Failed(Error),
}

/// One round of the wait for a binder device.
///
/// `probe` is what opening the device for reading and writing gave, and
/// `elapsed_nanos` the time since the wait began, in nanoseconds. A device that opens ends
/// the wait. One that does not is probed again after the poll interval,
/// unless the timeout has elapsed: then the wait fails with a timeout that
/// carries the last failure.
pub fn wait_for_binder_device(
    config: &BinderDeviceConfig,
    timeout_millis: u64,
    elapsed_nanos: u64,
    probe: Result<(), String>,
) -> (out: BinderWait)
    ensures
        match probe {
            Ok(_) => out is Ready,
            Err(cause) => if timed_out(elapsed_nanos, timeout_millis) {
                out matches BinderWait::Failed(Error::Timeout { path, elapsed_nanos: e,
                    last_error })
                    && path@ == config.spec_path() && e == elapsed_nanos && (
                last_error matches Some(l) && l@ == "binder device "@ + config.spec_path()
                    + " is not accessible: "@ + cause@)
            } else {
                out matches BinderWait::Retry(pause) && pause == config.spec_poll_interval()
            },
        },
{
    match probe {
        Ok(_) => BinderWait::Ready,
        Err(cause) => {
            if has_timed_out(elapsed_nanos, timeout_millis) {
                let failure = Error::Io { path: config.path.clone(), source: cause };
                BinderWait::Failed(
                    Error::Timeout {
                        path: config.path.clone(),
                        elapsed_nanos,
                        last_error: Some(failure.message()),
                    },
                )
            } else {
                BinderWait::Retry(config.poll_millis)
            }
        },
    }
}

/// Attaches the process to the binder driver at `path`. There is no binder
/// driver off the device, so this always reports an unsupported platform.
pub fn ensure_process_state(path: &str) -> (out: Result<(), Error>)
    ensures
        out matches Err(e) && e is UnsupportedPlatform,
{
    Err(Error::UnsupportedPlatform)
}

/// The binder endpoints of a process.
#[derive(Clone, Debug)]
pub struct BinderDevices {
    binder: String,
    hwbinder: String,
    vndbinder: String,
}

/// The endpoint for a variable: its value unless it is unset or blank,
/// else the fallback.
pub open spec fn resolved(value: Option<Seq<char>>, fallback: Seq<char>) -> Seq<char> {
    match value {
        Some(v) => if trimmed(v).len() > 0 {
            v
        } else {
            fallback
        },
        None => fallback,
    }
}

fn resolve_path(value: Option<String>, fallback: &str) -> (out: String)
    ensures
        out@ == resolved(value.deep_view(), fallback@),
{
    match value {
        Some(v) => {
            let chars = chars_of(v.as_str());
            let span = trim_span(&chars);
            if span.0 < span.1 {
                v
            } else {
                String::from_str(fallback)
            }
        },
        None => String::from_str(fallback),
    }
}

impl BinderDevices {
    /// The binder endpoint.
    pub closed spec fn view_binder(&self) -> Seq<char> {
        self.binder@
    }

    /// The hardware binder endpoint.
    pub closed spec fn view_hwbinder(&self) -> Seq<char> {
        self.hwbinder@
    }

    /// The vendor binder endpoint.
    pub closed spec fn view_vndbinder(&self) -> Seq<char> {
        self.vndbinder@
    }

    /// Resolves the endpoints from the values of `BINDER_DEVICE`,
    /// `HWBINDER_DEVICE` and `VNDBINDER_DEVICE`.
    pub fn from_env(binder: Option<String>, hwbinder: Option<String>,
        vndbinder: Option<String>) -> (out:
        BinderDevices)
        ensures
            out.view_binder() == resolved(binder.deep_view(), "/dev/binder"@),
            out.view_hwbinder() == resolved(hwbinder.deep_view(), "/dev/hwbinder"@),
            out.view_vndbinder() == resolved(vndbinder.deep_view(), "/dev/vndbinder"@),
    {
        BinderDevices {
            binder: resolve_path(binder, "/dev/binder"),
            hwbinder: resolve_path(hwbinder, "/dev/hwbinder"),
            vndbinder: resolve_path(vndbinder, "/dev/vndbinder"),
        }
    }

    /// The binder endpoint.
    pub fn binder(&self) -> (path: &str)
        ensures
            path@ == self.view_binder(),
    {
        self.binder.as_str()
    }

    /// The hardware binder endpoint.
    pub fn hwbinder(&self) -> (path: &str)
        ensures
            path@ == self.view_hwbinder(),
    {
        self.hwbinder.as_str()
    }

    /// The vendor binder endpoint.
    pub fn vndbinder(&self) -> (path: &str)
        ensures
            path@ == self.view_vndbinder(),
    {
        self.vndbinder.as_str()
    }
}

} // verus!
