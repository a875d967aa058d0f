//! Control-plane logic for virtual-device guest instances.
//!
//! The crate decides; it never acts. Each lifecycle operation is a state
//! machine that hands its host a directive (side effects to perform and
//! one question to answer), takes the host's reply, and goes on from there
//! until it ends with its result. Time, files, processes and tools all
//! belong to the host.
//!
//! * [`protocol`], [`config`], [`metadata`]: the records and where they live.
//! * [`host`]: directives, replies and the clock.
//! * [`manager`], [`session`]: the state of a daemon and the serving of requests.
//! * [`lifecycle`], [`start`], [`stop`], [`destroy`], [`fleet`]: the operations.
//! * [`guest`], [`supervise`]: guest handles, their registry and termination.
//! * [`readiness`], [`adb_wait`], [`boot`]: the bridge and the boot marker.
//! * [`cleanup`]: teardown of what a guest leaves behind.
//! * [`slots`]: the pool of instance ids.
//! * [`launcher`], [`lite`]: launching a guest, under the daemon or on its own.
//! * [`scan`], [`text`]: scanning and building of text.
//! * [`binder`], [`hal`], [`framebuffer`]: helpers of the device-side tools.

pub mod adb_wait;
pub mod binder;
pub mod boot;
pub mod cleanup;
pub mod config;
pub mod destroy;
pub mod fleet;
pub mod framebuffer;
pub mod guest;
pub mod hal;
pub mod host;
pub mod launcher;
pub mod lifecycle;
pub mod lite;
pub mod manager;
pub mod metadata;
pub mod protocol;
pub mod readiness;
pub mod scan;
pub mod session;
pub mod slots;
pub mod start;
pub mod stop;
pub mod supervise;
pub mod text;
