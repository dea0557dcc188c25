//! Resolution of the block device that backs a filesystem object on Linux.
//!
//! A filesystem object carries a packed 64-bit device identifier in its
//! metadata.  This crate decodes that identifier into a (major, minor) pair
//! and maps the pair to a device-node path, first through the kernel device
//! registry under `/sys/dev/block`, then through the mount table in
//! `/proc/self/mountinfo`.
//!
//! The crate itself performs no I/O.  The orchestrator is a step machine: it
//! hands out the system queries it needs (does a path exist, what does a
//! symlink point to, what does a directory hold, what does the mount table
//! say) and consumes the answers, until it reaches a result.  A thin
//! unverified driver performs the queries against the live system.

pub mod codec;
pub mod digits;
pub mod mount;
pub mod resolve;
pub mod text;

pub use codec::major;
pub use codec::minor;
pub use mount::parse_dev_field;
pub use mount::parse_mountinfo_line;
pub use mount::MountSource;
pub use resolve::resolve_device;
pub use resolve::resolve_device_for_handle;
pub use resolve::resolve_device_for_path;
pub use resolve::resolve_device_from_dev;
pub use resolve::DeviceResolveError;
pub use resolve::Resolution;
pub use resolve::Step;
pub use resolve::SysQuery;
pub use resolve::SysReply;
