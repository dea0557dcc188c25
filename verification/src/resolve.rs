//! The resolution orchestrator.
//!
//! Resolution maps a device pair to a device-node path in two layered
//! strategies: the kernel device registry under `/sys/dev/block` first, the
//! mount table in `/proc/self/mountinfo` second.  Both strategies read
//! kernel-exposed state, and this crate performs no I/O, so the orchestrator
//! is a step machine: [`resolve_device_from_dev`] yields the first system
//! query, and [`Resolution::step`] consumes each answer and yields either the
//! next query or the result.  An unverified driver performs the queries; the
//! machine's contract pins every decision taken on the answers.

use vstd::prelude::*;

use crate::codec::major_spec;
use crate::codec::minor_spec;
use crate::mount::scan_mount_lines;
use crate::mount::scan_result;
use crate::mount::ScanOutcome;
use crate::mount::ScanOutcomeV;
use crate::text::dev_path_of;
use crate::text::last_segment;
use crate::text::last_segment_spec;
use crate::text::prefixed;
use crate::text::registry_path;
use crate::text::registry_path_of;

verus! {

/// Why a resolution failed.
#[derive(Debug, PartialEq, Eq)]
pub enum DeviceResolveError {
    /// The mount table exists but could not be read.
    Io(String),
    /// The metadata of the target path could not be read.
    MetadataError(String),
    /// The registry strategy failed for the given pair.
    SysfsResolutionFailed { major: u32, minor: u32 },
    /// The mount-table strategy failed for the given pair.
    MountinfoResolutionFailed { major: u32, minor: u32 },
    /// Both strategies were exhausted for the given pair.
    DeviceNotFound { major: u32, minor: u32 },
    /// The status query on the target handle failed.
    FstatError(String),
}

/// The mathematical value of a [`DeviceResolveError`].
pub enum ErrorV {
    Io(Seq<char>),
    MetadataError(Seq<char>),
    SysfsResolutionFailed { major: u32, minor: u32 },
    MountinfoResolutionFailed { major: u32, minor: u32 },
    DeviceNotFound { major: u32, minor: u32 },
    FstatError(Seq<char>),
}

impl View for DeviceResolveError {
    type V = ErrorV;

    open spec fn view(&self) -> ErrorV {
        match self {
            DeviceResolveError::Io(t) => ErrorV::Io(t@),
            DeviceResolveError::MetadataError(t) => ErrorV::MetadataError(t@),
            DeviceResolveError::SysfsResolutionFailed { major, minor } => (
            ErrorV::SysfsResolutionFailed { major: *major, minor: *minor }),
            DeviceResolveError::MountinfoResolutionFailed { major, minor } => (
            ErrorV::MountinfoResolutionFailed { major: *major, minor: *minor }),
            DeviceResolveError::DeviceNotFound { major, minor } => (ErrorV::DeviceNotFound {
                major: *major,
                minor: *minor,
            }),
            DeviceResolveError::FstatError(t) => ErrorV::FstatError(t@),
        }
    }
}

/// The human-readable message of an error, by its kind.
pub open spec fn message_of(e: ErrorV) -> Seq<char> {
    match e {
        ErrorV::Io(t) => "I/O error: "@ + t,
        ErrorV::MetadataError(t) => "Failed to get metadata for path: "@ + t,
        ErrorV::SysfsResolutionFailed { major, minor } => "Failed to resolve device via sysfs for dev "@
            + crate::digits::dec_digits(major as nat) + ":"@ + crate::digits::dec_digits(
            minor as nat,
        ),
        ErrorV::MountinfoResolutionFailed { major, minor } => "Failed to resolve device via mountinfo for dev "@
            + crate::digits::dec_digits(major as nat) + ":"@ + crate::digits::dec_digits(
            minor as nat,
        ),
        ErrorV::DeviceNotFound { major, minor } => "Could not resolve device for dev "@
            + crate::digits::dec_digits(major as nat) + ":"@ + crate::digits::dec_digits(
            minor as nat,
        ),
        ErrorV::FstatError(t) => "Failed to fstat file descriptor: "@ + t,
    }
}

/// Builds the message of a pair-carrying error: the stem, then the pair.
fn pair_message(stem: &str, major: u32, minor: u32) -> (r: String)
    ensures
        r@ == stem@ + crate::digits::dec_digits(major as nat) + ":"@ + crate::digits::dec_digits(
            minor as nat,
        ),
{
    String::from_str(stem).concat(crate::digits::u32_to_dec(major).as_str()).concat(":").concat(
        crate::digits::u32_to_dec(minor).as_str(),
    )
}

impl DeviceResolveError {
    /// The human-readable message of this error, as `message_of` describes.
    pub fn message(&self) -> (r: String)
        ensures
            r@ == message_of(self@),
    {
        match self {
            DeviceResolveError::Io(t) => String::from_str("I/O error: ").concat(t.as_str()),
            DeviceResolveError::MetadataError(t) => String::from_str(
                "Failed to get metadata for path: ",
            ).concat(t.as_str()),
            DeviceResolveError::SysfsResolutionFailed { major, minor } => pair_message(
                "Failed to resolve device via sysfs for dev ",
                *major,
                *minor,
            ),
            DeviceResolveError::MountinfoResolutionFailed { major, minor } => pair_message(
                "Failed to resolve device via mountinfo for dev ",
                *major,
                *minor,
            ),
            DeviceResolveError::DeviceNotFound { major, minor } => pair_message(
                "Could not resolve device for dev ",
                *major,
                *minor,
            ),
            DeviceResolveError::FstatError(t) => String::from_str(
                "Failed to fstat file descriptor: ",
            ).concat(t.as_str()),
        }
    }
}

/// A read-only system query the machine asks the driver to perform.
#[derive(Debug, PartialEq, Eq)]
pub enum SysQuery {
    /// Does this path exist?
    PathExists(String),
    /// What does the symbolic link at this path point to?
    ReadLink(String),
    /// Which names does the directory at this path hold?
    ListDir(String),
    /// Which lines does the text file at this path hold?
    ReadLines(String),
}

/// The mathematical value of a [`SysQuery`].
pub enum QueryV {
    PathExists(Seq<char>),
    ReadLink(Seq<char>),
    ListDir(Seq<char>),
    ReadLines(Seq<char>),
}

impl View for SysQuery {
    type V = QueryV;

    open spec fn view(&self) -> QueryV {
        match self {
            SysQuery::PathExists(p) => QueryV::PathExists(p@),
            SysQuery::ReadLink(p) => QueryV::ReadLink(p@),
            SysQuery::ListDir(p) => QueryV::ListDir(p@),
            SysQuery::ReadLines(p) => QueryV::ReadLines(p@),
        }
    }
}

/// The driver's answer to a system query.
#[derive(Debug, PartialEq, Eq)]
pub enum SysReply {
    /// Whether the path exists.
    Exists(bool),
    /// The link target as text, or nothing when the path is no readable link
    /// or its target is no valid text.
    Link(Option<String>),
    /// The names in the directory, or nothing when it cannot be read.
    Entries(Option<Vec<String>>),
    /// The lines of the file, or the error text when it cannot be read.
    Lines(Result<Vec<String>, String>),
}

/// The mathematical value of a [`SysReply`].
pub enum ReplyV {
    Exists(bool),
    Link(Option<Seq<char>>),
    Entries(Option<Seq<Seq<char>>>),
    Lines(Result<Seq<Seq<char>>, Seq<char>>),
}

impl View for SysReply {
    type V = ReplyV;

    open spec fn view(&self) -> ReplyV {
        match self {
            SysReply::Exists(b) => ReplyV::Exists(*b),
            SysReply::Link(t) => ReplyV::Link(
                match t {
                    Some(s) => Some(s@),
                    None => None,
                },
            ),
            SysReply::Entries(es) => ReplyV::Entries(
                match es {
                    Some(v) => Some(v.deep_view()),
                    None => None,
                },
            ),
            SysReply::Lines(r) => ReplyV::Lines(
                match r {
                    Ok(v) => Ok(v.deep_view()),
                    Err(e) => Err(e@),
                },
            ),
        }
    }
}

/// What the machine hands back after a step: the next query, or the result.
#[derive(Debug, PartialEq, Eq)]
pub enum Step {
    /// The driver is asked to perform this query and answer it.
    Ask(SysQuery),
    /// Resolution ended: the device-node path, or why there is none.
    Done(Result<String, DeviceResolveError>),
}

/// The mathematical value of a [`Step`].
pub enum StepV {
    Ask(QueryV),
    Done(Result<Seq<char>, ErrorV>),
}

impl View for Step {
    type V = StepV;

    open spec fn view(&self) -> StepV {
        match self {
            Step::Ask(q) => StepV::Ask(q@),
            Step::Done(r) => StepV::Done(
                match r {
                    Ok(p) => Ok(p@),
                    Err(e) => Err(e@),
                },
            ),
        }
    }
}

/// Where the machine stands between two queries.
#[derive(Debug, PartialEq, Eq)]
pub enum Phase {
    /// Asked whether the registry entry for the pair exists.
    RegistryEntry,
    /// Asked for the target of the registry entry link.
    RegistryLink,
    /// Asked whether the device directory holds the name read from the link.
    DevDirect { name: String },
    /// Asked whether the well-known location `idx` holds the name.
    SearchList { name: String, idx: usize },
    /// Asked for the names in the device directory.
    DevScan { name: String },
    /// Asked whether the mount table exists.
    MountCheck,
    /// Asked for the lines of the mount table.
    MountRead,
    /// Asked whether a candidate from mount record scanning exists; on
    /// failure the scan resumes at `next`.
    MountProbe { lines: Vec<String>, next: usize, candidate: String },
    /// Resolution ended.
    Finished,
}

/// The mathematical value of a resolution phase.
pub enum PhaseV {
    RegistryEntry,
    RegistryLink,
    DevDirect { name: Seq<char> },
    SearchList { name: Seq<char>, idx: int },
    DevScan { name: Seq<char> },
    MountCheck,
    MountRead,
    MountProbe { lines: Seq<Seq<char>>, next: int, candidate: Seq<char> },
    Finished,
}

impl View for Phase {
    type V = PhaseV;

    open spec fn view(&self) -> PhaseV {
        match self {
            Phase::RegistryEntry => PhaseV::RegistryEntry,
            Phase::RegistryLink => PhaseV::RegistryLink,
            Phase::DevDirect { name } => PhaseV::DevDirect { name: name@ },
            Phase::SearchList { name, idx } => PhaseV::SearchList { name: name@, idx: *idx as int },
            Phase::DevScan { name } => PhaseV::DevScan { name: name@ },
            Phase::MountCheck => PhaseV::MountCheck,
            Phase::MountRead => PhaseV::MountRead,
            Phase::MountProbe { lines, next, candidate } => (PhaseV::MountProbe {
                lines: lines.deep_view(),
                next: *next as int,
                candidate: candidate@,
            }),
            Phase::Finished => PhaseV::Finished,
        }
    }
}

/// A resolution in progress for one device pair.
#[derive(Debug, PartialEq, Eq)]
pub struct Resolution {
    major: u32,
    minor: u32,
    phase: Phase,
}

/// The mathematical value of a [`Resolution`].
pub struct ResolutionV {
    pub major: u32,
    pub minor: u32,
    pub phase: PhaseV,
}

impl View for Resolution {
    type V = ResolutionV;

    closed spec fn view(&self) -> ResolutionV {
        ResolutionV { major: self.major, minor: self.minor, phase: self.phase@ }
    }
}

/// The well-known location `idx` of the searcher's ordered list for a name:
/// the device directory, the mapper directory, then the by-id directory.
pub open spec fn candidate_of(name: Seq<char>, idx: int) -> Seq<char> {
    if idx == 0 {
        "/dev/"@ + name
    } else if idx == 1 {
        "/dev/mapper/"@ + name
    } else {
        "/dev/disk/by-id/"@ + name
    }
}

/// Builds the well-known location `idx` for a name.
fn candidate_path(name: &str, idx: usize) -> (r: String)
    ensures
        r@ == candidate_of(name@, idx as int),
{
    if idx == 0 {
        prefixed("/dev/", name)
    } else if idx == 1 {
        prefixed("/dev/mapper/", name)
    } else {
        prefixed("/dev/disk/by-id/", name)
    }
}

/// The query the machine awaits an answer to, or nothing once it ended.
pub open spec fn pending_of(r: ResolutionV) -> Option<QueryV> {
    match r.phase {
        PhaseV::RegistryEntry => Some(QueryV::PathExists(registry_path_of(r.major, r.minor))),
        PhaseV::RegistryLink => Some(QueryV::ReadLink(registry_path_of(r.major, r.minor))),
        PhaseV::DevDirect { name } => Some(QueryV::PathExists(dev_path_of(name))),
        PhaseV::SearchList { name, idx } => Some(QueryV::PathExists(candidate_of(name, idx))),
        PhaseV::DevScan { .. } => Some(QueryV::ListDir("/dev"@)),
        PhaseV::MountCheck => Some(QueryV::PathExists("/proc/self/mountinfo"@)),
        PhaseV::MountRead => Some(QueryV::ReadLines("/proc/self/mountinfo"@)),
        PhaseV::MountProbe { candidate, .. } => Some(QueryV::PathExists(candidate)),
        PhaseV::Finished => None,
    }
}

/// Whether a reply answers the kind of query the machine awaits.
pub open spec fn fits(r: ResolutionV, reply: ReplyV) -> bool {
    match pending_of(r) {
        None => false,
        Some(q) => match (q, reply) {
            (QueryV::PathExists(_), ReplyV::Exists(_)) => true,
            (QueryV::ReadLink(_), ReplyV::Link(_)) => true,
            (QueryV::ListDir(_), ReplyV::Entries(_)) => true,
            (QueryV::ReadLines(_), ReplyV::Lines(_)) => true,
            _ => false,
        },
    }
}

/// The state a resolution of one device pair begins in.
pub open spec fn start_v(ma: u32, mi: u32) -> ResolutionV {
    ResolutionV { major: ma, minor: mi, phase: PhaseV::RegistryEntry }
}

/// The machine after the registry strategy gave nothing: ask whether the
/// mount table exists.
pub open spec fn goto_mount_v(ma: u32, mi: u32) -> (ResolutionV, StepV) {
    (
        ResolutionV { major: ma, minor: mi, phase: PhaseV::MountCheck },
        StepV::Ask(QueryV::PathExists("/proc/self/mountinfo"@)),
    )
}

/// The machine after one scan of the mount records from `from` onward: the
/// result on a direct source, a probe query on a candidate source, and
/// failure once the records are exhausted.
pub open spec fn scan_step_v(ma: u32, mi: u32, lines: Seq<Seq<char>>, from: int) -> (
    ResolutionV,
    StepV,
) {
    match scan_result(lines, from, ma, mi) {
        ScanOutcomeV::Exhausted => (
            ResolutionV { major: ma, minor: mi, phase: PhaseV::Finished },
            StepV::Done(Err(ErrorV::DeviceNotFound { major: ma, minor: mi })),
        ),
        ScanOutcomeV::Direct(p) => (
            ResolutionV { major: ma, minor: mi, phase: PhaseV::Finished },
            StepV::Done(Ok(p)),
        ),
        ScanOutcomeV::Probe(p, nxt) => (
            ResolutionV {
                major: ma,
                minor: mi,
                phase: PhaseV::MountProbe { lines, next: nxt, candidate: p },
            },
            StepV::Ask(QueryV::PathExists(p)),
        ),
    }
}

/// The transition of the machine: from its state and the driver's reply to
/// its next state and what it hands back.  Meaningful only when the reply
/// answers the awaited query (see [`fits`]).
pub open spec fn next_v(r: ResolutionV, reply: ReplyV) -> (ResolutionV, StepV) {
    let ma = r.major;
    let mi = r.minor;
    match (r.phase, reply) {
        (PhaseV::RegistryEntry, ReplyV::Exists(b)) => {
            if b {
                (
                    ResolutionV { major: ma, minor: mi, phase: PhaseV::RegistryLink },
                    StepV::Ask(QueryV::ReadLink(registry_path_of(ma, mi))),
                )
            } else {
                goto_mount_v(ma, mi)
            }
        },
        (PhaseV::RegistryLink, ReplyV::Link(t)) => {
            match t {
                None => goto_mount_v(ma, mi),
                Some(tgt) => match last_segment_spec(tgt) {
                    None => goto_mount_v(ma, mi),
                    Some(name) => (
                        ResolutionV { major: ma, minor: mi, phase: PhaseV::DevDirect { name } },
                        StepV::Ask(QueryV::PathExists(dev_path_of(name))),
                    ),
                },
            }
        },
        (PhaseV::DevDirect { name }, ReplyV::Exists(b)) => {
            if b {
                (
                    ResolutionV { major: ma, minor: mi, phase: PhaseV::Finished },
                    StepV::Done(Ok(dev_path_of(name))),
                )
            } else {
                (
                    ResolutionV {
                        major: ma,
                        minor: mi,
                        phase: PhaseV::SearchList { name, idx: 0 },
                    },
                    StepV::Ask(QueryV::PathExists(candidate_of(name, 0))),
                )
            }
        },
        (PhaseV::SearchList { name, idx }, ReplyV::Exists(b)) => {
            if b {
                (
                    ResolutionV { major: ma, minor: mi, phase: PhaseV::Finished },
                    StepV::Done(Ok(candidate_of(name, idx))),
                )
            } else if idx + 1 < 3 {
                (
                    ResolutionV {
                        major: ma,
                        minor: mi,
                        phase: PhaseV::SearchList { name, idx: idx + 1 },
                    },
                    StepV::Ask(QueryV::PathExists(candidate_of(name, idx + 1))),
                )
            } else {
                (
                    ResolutionV { major: ma, minor: mi, phase: PhaseV::DevScan { name } },
                    StepV::Ask(QueryV::ListDir("/dev"@)),
                )
            }
        },
        (PhaseV::DevScan { name }, ReplyV::Entries(es)) => {
            match es {
                Some(list) => {
                    if list.contains(name) {
                        (
                            ResolutionV { major: ma, minor: mi, phase: PhaseV::Finished },
                            StepV::Done(Ok(dev_path_of(name))),
                        )
                    } else {
                        goto_mount_v(ma, mi)
                    }
                },
                None => goto_mount_v(ma, mi),
            }
        },
        (PhaseV::MountCheck, ReplyV::Exists(b)) => {
            if b {
                (
                    ResolutionV { major: ma, minor: mi, phase: PhaseV::MountRead },
                    StepV::Ask(QueryV::ReadLines("/proc/self/mountinfo"@)),
                )
            } else {
                (
                    ResolutionV { major: ma, minor: mi, phase: PhaseV::Finished },
                    StepV::Done(Err(ErrorV::DeviceNotFound { major: ma, minor: mi })),
                )
            }
        },
        (PhaseV::MountRead, ReplyV::Lines(res)) => {
            match res {
                Err(msg) => (
                    ResolutionV { major: ma, minor: mi, phase: PhaseV::Finished },
                    StepV::Done(Err(ErrorV::Io(msg))),
                ),
                Ok(lines) => scan_step_v(ma, mi, lines, 0),
            }
        },
        (PhaseV::MountProbe { lines, next, candidate }, ReplyV::Exists(b)) => {
            if b {
                (
                    ResolutionV { major: ma, minor: mi, phase: PhaseV::Finished },
                    StepV::Done(Ok(candidate)),
                )
            } else {
                scan_step_v(ma, mi, lines, next)
            }
        },
        _ => (r, StepV::Done(Err(ErrorV::DeviceNotFound { major: ma, minor: mi }))),
    }
}

/// The machine and step after the registry strategy gave nothing.
fn goto_mount(ma: u32, mi: u32) -> (r: (Resolution, Step))
    ensures
        (r.0@, r.1@) == goto_mount_v(ma, mi),
{
    (
        Resolution { major: ma, minor: mi, phase: Phase::MountCheck },
        Step::Ask(SysQuery::PathExists(String::from_str("/proc/self/mountinfo"))),
    )
}

/// The machine and step after one scan of the mount records.
fn scan_step(ma: u32, mi: u32, lines: Vec<String>, from: usize) -> (r: (Resolution, Step))
    ensures
        (r.0@, r.1@) == scan_step_v(ma, mi, lines.deep_view(), from as int),
{
    match scan_mount_lines(&lines, from, ma, mi) {
        ScanOutcome::Exhausted => (
            Resolution { major: ma, minor: mi, phase: Phase::Finished },
            Step::Done(Err(DeviceResolveError::DeviceNotFound { major: ma, minor: mi })),
        ),
        ScanOutcome::Direct(p) => (
            Resolution { major: ma, minor: mi, phase: Phase::Finished },
            Step::Done(Ok(p)),
        ),
        ScanOutcome::Probe(p, nxt) => {
            let q = SysQuery::PathExists(p.clone());
            (
                Resolution {
                    major: ma,
                    minor: mi,
                    phase: Phase::MountProbe { lines, next: nxt, candidate: p },
                },
                Step::Ask(q),
            )
        },
    }
}

impl Resolution {
    /// Consumes one reply and yields the machine's next state together with
    /// the next query or the result, exactly as [`next_v`] describes.
    pub fn step(self, reply: SysReply) -> (r: (Resolution, Step))
        requires
            fits(self@, reply@),
        ensures
            (r.0@, r.1@) == next_v(self@, reply@),
            r.1@ is Ask ==> pending_of(r.0@) == Some(r.1@->Ask_0),
            r.1@ is Done ==> r.0@.phase is Finished,
    {
        let ghost s0 = self@;
        let ghost rv = reply@;
        let Resolution { major: ma, minor: mi, phase } = self;
        match (phase, reply) {
            (Phase::RegistryEntry, SysReply::Exists(b)) => {
                if b {
                    (
                        Resolution { major: ma, minor: mi, phase: Phase::RegistryLink },
                        Step::Ask(SysQuery::ReadLink(registry_path(ma, mi))),
                    )
                } else {
                    goto_mount(ma, mi)
                }
            },
            (Phase::RegistryLink, SysReply::Link(t)) => {
                match t {
                    None => goto_mount(ma, mi),
                    Some(tgt) => {
                        match last_segment(tgt.as_str()) {
                            None => goto_mount(ma, mi),
                            Some(name) => {
                                let q = SysQuery::PathExists(prefixed("/dev/", name.as_str()));
                                (
                                    Resolution {
                                        major: ma,
                                        minor: mi,
                                        phase: Phase::DevDirect { name },
                                    },
                                    Step::Ask(q),
                                )
                            },
                        }
                    },
                }
            },
            (Phase::DevDirect { name }, SysReply::Exists(b)) => {
                if b {
                    let p = prefixed("/dev/", name.as_str());
                    (
                        Resolution { major: ma, minor: mi, phase: Phase::Finished },
                        Step::Done(Ok(p)),
                    )
                } else {
                    let q = SysQuery::PathExists(candidate_path(name.as_str(), 0));
                    (
                        Resolution {
                            major: ma,
                            minor: mi,
                            phase: Phase::SearchList { name, idx: 0 },
                        },
                        Step::Ask(q),
                    )
                }
            },
            (Phase::SearchList { name, idx }, SysReply::Exists(b)) => {
                if b {
                    let p = candidate_path(name.as_str(), idx);
                    (
                        Resolution { major: ma, minor: mi, phase: Phase::Finished },
                        Step::Done(Ok(p)),
                    )
                } else if idx < 2 {
                    let q = SysQuery::PathExists(candidate_path(name.as_str(), idx + 1));
                    (
                        Resolution {
                            major: ma,
                            minor: mi,
                            phase: Phase::SearchList { name, idx: idx + 1 },
                        },
                        Step::Ask(q),
                    )
                } else {
                    (
                        Resolution { major: ma, minor: mi, phase: Phase::DevScan { name } },
                        Step::Ask(SysQuery::ListDir(String::from_str("/dev"))),
                    )
                }
            },
            (Phase::DevScan { name }, SysReply::Entries(es)) => {
                match es {
                    Some(list) => {
                        let ghost lv = list.deep_view();
                        let mut k: usize = 0;
                        let mut found = false;
                        while k < list.len() && !found
                            invariant
                                k <= lv.len(),
                                lv == list.deep_view(),
                                lv.len() == list@.len(),
                                !found ==> forall|t: int| 0 <= t < k ==> lv[t] != name@,
                                found ==> lv.contains(name@),
                            decreases
                                    list@.len() - k,
                                    (if found {
                                        0int
                                    } else {
                                        1int
                                    }),
                        {
                            proof {
                                assert(lv[k as int] == list@[k as int].deep_view());
                            }
                            if list[k] == name {
                                found = true;
                                proof {
                                    assert(lv.contains(name@));
                                }
                            } else {
                                k += 1;
                            }
                        }
                        if found {
                            let p = prefixed("/dev/", name.as_str());
                            (
                                Resolution { major: ma, minor: mi, phase: Phase::Finished },
                                Step::Done(Ok(p)),
                            )
                        } else {
                            proof {
                                assert(!lv.contains(name@));
                            }
                            goto_mount(ma, mi)
                        }
                    },
                    None => goto_mount(ma, mi),
                }
            },
            (Phase::MountCheck, SysReply::Exists(b)) => {
                if b {
                    (
                        Resolution { major: ma, minor: mi, phase: Phase::MountRead },
                        Step::Ask(SysQuery::ReadLines(String::from_str("/proc/self/mountinfo"))),
                    )
                } else {
                    (
                        Resolution { major: ma, minor: mi, phase: Phase::Finished },
                        Step::Done(Err(DeviceResolveError::DeviceNotFound {
                            major: ma,
                            minor: mi,
                        })),
                    )
                }
            },
            (Phase::MountRead, SysReply::Lines(res)) => {
                match res {
                    Err(msg) => (
                        Resolution { major: ma, minor: mi, phase: Phase::Finished },
                        Step::Done(Err(DeviceResolveError::Io(msg))),
                    ),
                    Ok(lines) => scan_step(ma, mi, lines, 0),
                }
            },
            (Phase::MountProbe { lines, next, candidate }, SysReply::Exists(b)) => {
                if b {
                    (
                        Resolution { major: ma, minor: mi, phase: Phase::Finished },
                        Step::Done(Ok(candidate)),
                    )
                } else {
                    scan_step(ma, mi, lines, next)
                }
            },
            _ => {
                proof {
                    assert(false);
                }
                (
                    Resolution { major: ma, minor: mi, phase: Phase::Finished },
                    Step::Done(Err(DeviceResolveError::DeviceNotFound { major: ma, minor: mi })),
                )
            },
        }
    }
}

/// Begins a resolution for a device pair: yields the machine and the first
/// query, which asks whether the registry entry for the pair exists.
pub fn resolve_device_from_dev(major: u32, minor: u32) -> (r: (Resolution, SysQuery))
    ensures
        r.0@ == start_v(major, minor),
        Some(r.1@) == pending_of(r.0@),
{
    (
        Resolution { major, minor, phase: Phase::RegistryEntry },
        SysQuery::PathExists(registry_path(major, minor)),
    )
}

/// Begins a resolution for the device named by a packed identifier: decodes
/// the pair, then begins as [`resolve_device_from_dev`] does.
pub fn resolve_device(dev: u64) -> (r: (Resolution, SysQuery))
    ensures
        r.0@ == start_v(major_spec(dev), minor_spec(dev)),
        Some(r.1@) == pending_of(r.0@),
{
    let ma = crate::codec::major(dev);
    let mi = crate::codec::minor(dev);
    resolve_device_from_dev(ma, mi)
}

/// Where a resolution for a path begins, given the outcome of the metadata
/// query for the path: the machine for the decoded pair, or a metadata error
/// that carries the path and the error text.
pub open spec fn start_for_path_v(meta: Result<u64, Seq<char>>, path: Seq<char>) -> Result<
    ResolutionV,
    ErrorV,
> {
    match meta {
        Ok(dev) => Ok(start_v(major_spec(dev), minor_spec(dev))),
        Err(e) => Err(ErrorV::MetadataError(path + ": "@ + e)),
    }
}

/// Where a resolution for an open handle begins, given the outcome of the
/// status query on the handle: the machine for the decoded pair, or a status
/// error that carries the error text.
pub open spec fn start_for_handle_v(status: Result<u64, Seq<char>>) -> Result<
    ResolutionV,
    ErrorV,
> {
    match status {
        Ok(dev) => Ok(start_v(major_spec(dev), minor_spec(dev))),
        Err(e) => Err(ErrorV::FstatError(e)),
    }
}

/// Begins a resolution for a path from the outcome of the metadata query the
/// driver made for it, as [`start_for_path_v`] describes.
pub fn resolve_device_for_path(meta: Result<u64, String>, path: &str) -> (r: Result<
    (Resolution, SysQuery),
    DeviceResolveError,
>)
    ensures
        ({
            let mv = match meta {
                Ok(d) => Result::<u64, Seq<char>>::Ok(d),
                Err(ref e) => Result::<u64, Seq<char>>::Err(e@),
            };
            match r {
                Ok(pair) => start_for_path_v(mv, path@) == Result::<ResolutionV, ErrorV>::Ok(
                    pair.0@,
                ) && Some(pair.1@) == pending_of(pair.0@),
                Err(err) => start_for_path_v(mv, path@) == Result::<ResolutionV, ErrorV>::Err(
                    err@,
                ),
            }
        }),
{
    match meta {
        Ok(dev) => Ok(resolve_device(dev)),
        Err(e) => {
            let msg = String::from_str(path).concat(": ").concat(e.as_str());
            Err(DeviceResolveError::MetadataError(msg))
        },
    }
}

/// Begins a resolution for an open handle from the outcome of the status
/// query the driver made on it, as [`start_for_handle_v`] describes.
pub fn resolve_device_for_handle(status: Result<u64, String>) -> (r: Result<
    (Resolution, SysQuery),
    DeviceResolveError,
>)
    ensures
        ({
            let sv = match status {
                Ok(d) => Result::<u64, Seq<char>>::Ok(d),
                Err(ref e) => Result::<u64, Seq<char>>::Err(e@),
            };
            match r {
                Ok(pair) => start_for_handle_v(sv) == Result::<ResolutionV, ErrorV>::Ok(pair.0@)
                    && Some(pair.1@) == pending_of(pair.0@),
                Err(err) => start_for_handle_v(sv) == Result::<ResolutionV, ErrorV>::Err(err@),
            }
        }),
{
    match status {
        Ok(dev) => Ok(resolve_device(dev)),
        Err(e) => Err(DeviceResolveError::FstatError(e)),
    }
}

/// Where a resolution driven by a given sequence of replies ends: the result
/// once the machine hands one back, or nothing when the replies run out or
/// one of them does not answer the awaited query.
pub open spec fn run_v(r: ResolutionV, replies: Seq<ReplyV>) -> Option<Result<Seq<char>, ErrorV>>
    decreases replies.len(),
{
    if replies.len() == 0 {
        None
    } else if !fits(r, replies[0]) {
        None
    } else {
        let n = next_v(r, replies[0]);
        match n.1 {
            StepV::Done(res) => Some(res),
            StepV::Ask(_) => run_v(n.0, replies.drop_first()),
        }
    }
}

/// A scan that yields a probe resumes strictly further on, and within the
/// records.
proof fn lemma_scan_probe_bounds(lines: Seq<Seq<char>>, from: int, tma: u32, tmi: u32)
    ensures
        (scan_result(lines, from, tma, tmi) matches ScanOutcomeV::Probe(_, nxt) ==> from < nxt
            <= lines.len()),
    decreases lines.len() - from,
{
    if 0 <= from && from < lines.len() {
        lemma_scan_probe_bounds(lines, from + 1, tma, tmi);
    }
}

/// The standing of a phase in the machine's descent: later phases rank lower.
pub open spec fn rank_of(p: PhaseV) -> int {
    match p {
        PhaseV::RegistryEntry => 8,
        PhaseV::RegistryLink => 7,
        PhaseV::DevDirect { .. } => 6,
        PhaseV::SearchList { .. } => 5,
        PhaseV::DevScan { .. } => 4,
        PhaseV::MountCheck => 3,
        PhaseV::MountRead => 2,
        PhaseV::MountProbe { .. } => 1,
        PhaseV::Finished => 0,
    }
}

/// What descends within a phase of equal rank: the searcher's remaining
/// locations, and the mount records not yet scanned.
pub open spec fn sub_of(p: PhaseV) -> int {
    match p {
        PhaseV::SearchList { idx, .. } => 2 - idx,
        PhaseV::MountProbe { lines, next, .. } => lines.len() - next,
        _ => 0,
    }
}

/// Resolution is bounded: every step either ends it, or strictly descends in
/// the order of `rank_of` and `sub_of`, so a driver that answers each query
/// asks the system only finitely many things.
pub proof fn lemma_resolution_bounded(r: ResolutionV, reply: ReplyV)
    requires
        fits(r, reply),
    ensures
        ({
            let n = next_v(r, reply);
            match n.1 {
                StepV::Ask(_) => rank_of(n.0.phase) < rank_of(r.phase) || (rank_of(n.0.phase)
                    == rank_of(r.phase) && sub_of(n.0.phase) < sub_of(r.phase)),
                StepV::Done(_) => n.0.phase is Finished,
            }
        }),
{
    match (r.phase, reply) {
        (PhaseV::MountRead, ReplyV::Lines(res)) => {
            match res {
                Ok(lines) => lemma_scan_probe_bounds(lines, 0, r.major, r.minor),
                Err(_) => (),
            }
        },
        (PhaseV::MountProbe { lines, next, .. }, ReplyV::Exists(b)) => {
            if !b {
                lemma_scan_probe_bounds(lines, next, r.major, r.minor);
            }
        },
        _ => (),
    }
}

/// Resolution is deterministic: two resolutions of the same device pair that
/// read the same system state — that is, receive the same replies — end in
/// the same outcome.
pub proof fn lemma_resolution_deterministic(
    a: ResolutionV,
    b: ResolutionV,
    ra: Seq<ReplyV>,
    rb: Seq<ReplyV>,
)
    requires
        a == b,
        ra == rb,
    ensures
        run_v(a, ra) == run_v(b, rb),
{
}

/// A path and an open handle whose metadata name the same packed identifier
/// begin the very same resolution, so against the same replies both end in
/// the same outcome.
pub proof fn lemma_path_handle_agree(dev: u64, path: Seq<char>)
    ensures
        start_for_path_v(Ok(dev), path) == Result::<ResolutionV, ErrorV>::Ok(
            start_v(major_spec(dev), minor_spec(dev)),
        ),
        start_for_handle_v(Ok(dev)) == Result::<ResolutionV, ErrorV>::Ok(
            start_v(major_spec(dev), minor_spec(dev)),
        ),
{
}

/// A failed metadata query ends resolution with a metadata error that names
/// the path — never with device-not-found.
pub proof fn lemma_metadata_failure_is_metadata_error(e: Seq<char>, path: Seq<char>)
    ensures
        start_for_path_v(Err(e), path) == Result::<ResolutionV, ErrorV>::Err(
            ErrorV::MetadataError(path + ": "@ + e),
        ),
        !(start_for_path_v(Err(e), path) matches Result::Err(ErrorV::DeviceNotFound { .. })),
{
}

} // verus!
