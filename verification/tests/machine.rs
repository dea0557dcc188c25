//! Tests of the single machine steps: the query texts, the searcher's
//! fallback order, the mount-table fallback, and the error kinds and their
//! messages.

use blkpath::DeviceResolveError;
use blkpath::Resolution;
use blkpath::Step;
use blkpath::SysQuery;
use blkpath::SysReply;

/// Drives a resolution, answering each query through `answer`, until it ends.
fn drive_machine(
    start: (Resolution, SysQuery),
    answer: impl Fn(&SysQuery) -> SysReply,
) -> Result<String, DeviceResolveError> {
    let (mut r, mut q) = start;
    for _ in 0..64 {
        let reply = answer(&q);
        let (r2, s) = r.step(reply);
        r = r2;
        match s {
            Step::Ask(next) => q = next,
            Step::Done(res) => return res,
        }
    }
    panic!("resolution did not finish");
}

#[test]
fn test_registry_query_path() {
    let (_r, q) = blkpath::resolve_device_from_dev(254, 3);
    assert_eq!(
        q,
        SysQuery::PathExists(String::from("/sys/dev/block/254:3"))
    );
}

#[test]
fn test_searcher_finds_mapper_node() {
    // The name read from the registry link exists neither directly under the
    // device directory nor as the first searcher candidate; the mapper
    // location is the first that exists.
    let host = |q: &SysQuery| match q {
        SysQuery::PathExists(p) => SysReply::Exists(
            p == "/sys/dev/block/254:0" || p == "/dev/mapper/dm-0",
        ),
        SysQuery::ReadLink(_) => SysReply::Link(Some(String::from("../../block/dm-0"))),
        SysQuery::ListDir(_) => SysReply::Entries(None),
        SysQuery::ReadLines(_) => SysReply::Lines(Ok(Vec::new())),
    };
    let result = drive_machine(blkpath::resolve_device_from_dev(254, 0), host);
    assert_eq!(result, Ok(String::from("/dev/mapper/dm-0")));
}

#[test]
fn test_searcher_scans_device_directory() {
    // No well-known location holds the name; the scan of the device
    // directory finds it by exact name.
    let host = |q: &SysQuery| match q {
        SysQuery::PathExists(p) => SysReply::Exists(p == "/sys/dev/block/8:2"),
        SysQuery::ReadLink(_) => SysReply::Link(Some(String::from("../../block/sda/sda2"))),
        SysQuery::ListDir(p) => {
            assert_eq!(p, "/dev");
            SysReply::Entries(Some(vec![
                String::from("null"),
                String::from("sda2"),
                String::from("tty0"),
            ]))
        }
        SysQuery::ReadLines(_) => SysReply::Lines(Ok(Vec::new())),
    };
    let result = drive_machine(blkpath::resolve_device_from_dev(8, 2), host);
    assert_eq!(result, Ok(String::from("/dev/sda2")));
}

#[test]
fn test_unreadable_link_falls_back_to_mount_table() {
    let host = |q: &SysQuery| match q {
        SysQuery::PathExists(p) => SysReply::Exists(
            p == "/sys/dev/block/8:1" || p == "/proc/self/mountinfo",
        ),
        SysQuery::ReadLink(_) => SysReply::Link(None),
        SysQuery::ListDir(_) => SysReply::Entries(None),
        SysQuery::ReadLines(_) => SysReply::Lines(Ok(vec![String::from(
            "29 1 8:1 / / rw,relatime shared:1 - ext4 /dev/sda1 rw",
        )])),
    };
    let result = drive_machine(blkpath::resolve_device_from_dev(8, 1), host);
    assert_eq!(result, Ok(String::from("/dev/sda1")));
}

#[test]
fn test_missing_mount_table_is_device_not_found() {
    let host = |_q: &SysQuery| SysReply::Exists(false);
    let result = drive_machine(blkpath::resolve_device_from_dev(7, 9), host);
    assert_eq!(
        result,
        Err(DeviceResolveError::DeviceNotFound { major: 7, minor: 9 })
    );
}

#[test]
fn test_unreadable_mount_table_is_io_error() {
    let host = |q: &SysQuery| match q {
        SysQuery::PathExists(p) => SysReply::Exists(p == "/proc/self/mountinfo"),
        SysQuery::ReadLink(_) => SysReply::Link(None),
        SysQuery::ListDir(_) => SysReply::Entries(None),
        SysQuery::ReadLines(_) => {
            SysReply::Lines(Err(String::from("permission denied")))
        }
    };
    let result = drive_machine(blkpath::resolve_device_from_dev(8, 1), host);
    match result {
        Err(DeviceResolveError::Io(t)) => assert_eq!(t, "permission denied"),
        other => panic!("expected an I/O error, got: {:?}", other),
    }
}

#[test]
fn test_mount_candidate_taken_when_node_exists() {
    // A bare mount source yields a candidate under the device directory,
    // taken because the node exists on this host.
    let host = |q: &SysQuery| match q {
        SysQuery::PathExists(p) => SysReply::Exists(
            p == "/proc/self/mountinfo" || p == "/dev/tmpfs",
        ),
        SysQuery::ReadLink(_) => SysReply::Link(None),
        SysQuery::ListDir(_) => SysReply::Entries(None),
        SysQuery::ReadLines(_) => SysReply::Lines(Ok(vec![String::from(
            "22 20 0:21 / /dev/shm rw,nosuid,nodev shared:3 - tmpfs tmpfs rw",
        )])),
    };
    let result = drive_machine(blkpath::resolve_device_from_dev(0, 21), host);
    assert_eq!(result, Ok(String::from("/dev/tmpfs")));
}

#[test]
fn test_handle_status_failure_is_fstat_error() {
    let result = blkpath::resolve_device_for_handle(Err(String::from("Bad file descriptor")));
    match result {
        Err(DeviceResolveError::FstatError(t)) => assert_eq!(t, "Bad file descriptor"),
        other => panic!("expected a status-query error, got: {:?}", other.is_ok()),
    }
}

#[test]
fn test_handle_and_path_same_device_agree() {
    let host = |q: &SysQuery| match q {
        SysQuery::PathExists(p) => SysReply::Exists(
            p == "/sys/dev/block/8:1" || p == "/dev/sda1",
        ),
        SysQuery::ReadLink(_) => SysReply::Link(Some(String::from("../../block/sda/sda1"))),
        SysQuery::ListDir(_) => SysReply::Entries(None),
        SysQuery::ReadLines(_) => SysReply::Lines(Ok(Vec::new())),
    };
    let via_path = drive_machine(
        blkpath::resolve_device_for_path(Ok(0x0801), "/").unwrap(),
        host,
    );
    let via_handle = drive_machine(
        blkpath::resolve_device_for_handle(Ok(0x0801)).unwrap(),
        host,
    );
    assert_eq!(via_path, via_handle);
}

#[test]
fn test_error_messages() {
    assert_eq!(
        DeviceResolveError::Io(String::from("boom")).message(),
        "I/O error: boom"
    );
    assert_eq!(
        DeviceResolveError::MetadataError(String::from("/x: gone")).message(),
        "Failed to get metadata for path: /x: gone"
    );
    assert_eq!(
        DeviceResolveError::SysfsResolutionFailed { major: 8, minor: 1 }.message(),
        "Failed to resolve device via sysfs for dev 8:1"
    );
    assert_eq!(
        DeviceResolveError::MountinfoResolutionFailed { major: 254, minor: 0 }.message(),
        "Failed to resolve device via mountinfo for dev 254:0"
    );
    assert_eq!(
        DeviceResolveError::DeviceNotFound { major: 0, minor: 21 }.message(),
        "Could not resolve device for dev 0:21"
    );
    assert_eq!(
        DeviceResolveError::FstatError(String::from("bad fd")).message(),
        "Failed to fstat file descriptor: bad fd"
    );
}

#[test]
fn test_metadata_error_carries_path_and_cause() {
    let result = blkpath::resolve_device_for_path(
        Err(String::from("No such file or directory (os error 2)")),
        "/nowhere",
    );
    match result {
        Err(DeviceResolveError::MetadataError(t)) => {
            assert_eq!(t, "/nowhere: No such file or directory (os error 2)");
        }
        other => panic!("expected a metadata error, got: {:?}", other.is_ok()),
    }
}
