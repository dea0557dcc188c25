//! Tests of the resolution machine, driven by scripted replies that stand in
//! for a live system.

use blkpath::DeviceResolveError;
use blkpath::MountSource;
use blkpath::Resolution;
use blkpath::Step;
use blkpath::SysQuery;
use blkpath::SysReply;

/// Drives a resolution, answering each query through `answer`, until it ends.
fn drive(
    start: (Resolution, SysQuery),
    answer: impl Fn(&SysQuery) -> SysReply,
) -> Result<String, DeviceResolveError> {
    let (mut r, mut q) = start;
    for _ in 0..64 {
        let reply = answer(&q);
        let (r2, s) = r.step(reply);
        r = r2;
        match s {
            Step::Ask(next) => q = next,
            Step::Done(res) => return res,
        }
    }
    panic!("resolution did not finish");
}

/// Replies of a typical host whose root filesystem is device 8:1 on
/// /dev/sda1, reachable through the device registry.
fn root_host(q: &SysQuery) -> SysReply {
    match q {
        SysQuery::PathExists(p) => {
            SysReply::Exists(p == "/sys/dev/block/8:1" || p == "/dev/sda1")
        }
        SysQuery::ReadLink(_) => SysReply::Link(Some(String::from(
            "../../devices/pci0000:00/0000:00:01.0/block/sda/sda1",
        ))),
        SysQuery::ListDir(_) => SysReply::Entries(None),
        SysQuery::ReadLines(_) => SysReply::Lines(Ok(Vec::new())),
    }
}

#[test]
fn test_major_minor_extraction() {
    let dev = 0x0801_u64;
    assert_eq!(blkpath::major(dev), 8);
    assert_eq!(blkpath::minor(dev), 1);
}

#[test]
fn test_extended_major_minor_extraction() {
    // major 0x12345 does not fit the low 12 bits: its high bits sit in the
    // upper half of the identifier.
    let dev: u64 = ((0x12345_u64 & 0xfff) << 8) | ((0x12345_u64 & !0xfff) << 32);
    assert_eq!(blkpath::major(dev), 0x12345);
    assert_eq!(blkpath::minor(dev), 0);
    // minor 300 does not fit the low 8 bits: its high bits sit at bit 20.
    let dev: u64 = (8_u64 << 8) | (300_u64 & 0xff) | ((300_u64 & !0xff) << 12);
    assert_eq!(blkpath::major(dev), 8);
    assert_eq!(blkpath::minor(dev), 300);
}

#[test]
fn test_parse_dev_field() {
    assert_eq!(blkpath::parse_dev_field("8:1"), Some((8, 1)));
    assert_eq!(blkpath::parse_dev_field("254:0"), Some((254, 0)));
    assert_eq!(blkpath::parse_dev_field("invalid"), None);
    assert_eq!(blkpath::parse_dev_field("8:"), None);
    assert_eq!(blkpath::parse_dev_field(":1"), None);
}

#[test]
fn test_parse_dev_field_edges() {
    // Only the parts before and between the first two colons count.
    assert_eq!(blkpath::parse_dev_field("8:1:5"), Some((8, 1)));
    // A leading plus sign is accepted, as a plain decimal read would.
    assert_eq!(blkpath::parse_dev_field("+8:+1"), Some((8, 1)));
    // The halves must fit in 32 bits.
    assert_eq!(blkpath::parse_dev_field("4294967295:0"), Some((4294967295, 0)));
    assert_eq!(blkpath::parse_dev_field("4294967296:0"), None);
    assert_eq!(blkpath::parse_dev_field(""), None);
    assert_eq!(blkpath::parse_dev_field("8:x"), None);
}

#[test]
fn test_resolve_device_for_root() {
    let start = blkpath::resolve_device_for_path(Ok(0x0801), "/").unwrap();
    let result = drive(start, root_host);
    if result.is_ok() {
        let device = result.unwrap();
        assert!(device.starts_with("/dev"));
    }
}

#[test]
fn test_resolve_device_nonexistent() {
    let result = blkpath::resolve_device_for_path(
        Err(String::from("No such file or directory (os error 2)")),
        "/nonexistent/path/that/does/not/exist",
    );
    assert!(result.is_err());
}

#[test]
fn test_parse_mountinfo_line() {
    let line = "29 1 8:1 / / rw,relatime shared:1 - ext4 /dev/sda1 rw";
    let result = blkpath::parse_mountinfo_line(line, 8, 1);
    assert_eq!(
        result,
        Some(MountSource::Direct(String::from("/dev/sda1")))
    );

    let result = blkpath::parse_mountinfo_line(line, 9, 2);
    assert!(result.is_none());
}

#[test]
fn test_parse_mountinfo_line_with_special_fs() {
    // tmpfs has no real device node: the source does not start with a slash,
    // so the record only yields a candidate that counts if it exists.
    let line = "22 20 0:21 / /dev/shm rw,nosuid,nodev shared:3 - tmpfs tmpfs rw";
    let result = blkpath::parse_mountinfo_line(line, 0, 21);
    assert_eq!(
        result,
        Some(MountSource::DevCandidate(String::from("/dev/tmpfs")))
    );
}

#[test]
fn test_parse_mountinfo_line_malformed() {
    // Fewer than ten fields: no match, whatever the pair.
    assert!(blkpath::parse_mountinfo_line("29 1 8:1 / / rw - ext4", 8, 1).is_none());
    // No lone dash separator: no match.
    let line = "29 1 8:1 / / rw,relatime shared:1 ext4 /dev/sda1 rw extra";
    assert!(blkpath::parse_mountinfo_line(line, 8, 1).is_none());
    // A device field that does not parse: no match.
    let line = "29 1 white:rabbit / / rw,relatime shared:1 - ext4 /dev/sda1 rw";
    assert!(blkpath::parse_mountinfo_line(line, 8, 1).is_none());
}

#[test]
fn test_pathbuf_resolve_device() {
    let start = blkpath::resolve_device_for_path(Ok(0x0801), "/").unwrap();
    let result = drive(start, root_host);
    if result.is_ok() {
        let device = result.unwrap();
        assert!(device.starts_with("/dev"));
    }
}

#[test]
fn test_root_device_resolution() {
    let start = blkpath::resolve_device_for_path(Ok(0x0801), "/").unwrap();
    match drive(start, root_host) {
        Ok(device) => {
            assert!(
                device.starts_with("/dev"),
                "Device path should start with /dev, got: {}",
                device
            );
        }
        Err(DeviceResolveError::DeviceNotFound { major, minor }) => {
            println!("Device not found for root: {}:{}", major, minor);
        }
        Err(e) => {
            panic!("Unexpected error resolving root device: {:?}", e);
        }
    }
}

#[test]
fn test_convenience_function_matches_trait() {
    // Beginning from the packed identifier and beginning from the decoded
    // pair read the same system state the same way.
    let a = drive(
        {
            let (r, q) = blkpath::resolve_device(0x0801);
            (r, q)
        },
        root_host,
    );
    let b = drive(blkpath::resolve_device_from_dev(8, 1), root_host);
    match (a, b) {
        (Ok(x), Ok(y)) => assert_eq!(x, y),
        (Err(_), Err(_)) => {}
        _ => panic!("Results should match"),
    }
}

#[test]
fn test_pathbuf_matches_path() {
    let a = drive(
        blkpath::resolve_device_for_path(Ok(0x0801), "/").unwrap(),
        root_host,
    );
    let b = drive(
        blkpath::resolve_device_for_path(Ok(0x0801), "/").unwrap(),
        root_host,
    );
    match (a, b) {
        (Ok(x), Ok(y)) => assert_eq!(x, y),
        (Err(_), Err(_)) => {}
        _ => panic!("Results should match"),
    }
}

#[test]
fn test_nonexistent_path_returns_error() {
    let result = blkpath::resolve_device_for_path(
        Err(String::from("No such file or directory (os error 2)")),
        "/nonexistent/path/that/does/not/exist",
    );
    match result {
        Err(DeviceResolveError::MetadataError(_)) => {}
        Err(e) => panic!("Unexpected error type: {:?}", e),
        Ok(_) => panic!("Should have failed"),
    }
}

#[test]
fn test_consistent_results() {
    let result1 = drive(
        blkpath::resolve_device_for_path(Ok(0x0801), "/").unwrap(),
        root_host,
    );
    let result2 = drive(
        blkpath::resolve_device_for_path(Ok(0x0801), "/").unwrap(),
        root_host,
    );
    match (result1, result2) {
        (Ok(a), Ok(b)) => assert_eq!(a, b, "Same path should return same device"),
        (Err(_), Err(_)) => {}
        _ => panic!("Inconsistent results"),
    }
}

#[test]
fn test_proc_filesystem() {
    // A virtual filesystem: no registry entry, and the mount record's source
    // is a bare name whose candidate node does not exist.
    let proc_host = |q: &SysQuery| match q {
        SysQuery::PathExists(p) => SysReply::Exists(p == "/proc/self/mountinfo"),
        SysQuery::ReadLink(_) => SysReply::Link(None),
        SysQuery::ListDir(_) => SysReply::Entries(None),
        SysQuery::ReadLines(_) => SysReply::Lines(Ok(vec![String::from(
            "17 28 0:22 / /proc rw,nosuid,nodev,noexec,relatime shared:12 - proc proc rw",
        )])),
    };
    let result = drive(blkpath::resolve_device_for_path(Ok(22), "/proc").unwrap(), proc_host);
    match result {
        Ok(_) | Err(DeviceResolveError::DeviceNotFound { .. }) => {}
        Err(e) => panic!("Unexpected error for /proc: {:?}", e),
    }
}

#[test]
fn test_tmp_directory() {
    // /tmp on a tmpfs of its own, found through the mount table.
    let tmp_host = |q: &SysQuery| match q {
        SysQuery::PathExists(p) => SysReply::Exists(p == "/proc/self/mountinfo"),
        SysQuery::ReadLink(_) => SysReply::Link(None),
        SysQuery::ListDir(_) => SysReply::Entries(None),
        SysQuery::ReadLines(_) => SysReply::Lines(Ok(vec![
            String::from("29 1 8:1 / / rw,relatime shared:1 - ext4 /dev/sda1 rw"),
            String::from("36 29 0:30 / /tmp rw,nosuid,nodev shared:17 - tmpfs tmpfs rw"),
        ])),
    };
    let result = drive(blkpath::resolve_device_for_path(Ok(30), "/tmp").unwrap(), tmp_host);
    match result {
        Ok(device) => {
            assert!(
                device.starts_with("/dev"),
                "Device path should start with /dev, got: {}",
                device
            );
        }
        Err(DeviceResolveError::DeviceNotFound { .. }) => {}
        Err(e) => panic!("Unexpected error for /tmp: {:?}", e),
    }
}
