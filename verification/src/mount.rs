//! Parsing of mount-table records.
//!
//! Each record of the mount table is one line of whitespace-separated fields:
//! mount id, parent id, the device pair as `{major}:{minor}`, root, mount
//! point, mount options, a variable number of optional fields closed by a
//! lone `-`, then the filesystem type, the mount source and the super
//! options.  A record matching the wanted device pair yields its mount
//! source: directly when the source is an absolute path, and otherwise as a
//! device-directory candidate that only counts if it names an existing node.

use vstd::prelude::*;

use crate::digits::parse_u32;
use crate::digits::parse_u32_spec;
use crate::text::dev_path_of;
use crate::text::fields_of;
use crate::text::prefixed;
use crate::text::split_fields;

verus! {

/// The index of the first occurrence of a character, at or after `i`.
pub open spec fn find_char(s: Seq<char>, c: char, i: int) -> Option<int>
    decreases s.len() - i,
{
    if i < 0 || i >= s.len() {
        None
    } else if s[i] == c {
        Some(i)
    } else {
        find_char(s, c, i + 1)
    }
}

/// Skipping over characters that do not match leaves the first match alone.
proof fn lemma_find_char_skip(s: Seq<char>, c: char, i: int, j: int)
    requires
        0 <= i <= j <= s.len(),
        forall|k: int| i <= k < j ==> s[k] != c,
    ensures
        find_char(s, c, i) == find_char(s, c, j),
    decreases j - i,
{
    if i < j {
        lemma_find_char_skip(s, c, i + 1, j);
    }
}

/// What reading a field as a `{major}:{minor}` pair yields: the part before
/// the first colon and the part between the first and the second colon (or
/// the end), each read as a decimal number.
pub open spec fn parse_dev_field_spec(s: Seq<char>) -> Option<(u32, u32)> {
    match find_char(s, ':', 0) {
        None => None,
        Some(i) => {
            let rest = s.subrange(i + 1, s.len() as int);
            let mi_part = match find_char(rest, ':', 0) {
                Some(j) => rest.subrange(0, j),
                None => rest,
            };
            match parse_u32_spec(s.subrange(0, i)) {
                None => None,
                Some(ma) => match parse_u32_spec(mi_part) {
                    None => None,
                    Some(mi) => Some((ma, mi)),
                },
            }
        },
    }
}

/// Reads a `{major}:{minor}` field, as `parse_dev_field_spec` describes;
/// yields nothing when either half is missing or malformed.
pub fn parse_dev_field(field: &str) -> (r: Option<(u32, u32)>)
    ensures
        r == parse_dev_field_spec(field@),
{
    let n = field.unicode_len();
    let mut i: usize = 0;
    while i < n && field.get_char(i) != ':'
        invariant
            i <= n,
            n == field@.len(),
            forall|k: int| 0 <= k < i ==> field@[k] != ':',
        decreases n - i,
    {
        i += 1;
    }
    if i == n {
        proof {
            lemma_find_char_skip(field@, ':', 0, n as int);
        }
        return None;
    }
    proof {
        lemma_find_char_skip(field@, ':', 0, i as int);
        assert(find_char(field@, ':', 0) == Some(i as int));
    }
    let ma = match parse_u32(field.substring_char(0, i)) {
        Some(v) => v,
        None => {
            return None;
        },
    };
    let mut j: usize = i + 1;
    while j < n && field.get_char(j) != ':'
        invariant
            i + 1 <= j <= n,
            n == field@.len(),
            forall|k: int| i + 1 <= k < j ==> field@[k] != ':',
        decreases n - j,
    {
        j += 1;
    }
    let ghost rest = field@.subrange(i + 1, n as int);
    proof {
        assert(forall|k: int| 0 <= k < j - i - 1 ==> rest[k] != ':');
        lemma_find_char_skip(rest, ':', 0, j - i - 1);
        if j < n {
            assert(rest[j - i - 1] == ':');
            assert(find_char(rest, ':', 0) == Some(j - i - 1));
            assert(rest.subrange(0, j - i - 1) =~= field@.subrange(i + 1, j as int));
        } else {
            assert(find_char(rest, ':', 0) is None);
            assert(rest =~= field@.subrange(i + 1, j as int));
        }
    }
    let mi = match parse_u32(field.substring_char(i + 1, j)) {
        Some(v) => v,
        None => {
            return None;
        },
    };
    Some((ma, mi))
}

/// A mount source pulled out of a matching record.
#[derive(Debug, PartialEq, Eq)]
pub enum MountSource {
    /// The source is an absolute path and resolves the device directly.
    Direct(String),
    /// The source is a bare name; the candidate path under the device
    /// directory resolves the device only if it exists.
    DevCandidate(String),
}

/// What one record yields for a wanted device pair.
pub enum LineOutcome {
    /// The record is malformed or speaks of another device.
    NoMatch,
    /// The record's source, an absolute path.
    Direct(Seq<char>),
    /// The candidate path built from the record's bare source name.
    Probe(Seq<char>),
}

/// The index of the first field that is a lone dash, at or after `i`.
pub open spec fn find_dash(fields: Seq<Seq<char>>, i: int) -> Option<int>
    decreases fields.len() - i,
{
    if i < 0 || i >= fields.len() {
        None
    } else if fields[i] == seq!['-'] {
        Some(i)
    } else {
        find_dash(fields, i + 1)
    }
}

/// Skipping over fields that are no dash leaves the first dash alone.
proof fn lemma_find_dash_skip(fields: Seq<Seq<char>>, i: int, j: int)
    requires
        0 <= i <= j <= fields.len(),
        forall|k: int| i <= k < j ==> fields[k] != seq!['-'],
    ensures
        find_dash(fields, i) == find_dash(fields, j),
    decreases j - i,
{
    if i < j {
        lemma_find_dash_skip(fields, i + 1, j);
    }
}

/// What one record yields for a wanted device pair: nothing unless it has at
/// least ten fields, its third field reads as exactly the wanted pair, a lone
/// `-` field is present, and the field two places after the `-` exists; that
/// field is the mount source, taken directly when absolute and as a
/// device-directory candidate otherwise.
pub open spec fn line_result(line: Seq<char>, tma: u32, tmi: u32) -> LineOutcome {
    let fs = fields_of(line);
    if fs.len() < 10 {
        LineOutcome::NoMatch
    } else {
        match parse_dev_field_spec(fs[2]) {
            None => LineOutcome::NoMatch,
            Some((ma, mi)) => {
                if ma != tma || mi != tmi {
                    LineOutcome::NoMatch
                } else {
                    match find_dash(fs, 0) {
                        None => LineOutcome::NoMatch,
                        Some(d) => {
                            if fs.len() - d < 3 {
                                LineOutcome::NoMatch
                            } else {
                                let src = fs[d + 2];
                                if src.len() > 0 && src[0] == '/' {
                                    LineOutcome::Direct(src)
                                } else {
                                    LineOutcome::Probe(dev_path_of(src))
                                }
                            }
                        },
                    }
                }
            },
        }
    }
}

/// Whether a field is a lone dash.
fn is_dash(f: &str) -> (r: bool)
    ensures
        r <==> f@ == seq!['-'],
{
    let r = f.unicode_len() == 1 && f.get_char(0) == '-';
    proof {
        if r {
            assert(f@ =~= seq!['-']);
        }
    }
    r
}

/// Reads one mount-table record against a wanted device pair, as
/// `line_result` describes; yields nothing on a record that does not match.
pub fn parse_mountinfo_line(line: &str, target_major: u32, target_minor: u32) -> (r: Option<
    MountSource,
>)
    ensures
        match r {
            None => line_result(line@, target_major, target_minor) is NoMatch,
            Some(MountSource::Direct(p)) => line_result(line@, target_major, target_minor)
                == LineOutcome::Direct(p@),
            Some(MountSource::DevCandidate(p)) => line_result(line@, target_major, target_minor)
                == LineOutcome::Probe(p@),
        },
{
    let fields = split_fields(line);
    let ghost fs = fields_of(line@);
    if fields.len() < 10 {
        return None;
    }
    proof {
        assert(fields.deep_view()[2] == fields@[2].deep_view());
    }
    let (ma, mi) = match parse_dev_field(fields[2].as_str()) {
        Some(p) => p,
        None => {
            return None;
        },
    };
    if ma != target_major || mi != target_minor {
        return None;
    }
    let mut d: usize = 0;
    while d < fields.len() && !is_dash(fields[d].as_str())
        invariant
            d <= fields@.len(),
            fields.deep_view() == fs,
            forall|k: int| 0 <= k < d ==> fs[k] != seq!['-'],
        decreases fields@.len() - d,
    {
        proof {
            assert(fields.deep_view()[d as int] == fields@[d as int].deep_view());
        }
        d += 1;
    }
    if d == fields.len() {
        proof {
            lemma_find_dash_skip(fs, 0, d as int);
        }
        return None;
    }
    proof {
        assert(fields.deep_view()[d as int] == fields@[d as int].deep_view());
        lemma_find_dash_skip(fs, 0, d as int);
        assert(find_dash(fs, 0) == Some(d as int));
    }
    if fields.len() - d < 3 {
        return None;
    }
    let src = &fields[d + 2];
    proof {
        assert(fields.deep_view()[d + 2] == fields@[d + 2].deep_view());
    }
    if src.as_str().unicode_len() > 0 && src.as_str().get_char(0) == '/' {
        Some(MountSource::Direct(src.clone()))
    } else {
        Some(MountSource::DevCandidate(prefixed("/dev/", src.as_str())))
    }
}

/// Where a scan of the mount table from a given record onward ends.
pub enum ScanOutcomeV {
    /// No further record matches.
    Exhausted,
    /// A record's source resolves the device directly.
    Direct(Seq<char>),
    /// A record's source yields a candidate path to probe, and the index at
    /// which the scan resumes if the probe fails.
    Probe(Seq<char>, int),
}

/// What scanning the records from index `i` onward yields for a wanted
/// device pair: the first record that yields anything decides.
pub open spec fn scan_result(lines: Seq<Seq<char>>, i: int, tma: u32, tmi: u32) -> ScanOutcomeV
    decreases lines.len() - i,
{
    if i < 0 || i >= lines.len() {
        ScanOutcomeV::Exhausted
    } else {
        match line_result(lines[i], tma, tmi) {
            LineOutcome::NoMatch => scan_result(lines, i + 1, tma, tmi),
            LineOutcome::Direct(p) => ScanOutcomeV::Direct(p),
            LineOutcome::Probe(p) => ScanOutcomeV::Probe(p, i + 1),
        }
    }
}

/// Where a scan of the mount table from a given record onward ends.
#[derive(Debug, PartialEq, Eq)]
pub enum ScanOutcome {
    /// No further record matches.
    Exhausted,
    /// A record's source resolves the device directly.
    Direct(String),
    /// A record's source yields a candidate path to probe, and the index at
    /// which the scan resumes if the probe fails.
    Probe(String, usize),
}

/// Scans the mount-table records from index `from` onward for the wanted
/// device pair, as `scan_result` describes.
pub fn scan_mount_lines(lines: &Vec<String>, from: usize, tma: u32, tmi: u32) -> (r: ScanOutcome)
    ensures
        match r {
            ScanOutcome::Exhausted => scan_result(lines.deep_view(), from as int, tma, tmi)
                == ScanOutcomeV::Exhausted,
            ScanOutcome::Direct(p) => scan_result(lines.deep_view(), from as int, tma, tmi)
                == ScanOutcomeV::Direct(p@),
            ScanOutcome::Probe(p, nxt) => scan_result(lines.deep_view(), from as int, tma, tmi)
                == ScanOutcomeV::Probe(p@, nxt as int),
        },
{
    let ghost dv = lines.deep_view();
    let mut i: usize = from;
    while i < lines.len()
        invariant
            from <= i,
            i <= dv.len() || from > dv.len(),
            dv == lines.deep_view(),
            dv.len() == lines@.len(),
            scan_result(dv, from as int, tma, tmi) == scan_result(dv, i as int, tma, tmi),
        decreases lines@.len() - i,
    {
        proof {
            assert(dv[i as int] == lines@[i as int].deep_view());
        }
        match parse_mountinfo_line(lines[i].as_str(), tma, tmi) {
            None => {
                i += 1;
            },
            Some(MountSource::Direct(p)) => {
                return ScanOutcome::Direct(p);
            },
            Some(MountSource::DevCandidate(p)) => {
                return ScanOutcome::Probe(p, i + 1);
            },
        }
    }
    ScanOutcome::Exhausted
}

} // verus!
