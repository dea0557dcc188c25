//! Decoding of packed 64-bit device identifiers into (major, minor) pairs.
//!
//! The packed layout is the one glibc uses for Linux device numbers: the low
//! 8 bits of the minor number sit in bits 0..8, the low 12 bits of the major
//! number in bits 8..20, the high bits of the minor number in bits 20..32,
//! and the high bits of the major number in bits 32..64.  A naive split into
//! a high and a low 32-bit half would misread identifiers of devices with
//! major numbers of 256 and above.

use vstd::prelude::*;

verus! {

/// The major number encoded in a packed device identifier.
pub open spec fn major_spec(dev: u64) -> u32 {
    (((dev >> 8) & 0xfff) as u32) | (((dev >> 32) & !0xfff) as u32)
}

/// The minor number encoded in a packed device identifier.
pub open spec fn minor_spec(dev: u64) -> u32 {
    ((dev & 0xff) as u32) | (((dev >> 12) & !0xff) as u32)
}

/// Extracts the major device number from a packed device identifier.
pub fn major(dev: u64) -> (r: u32)
    ensures
        r == major_spec(dev),
{
    #[verifier::truncate] ((((dev >> 8) & 0xfff) as u32)) | #[verifier::truncate] ((((dev >> 32)
        & !0xfff) as u32))
}

/// Extracts the minor device number from a packed device identifier.
pub fn minor(dev: u64) -> (r: u32)
    ensures
        r == minor_spec(dev),
{
    #[verifier::truncate] (((dev & 0xff) as u32)) | #[verifier::truncate] ((((dev >> 12)
        & !0xff) as u32))
}

/// On identifiers whose major and minor numbers are both below 256, the
/// decoding agrees with the straightforward split into a high byte (major)
/// and a low byte (minor).
pub proof fn lemma_small_id_byte_split(ma: u32, mi: u32)
    requires
        ma < 256,
        mi < 256,
    ensures
        major_spec(((ma as u64) << 8) | (mi as u64)) == ma,
        minor_spec(((ma as u64) << 8) | (mi as u64)) == mi,
{
    assert(major_spec(((ma as u64) << 8) | (mi as u64)) == ma && minor_spec(((ma as u64) << 8) | (
    mi as u64)) == mi) by (bit_vector)
        requires
            ma < 256 && mi < 256,
    ;
}

} // verus!
