//! The native options structure as plain values, the constants that the
//! `libgit2-sys` bindings give for it, and its default initializer.

use libc::{c_int, c_uint};
use vstd::prelude::*;

verus! {

/// The fields of the native `git_merge_options` structure that hold numbers.
///
/// The native structure has two more fields, both pointers (`metric` and
/// `default_driver`). The initializer leaves them null and nothing in this
/// crate sets them, so a record stands for the native structure with those two
/// fields null.
#[derive(Clone, Copy, Debug, PartialEq, Eq, Structural)]
pub struct MergeOptionsRecord {
    /// Version tag of the structure.
    pub version: c_uint,
    /// Flags of the tree merge.
    pub flags: u32,
    /// Similarity, in percent, from which a file counts as renamed.
    pub rename_threshold: c_uint,
    /// Greatest number of rename candidates to examine.
    pub target_limit: c_uint,
    /// Greatest number of virtual merge bases to build.
    pub recursion_limit: c_uint,
    /// Which side a conflicting region is resolved in favor of.
    pub file_favor: u32,
    /// Flags of the file merge, one behavior per bit.
    pub file_flags: u32,
}

/// The version of the options structure that this crate writes.
pub open spec fn options_version() -> c_uint {
    1
}

/// Tree-merge flag: detect renames.
pub open spec fn find_renames_bit() -> u32 {
    0x01
}

/// File-merge flag: standard conflict markers.
pub open spec fn style_merge_bit() -> u32 {
    0x01
}

/// File-merge flag: diff3-style conflict markers.
pub open spec fn style_diff3_bit() -> u32 {
    0x02
}

/// File-merge flag: condense non-alphanumeric regions.
pub open spec fn simplify_alnum_bit() -> u32 {
    0x04
}

/// File-merge flag: ignore all whitespace.
pub open spec fn ignore_whitespace_bit() -> u32 {
    0x08
}

/// File-merge flag: ignore changes in the amount of whitespace.
pub open spec fn ignore_whitespace_change_bit() -> u32 {
    0x10
}

/// File-merge flag: ignore whitespace at the end of a line.
pub open spec fn ignore_whitespace_eol_bit() -> u32 {
    0x20
}

/// File-merge flag: use the patience diff algorithm.
pub open spec fn diff_patience_bit() -> u32 {
    0x40
}

/// File-merge flag: take extra time to find a minimal diff.
pub open spec fn diff_minimal_bit() -> u32 {
    0x80
}

/// The masks of the eight file-merge flags that the options can toggle, in
/// the order of their bits.
pub open spec fn file_flag_bits() -> Seq<u32> {
    seq![
        style_merge_bit(),
        style_diff3_bit(),
        simplify_alnum_bit(),
        ignore_whitespace_bit(),
        ignore_whitespace_change_bit(),
        ignore_whitespace_eol_bit(),
        diff_patience_bit(),
        diff_minimal_bit(),
    ]
}

/// Each file-merge flag is one bit of its own: flag number `i` is bit number
/// `i` and nothing else, so no two flags share a bit.
pub proof fn lemma_file_flags_independent(i: int, j: int)
    requires
        0 <= i < 8,
        0 <= j < 8,
        i != j,
    ensures
        file_flag_bits()[i] == 1u32 << (i as u32),
        file_flag_bits()[i] & file_flag_bits()[j] == 0,
{
    let a = i as u32;
    let b = j as u32;
    assert(1u32 << 0u32 == 0x01 && 1u32 << 1u32 == 0x02 && 1u32 << 2u32 == 0x04 && 1u32 << 3u32
        == 0x08) by (bit_vector);
    assert(1u32 << 4u32 == 0x10 && 1u32 << 5u32 == 0x20 && 1u32 << 6u32 == 0x40 && 1u32 << 7u32
        == 0x80) by (bit_vector);
    assert(file_flag_bits()[i] == 1u32 << a);
    assert(file_flag_bits()[j] == 1u32 << b);
    assert((1u32 << a) & (1u32 << b) == 0) by (bit_vector)
        requires
            a < 32,
            b < 32,
            a != b,
    ;
}

/// The record with every field zero.
pub open spec fn zeroed_record() -> MergeOptionsRecord {
    MergeOptionsRecord {
        version: 0,
        flags: 0,
        rename_threshold: 0,
        target_limit: 0,
        recursion_limit: 0,
        file_favor: 0,
        file_flags: 0,
    }
}

/// The record that the native initializer writes: the current version tag,
/// rename detection switched on, every other field zero.
pub open spec fn default_record() -> MergeOptionsRecord {
    MergeOptionsRecord { version: options_version(), flags: find_renames_bit(), ..zeroed_record() }
}

/// Whether the native initializer accepts a caller's version number: it must
/// be positive and no greater than the version the library was built for.
pub open spec fn version_accepted(version: c_uint) -> bool {
    0 < version <= options_version()
}

/// Reads `libgit2_sys::GIT_MERGE_OPTIONS_VERSION`, which the bindings define as 1.
#[verifier::external_body]
pub(crate) fn merge_options_version() -> (version: c_uint)
    ensures
        version == options_version(),
{
    libgit2_sys::GIT_MERGE_OPTIONS_VERSION
}

/// Reads `libgit2_sys::GIT_MERGE_FIND_RENAMES`, which the bindings define as `1 << 0`.
#[verifier::external_body]
pub(crate) fn merge_find_renames() -> (bit: u32)
    ensures
        bit == find_renames_bit(),
{
    libgit2_sys::GIT_MERGE_FIND_RENAMES
}

/// Reads `libgit2_sys::GIT_MERGE_FILE_STYLE_MERGE`, which the bindings define as `1 << 0`.
#[verifier::external_body]
pub(crate) fn merge_file_style_merge() -> (bit: u32)
    ensures
        bit == style_merge_bit(),
{
    libgit2_sys::GIT_MERGE_FILE_STYLE_MERGE
}

/// Reads `libgit2_sys::GIT_MERGE_FILE_STYLE_DIFF3`, which the bindings define as `1 << 1`.
#[verifier::external_body]
pub(crate) fn merge_file_style_diff3() -> (bit: u32)
    ensures
        bit == style_diff3_bit(),
{
    libgit2_sys::GIT_MERGE_FILE_STYLE_DIFF3
}

/// Reads `libgit2_sys::GIT_MERGE_FILE_SIMPLIFY_ALNUM`, which the bindings define as `1 << 2`.
#[verifier::external_body]
pub(crate) fn merge_file_simplify_alnum() -> (bit: u32)
    ensures
        bit == simplify_alnum_bit(),
{
    libgit2_sys::GIT_MERGE_FILE_SIMPLIFY_ALNUM
}

/// Reads `libgit2_sys::GIT_MERGE_FILE_IGNORE_WHITESPACE`, which the bindings define as `1 << 3`.
#[verifier::external_body]
pub(crate) fn merge_file_ignore_whitespace() -> (bit: u32)
    ensures
        bit == ignore_whitespace_bit(),
{
    libgit2_sys::GIT_MERGE_FILE_IGNORE_WHITESPACE
}

/// Reads `libgit2_sys::GIT_MERGE_FILE_IGNORE_WHITESPACE_CHANGE`, which the bindings define
/// as `1 << 4`.
#[verifier::external_body]
pub(crate) fn merge_file_ignore_whitespace_change() -> (bit: u32)
    ensures
        bit == ignore_whitespace_change_bit(),
{
    libgit2_sys::GIT_MERGE_FILE_IGNORE_WHITESPACE_CHANGE
}

/// Reads `libgit2_sys::GIT_MERGE_FILE_IGNORE_WHITESPACE_EOL`, which the bindings define
/// as `1 << 5`.
#[verifier::external_body]
pub(crate) fn merge_file_ignore_whitespace_eol() -> (bit: u32)
    ensures
        bit == ignore_whitespace_eol_bit(),
{
    libgit2_sys::GIT_MERGE_FILE_IGNORE_WHITESPACE_EOL
}

/// Reads `libgit2_sys::GIT_MERGE_FILE_DIFF_PATIENCE`, which the bindings define as `1 << 6`.
#[verifier::external_body]
pub(crate) fn merge_file_diff_patience() -> (bit: u32)
    ensures
        bit == diff_patience_bit(),
{
    libgit2_sys::GIT_MERGE_FILE_DIFF_PATIENCE
}

/// Reads `libgit2_sys::GIT_MERGE_FILE_DIFF_MINIMAL`, which the bindings define as `1 << 7`.
#[verifier::external_body]
pub(crate) fn merge_file_diff_minimal() -> (bit: u32)
    ensures
        bit == diff_minimal_bit(),
{
    libgit2_sys::GIT_MERGE_FILE_DIFF_MINIMAL
}

/// Gives a zero-filled record, the state in which the initializer expects to
/// find the structure.
pub fn zeroed() -> (record: MergeOptionsRecord)
    ensures
        record == zeroed_record(),
{
    MergeOptionsRecord {
        version: 0,
        flags: 0,
        rename_threshold: 0,
        target_limit: 0,
        recursion_limit: 0,
        file_favor: 0,
        file_flags: 0,
    }
}

/// Initializes `opts` with the native defaults, as the native library's
/// `git_merge_options_init` does.
///
/// The native function first checks the version number it is given. A number
/// it accepts makes it overwrite the whole structure with the defaults and
/// return 0. Any other number makes it return -1 and leave the structure as it
/// was.
pub fn merge_options_init(opts: &mut MergeOptionsRecord, version: c_uint) -> (status: c_int)
    ensures
        version_accepted(version) ==> status == 0 && *final(opts) == default_record(),
        !version_accepted(version) ==> status == -1 && *final(opts) == *old(opts),
{
    let current: c_uint = merge_options_version();
    if version == 0 || version > current {
        return -1;
    }
    let mut template: MergeOptionsRecord = zeroed();
    template.version = current;
    template.flags = merge_find_renames();
    *opts = template;
    0
}

} // verus!
