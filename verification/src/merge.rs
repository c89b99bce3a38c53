//! Merge options, and annotated commits, the input to merge and rebase.

use crate::binding::Binding;
use crate::flags::with_flag;
use crate::native::{
    default_record, diff_minimal_bit, diff_patience_bit, ignore_whitespace_bit,
    ignore_whitespace_change_bit, ignore_whitespace_eol_bit, merge_file_diff_minimal,
    merge_file_diff_patience, merge_file_ignore_whitespace,
    merge_file_ignore_whitespace_change, merge_file_ignore_whitespace_eol,
    merge_file_simplify_alnum, merge_file_style_diff3, merge_file_style_merge,
    merge_options_init, merge_options_version, options_version, simplify_alnum_bit,
    style_diff3_bit, style_merge_bit, zeroed, MergeOptionsRecord,
};
use libc::{c_int, c_uint};
use std::marker::PhantomData;
use vstd::prelude::*;

verus! {

/// The value that a native unsigned integer takes from `value`: the value
/// reduced modulo the width of the native type, never clamped.
pub open spec fn native_uint(value: int) -> c_uint {
    (value % 0x1_0000_0000) as c_uint
}

/// An annotated commit, the input to merge and rebase.
///
/// It owns the address of one native annotated commit, taken from a scope
/// that lives for `'repo`. The address is never zero.
pub struct AnnotatedCommit<'repo> {
    raw: usize,
    _marker: PhantomData<&'repo ()>,
}

/// Merge options.
///
/// They own one options record, made by the default initializer and changed
/// only by the setters, each of which writes one field or one bit.
pub struct MergeOptions {
    raw: MergeOptionsRecord,
}

impl View for MergeOptions {
    type V = MergeOptionsRecord;

    /// The options record as it stands.
    closed spec fn view(&self) -> MergeOptionsRecord {
        self.raw
    }
}

impl MergeOptions {
    /// The version tag is the one the initializer wrote: no setter changes it.
    #[verifier::type_invariant]
    spec fn initialized(&self) -> bool {
        self.raw.version == options_version()
    }

    /// Creates a default set of merge options.
    ///
    /// A zero-filled record is handed to the default initializer with the
    /// current version number, which the initializer accepts.
    pub fn new() -> (opts: MergeOptions)
        ensures
            opts@ == default_record(),
    {
        let mut raw: MergeOptionsRecord = zeroed();
        let status: c_int = merge_options_init(&mut raw, merge_options_version());
        // The initializer accepts the current version, so there is no failure to report.
        assert(status == 0);
        MergeOptions { raw }
    }

    /// Similarity to consider a file renamed (default 50).
    pub fn rename_threshold(&mut self, thresh: u32) -> (opts: &mut MergeOptions)
        ensures
            opts@ == (MergeOptionsRecord {
                rename_threshold: native_uint(thresh as int),
                ..old(self)@
            }),
            *final(self) == *final(opts),
    {
        proof {
            use_type_invariant(&*self);
        }
        self.raw.rename_threshold = thresh;
        self
    }

    /// Maximum similarity sources to examine for renames (default 200).
    ///
    /// If the number of rename candidates (add / delete pairs) is greater
    /// than this value, inexact rename detection is aborted. This setting
    /// overrides the `merge.renameLimit` configuration value.
    pub fn target_limit(&mut self, limit: u32) -> (opts: &mut MergeOptions)
        ensures
            opts@ == (MergeOptionsRecord {
                target_limit: native_uint(limit as int),
                ..old(self)@
            }),
            *final(self) == *final(opts),
    {
        proof {
            use_type_invariant(&*self);
        }
        self.raw.target_limit = limit as c_uint;
        self
    }

    fn flag(&mut self, opt: u32, val: bool) -> (opts: &mut MergeOptions)
        ensures
            opts@ == (MergeOptionsRecord {
                file_flags: with_flag(old(self)@.file_flags, opt, val),
                ..old(self)@
            }),
            *final(self) == *final(opts),
    {
        proof {
            use_type_invariant(&*self);
        }
        if val {
            self.raw.file_flags |= opt;
        } else {
            self.raw.file_flags &= !opt;
        }
        self
    }

    /// Create standard conflicted merge files.
    pub fn standard_style(&mut self, find: bool) -> (opts: &mut MergeOptions)
        ensures
            opts@ == (MergeOptionsRecord {
                file_flags: with_flag(old(self)@.file_flags, style_merge_bit(), find),
                ..old(self)@
            }),
            *final(self) == *final(opts),
    {
        self.flag(merge_file_style_merge(), find)
    }

    /// Create diff3-style files.
    pub fn diff3_style(&mut self, find: bool) -> (opts: &mut MergeOptions)
        ensures
            opts@ == (MergeOptionsRecord {
                file_flags: with_flag(old(self)@.file_flags, style_diff3_bit(), find),
                ..old(self)@
            }),
            *final(self) == *final(opts),
    {
        self.flag(merge_file_style_diff3(), find)
    }

    /// Condense non-alphanumeric regions for simplified diff file.
    pub fn simplify_alnum(&mut self, find: bool) -> (opts: &mut MergeOptions)
        ensures
            opts@ == (MergeOptionsRecord {
                file_flags: with_flag(old(self)@.file_flags, simplify_alnum_bit(), find),
                ..old(self)@
            }),
            *final(self) == *final(opts),
    {
        self.flag(merge_file_simplify_alnum(), find)
    }

    /// Ignore all whitespace.
    pub fn ignore_whitespace(&mut self, find: bool) -> (opts: &mut MergeOptions)
        ensures
            opts@ == (MergeOptionsRecord {
                file_flags: with_flag(old(self)@.file_flags, ignore_whitespace_bit(), find),
                ..old(self)@
            }),
            *final(self) == *final(opts),
    {
        self.flag(merge_file_ignore_whitespace(), find)
    }

    /// Ignore changes in amount of whitespace.
    pub fn ignore_whitespace_change(&mut self, find: bool) -> (opts: &mut MergeOptions)
        ensures
            opts@ == (MergeOptionsRecord {
                file_flags: with_flag(old(self)@.file_flags, ignore_whitespace_change_bit(), find),
                ..old(self)@
            }),
            *final(self) == *final(opts),
    {
        self.flag(merge_file_ignore_whitespace_change(), find)
    }

    /// Ignore whitespace at end of line.
    pub fn ignore_whitespace_eol(&mut self, find: bool) -> (opts: &mut MergeOptions)
        ensures
            opts@ == (MergeOptionsRecord {
                file_flags: with_flag(old(self)@.file_flags, ignore_whitespace_eol_bit(), find),
                ..old(self)@
            }),
            *final(self) == *final(opts),
    {
        self.flag(merge_file_ignore_whitespace_eol(), find)
    }

    /// Use the "patience diff" algorithm.
    pub fn patience(&mut self, find: bool) -> (opts: &mut MergeOptions)
        ensures
            opts@ == (MergeOptionsRecord {
                file_flags: with_flag(old(self)@.file_flags, diff_patience_bit(), find),
                ..old(self)@
            }),
            *final(self) == *final(opts),
    {
        self.flag(merge_file_diff_patience(), find)
    }

    /// Take extra time to find minimal diff.
    pub fn minimal(&mut self, find: bool) -> (opts: &mut MergeOptions)
        ensures
            opts@ == (MergeOptionsRecord {
                file_flags: with_flag(old(self)@.file_flags, diff_minimal_bit(), find),
                ..old(self)@
            }),
            *final(self) == *final(opts),
    {
        self.flag(merge_file_diff_minimal(), find)
    }

    /// Acquire the underlying raw options, to read and to hand to a native
    /// call. They can be read for as long as these options are neither moved
    /// nor changed.
    pub fn raw(&self) -> (raw: &MergeOptionsRecord)
        ensures
            *raw == self@,
            raw.version == options_version(),
    {
        proof {
            use_type_invariant(self);
        }
        &self.raw
    }
}

impl<'repo> AnnotatedCommit<'repo> {
    /// The address is not null.
    #[verifier::type_invariant]
    spec fn live(&self) -> bool {
        self.raw != 0
    }
}

impl<'repo> Binding for AnnotatedCommit<'repo> {
    /// The address of the native annotated commit.
    type Raw = usize;

    /// An address may be wrapped unless it is null.
    open spec fn raw_valid(raw: usize) -> bool {
        raw != 0
    }

    closed spec fn raw_handle(&self) -> usize {
        self.raw
    }

    fn from_raw(raw: usize) -> (bound: AnnotatedCommit<'repo>) {
        AnnotatedCommit { raw: raw, _marker: PhantomData }
    }

    fn raw(&self) -> (raw: usize) {
        proof {
            use_type_invariant(self);
        }
        self.raw
    }
}

/// A native unsigned integer takes a value by modular arithmetic: a value in
/// range is kept as it is, and one out of range wraps round, so that two
/// values a whole width apart give the same field.
pub proof fn lemma_native_uint_wraps(value: int)
    ensures
        native_uint(value) == value % 0x1_0000_0000,
        0 <= value < 0x1_0000_0000 ==> native_uint(value) == value,
        native_uint(value + 0x1_0000_0000) == native_uint(value),
{
}

} // verus!
