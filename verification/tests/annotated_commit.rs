use git2_merge::{AnnotatedCommit, Binding};
use std::cell::Cell;

/// Stands in for the native free function: it counts its calls and keeps the
/// last address it was given.
struct FakeNative {
    freed: Cell<u32>,
    last: Cell<usize>,
}

impl FakeNative {
    fn new() -> FakeNative {
        FakeNative {
            freed: Cell::new(0),
            last: Cell::new(0),
        }
    }

    fn free(&self, address: usize) {
        self.freed.set(self.freed.get() + 1);
        self.last.set(address);
    }
}

/// Frees the commit it holds when it goes out of scope.
struct Guard<'repo> {
    commit: AnnotatedCommit<'repo>,
    native: &'repo FakeNative,
}

impl<'repo> Drop for Guard<'repo> {
    fn drop(&mut self) {
        self.native.free(self.commit.raw());
    }
}

fn wrap<'repo>(native: &'repo FakeNative, address: usize) -> Guard<'repo> {
    Guard {
        commit: AnnotatedCommit::from_raw(address),
        native,
    }
}

fn leave_early(native: &FakeNative, early: bool) -> Result<usize, usize> {
    let guard = wrap(native, 0x2000);
    if early {
        return Err(guard.commit.raw());
    }
    Ok(guard.commit.raw() + 1)
}

#[test]
fn raw_shows_the_wrapped_address() {
    let commit = AnnotatedCommit::from_raw(0x1000);
    assert_eq!(commit.raw(), 0x1000);
    assert_eq!(commit.raw(), 0x1000);
}

#[test]
fn the_greatest_and_the_least_address_are_kept() {
    assert_eq!(AnnotatedCommit::from_raw(1).raw(), 1);
    assert_eq!(AnnotatedCommit::from_raw(usize::MAX).raw(), usize::MAX);
}

#[test]
fn ownership_moves_with_the_value() {
    let commit = AnnotatedCommit::from_raw(0x3000);
    let moved = commit;
    let boxed = Box::new(moved);
    assert_eq!(boxed.raw(), 0x3000);
}

#[test]
fn a_guarded_commit_is_freed_once_at_scope_end() {
    let native = FakeNative::new();
    {
        let guard = wrap(&native, 0x1000);
        assert_eq!(guard.commit.raw(), 0x1000);
        assert_eq!(native.freed.get(), 0);
    }
    assert_eq!(native.freed.get(), 1);
    assert_eq!(native.last.get(), 0x1000);
}

#[test]
fn a_guarded_commit_is_freed_once_on_early_exit() {
    let native = FakeNative::new();
    assert_eq!(leave_early(&native, true), Err(0x2000));
    assert_eq!(native.freed.get(), 1);
    assert_eq!(native.last.get(), 0x2000);
}

#[test]
fn a_guarded_commit_is_freed_once_on_normal_return() {
    let native = FakeNative::new();
    assert_eq!(leave_early(&native, false), Ok(0x2001));
    assert_eq!(native.freed.get(), 1);
}

#[test]
fn each_guarded_commit_is_freed_once() {
    let native = FakeNative::new();
    {
        let _first = wrap(&native, 0x10);
        let second = wrap(&native, 0x20);
        let moved = second;
        assert_eq!(moved.commit.raw(), 0x20);
    }
    assert_eq!(native.freed.get(), 2);
    assert_eq!(native.last.get(), 0x10);
}
