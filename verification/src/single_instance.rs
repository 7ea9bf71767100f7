//! One running instance per user session.

use vstd::prelude::*;

verus! {

/// The handle of the mutex that marks the running instance, or zero.
pub struct InstanceMutex {
    handle: isize,
}

/// What came of creating the mutex.
#[derive(Debug, Clone, Copy, PartialEq, Eq)]
pub enum MutexOutcome {
    /// It could not be created.
    Failed,
    /// It was there already, and this is another handle to it.
    Existed(isize),
    /// It was created.
    Created(isize),
}

/// Whether this is the only instance, the handle that is to be closed, and the one that
/// is held from then on.
pub open spec fn acquired(held: isize, outcome: MutexOutcome) -> (bool, Option<isize>, isize) {
    match outcome {
        MutexOutcome::Failed => (true, None, held),
        MutexOutcome::Existed(handle) => (false, Some(handle), held),
        MutexOutcome::Created(handle) => (true, None, handle),
    }
}

/// The handle that is to be closed where `held` is given up.
pub open spec fn released(held: isize) -> Option<isize> {
    if held == 0 {
        None
    } else {
        Some(held)
    }
}

impl InstanceMutex {
    /// The handle that is held, or zero.
    pub closed spec fn held(self) -> isize {
        self.handle
    }

    /// No handle is held.
    pub fn new() -> (slot: InstanceMutex)
        ensures
            slot.held() == 0,
    {
        InstanceMutex { handle: 0 }
    }
}

/// Whether this is the only instance, and the handle that is to be closed. Where
/// no mutex can be created at all, the program starts nevertheless.
pub fn acquire(slot: &mut InstanceMutex, outcome: MutexOutcome) -> (r: (bool, Option<isize>))
    ensures
        r.0 == !(outcome is Existed),
        r.1 == (match outcome {
            MutexOutcome::Existed(handle) => Some(handle),
            _ => None,
        }),
        final(slot).held() == (match outcome {
            MutexOutcome::Created(handle) => handle,
            _ => old(slot).held(),
        }),
        (r.0, r.1, final(slot).held()) == acquired(old(slot).held(), outcome),
{
    match outcome {
        MutexOutcome::Failed => (true, None),
        MutexOutcome::Existed(handle) => (false, Some(handle)),
        MutexOutcome::Created(handle) => {
            slot.handle = handle;
            (true, None)
        },
    }
}

/// Gives up the mutex: the handle that is to be closed, if one is held. It is
/// given up once.
pub fn release(slot: &mut InstanceMutex) -> (handle: Option<isize>)
    ensures
        handle == (if old(slot).held() == 0 {
            None
        } else {
            Some(old(slot).held())
        }),
        handle == released(old(slot).held()),
        final(slot).held() == 0,
{
    let raw: isize = slot.handle;
    slot.handle = 0;
    if raw != 0 {
        Some(raw)
    } else {
        None
    }
}

/// A second instance does not start and closes what it got, while the first keeps what
/// it holds. Where no mutex can be made the program starts nevertheless.
pub proof fn a_second_instance_does_not_start(held: isize, handle: isize)
    ensures
        acquired(held, MutexOutcome::Existed(handle)) == (false, Some(handle), held),
        acquired(held, MutexOutcome::Failed).0,
        acquired(held, MutexOutcome::Created(handle)).0,
        acquired(held, MutexOutcome::Created(handle)).1 is None,
{
}

/// What was acquired is what is given up, and nothing is given up twice.
pub proof fn what_was_acquired_is_given_up(held: isize, handle: isize)
    requires
        handle != 0,
    ensures
        released(acquired(held, MutexOutcome::Created(handle)).2) == Some(handle),
        released(0) is None,
{
}

} // verus!
