//! The size of the window, which is saved once the user has stopped to change it.

use vstd::prelude::*;

verus! {

/// How long a size has to last before it is saved, in nanoseconds.
pub const SETTLE: u64 = 1_000_000_000;

/// What is known of the window's size.
#[derive(Clone, Copy, Debug, PartialEq, Eq)]
pub struct SizeSaver {
    /// The size at the last look.
    pub last_size: (u32, u32),
    /// When the size was last seen to change, in nanoseconds, unless it has been saved since.
    pub last_change: Option<u64>,
    /// The size that was saved last.
    pub saved_size: (u32, u32),
}

/// What is known at the start, when the window has its saved size.
pub open spec fn at_start(size: (u32, u32)) -> SizeSaver {
    SizeSaver { last_size: size, last_change: None, saved_size: size }
}

/// What is known after a look at the window.
pub open spec fn looked(s: SizeSaver, current: (u32, u32), now: u64) -> SizeSaver {
    if current != s.last_size {
        SizeSaver { last_size: current, last_change: Some(now), ..s }
    } else {
        s
    }
}

/// Whether the size is to be saved after a look at the window.
pub open spec fn to_save(s: SizeSaver, current: (u32, u32), now: u64) -> bool {
    current != s.saved_size && (looked(s, current, now).last_change matches Some(t) && now - t
        >= SETTLE)
}

/// What is known once the size has been saved.
pub open spec fn after_save(s: SizeSaver, current: (u32, u32)) -> SizeSaver {
    SizeSaver { saved_size: current, last_change: None, ..s }
}

impl SizeSaver {
    /// Begins with a window of its saved size.
    pub fn new(width: u32, height: u32) -> (r: SizeSaver)
        ensures
            r == at_start((width, height)),
    {
        SizeSaver { last_size: (width, height), last_change: None, saved_size: (width, height) }
    }

    /// Looks at the window, and says whether its size is to be saved.
    pub fn look(&mut self, width: u32, height: u32, now: u64) -> (r: bool)
        ensures
            *final(self) == looked(*old(self), (width, height), now),
            r == to_save(*old(self), (width, height), now),
    {
        if width != self.last_size.0 || height != self.last_size.1 {
            self.last_size = (width, height);
            self.last_change = Some(now);
        }
        let unsaved = width != self.saved_size.0 || height != self.saved_size.1;
        match self.last_change {
            Some(t) => unsaved && now >= t && now - t >= SETTLE,
            None => false,
        }
    }

    /// Notes that the size has been saved.
    pub fn saved(&mut self, width: u32, height: u32)
        ensures
            *final(self) == after_save(*old(self), (width, height)),
    {
        self.saved_size = (width, height);
        self.last_change = None;
    }
}

// ---------------------------------------------------------------------------
// Laws

/// A size is saved only if it is another than the one saved before, and only if it has lasted.
pub proof fn only_settled_sizes_are_saved(s: SizeSaver, current: (u32, u32), now: u64)
    requires
        to_save(s, current, now),
    ensures
        current != s.saved_size,
        current == s.last_size,
        s.last_change matches Some(t) && t + SETTLE <= now,
{
}

/// A size that has been saved is not saved again until the window has had another one.
pub proof fn saved_sizes_are_not_saved_again(
    s: SizeSaver,
    current: (u32, u32),
    now: u64,
    later: u64,
)
    requires
        to_save(s, current, now),
    ensures
        !to_save(after_save(looked(s, current, now), current), current, later),
        looked(after_save(looked(s, current, now), current), current, later) == after_save(
            looked(s, current, now),
            current,
        ),
{
}

/// A new size that lasts is saved at the second look, a second later.
pub proof fn settled_sizes_are_saved(s: SizeSaver, current: (u32, u32), now: u64, later: u64)
    requires
        current != s.last_size,
        current != s.saved_size,
        later - now >= SETTLE,
    ensures
        !to_save(s, current, now),
        to_save(looked(s, current, now), current, later),
{
}

/// A size is saved as soon as it has lasted a full second, and not before; a look notes a new size
/// with the time at which it was seen, and leaves an old one alone.
pub proof fn sizes_last_a_second(s: SizeSaver, current: (u32, u32), now: u64)
    ensures
        current == s.last_size ==> looked(s, current, now) == s,
        current != s.last_size ==> looked(s, current, now).last_size == current && looked(
            s,
            current,
            now,
        ).last_change == Some(now) && looked(s, current, now).saved_size == s.saved_size
            && !to_save(s, current, now),
        current == s.last_size && current != s.saved_size ==> (s.last_change matches Some(t) ==> (
        to_save(s, current, now) <==> now >= t + 1_000_000_000)),
        current == s.saved_size || s.last_change is None && current == s.last_size ==> !to_save(
            s,
            current,
            now,
        ),
        after_save(s, current).saved_size == current,
        after_save(s, current).last_size == s.last_size,
        at_start(current).saved_size == current && at_start(current).last_size == current,
        !to_save(at_start(current), current, now),
{
}

} // verus!
