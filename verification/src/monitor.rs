//! Lock-file monitor logic: turns filesystem create/remove events for one
//! sentinel file into updates of the published boolean flag.
//!
//! The watching itself (registering with the notification facility, blocking
//! for events, the worker thread, the shared atomic cell) is host glue; the
//! host hands each observed event to [`LockFileMonitor::on_event`] as plain
//! values and publishes [`LockFileMonitor`]'s `flag` field after each call.

use vstd::prelude::*;

verus! {

/// The kind of filesystem event the watcher reported for some path.
#[derive(Clone, Copy, Debug)]
pub enum FsEventKind {
    /// The path came into existence.
    Create,
    /// The path was removed.
    Remove,
    /// Any other operation (writes, metadata changes, renames away, ...).
    Other,
}

/// An event path concerns the sentinel file exactly when its final
/// component equals the sentinel file name: the path ends with the name,
/// and what precedes the name, if anything, ends with a path separator.
pub open spec fn spec_sentinel_matches(path: Seq<char>, name: Seq<char>) -> bool {
    &&& name.len() > 0
    &&& path.len() >= name.len()
    &&& path.subrange(path.len() - name.len(), path.len() as int) == name
    &&& (path.len() == name.len() || path[path.len() - name.len() - 1] == '/')
}

/// The flag value after one event: a create of the sentinel file sets it, a
/// remove of the sentinel file clears it, and every other event — another
/// operation kind, or any path that is not the sentinel file — leaves it
/// unchanged.
pub open spec fn spec_next_flag(
    current: bool,
    kind: FsEventKind,
    path: Seq<char>,
    name: Seq<char>,
) -> bool {
    if spec_sentinel_matches(path, name) {
        match kind {
            FsEventKind::Create => true,
            FsEventKind::Remove => false,
            FsEventKind::Other => current,
        }
    } else {
        current
    }
}

/// Decides whether `path`'s final component equals `name`.
pub fn sentinel_matches(path: &str, name: &str) -> (r: bool)
    ensures
        r == spec_sentinel_matches(path@, name@),
{
    let path_len = path.unicode_len();
    let name_len = name.unicode_len();
    if name_len == 0 || path_len < name_len {
        return false;
    }
    let offset = path_len - name_len;
    if offset > 0 && path.get_char(offset - 1) != '/' {
        return false;
    }
    let mut i: usize = 0;
    while i < name_len
        invariant
            0 <= i <= name_len,
            name_len == name@.len(),
            path_len == path@.len(),
            path_len >= name_len,
            offset == path_len - name_len,
            forall|j: int| 0 <= j < i ==> path@[offset + j] == name@[j],
        decreases name_len - i,
    {
        if path.get_char(offset + i) != name.get_char(i) {
            return false;
        }
        i = i + 1;
    }
    assert(path@.subrange(offset as int, path_len as int) =~= name@);
    true
}

/// The monitor's observable state: the sentinel file name it filters for
/// and the latest flag value it has derived. The host's worker publishes
/// `flag` to the shared atomic cell after construction and after every
/// event.
pub struct LockFileMonitor {
    /// Last observed existence of the sentinel file.
    pub flag: bool,
    /// File name (final path component) of the sentinel file.
    pub sentinel: String,
}

impl LockFileMonitor {
    /// Builds the monitor state. `file_exists` is the sentinel file's
    /// actual on-disk existence, checked synchronously by the caller, so
    /// that the flag is correct before the first event is processed.
    pub fn new(sentinel: String, file_exists: bool) -> (m: Self)
        ensures
            m.flag == file_exists,
            m.sentinel == sentinel,
    {
        LockFileMonitor { flag: file_exists, sentinel }
    }

    /// Folds one filesystem event into the flag.
    pub fn on_event(&mut self, kind: FsEventKind, path: &str)
        ensures
            final(self).flag == spec_next_flag(old(self).flag, kind, path@, old(self).sentinel@),
            final(self).sentinel == old(self).sentinel,
    {
        if sentinel_matches(path, self.sentinel.as_str()) {
            match kind {
                FsEventKind::Create => {
                    self.flag = true;
                },
                FsEventKind::Remove => {
                    self.flag = false;
                },
                FsEventKind::Other => {},
            }
        }
    }
}

/// Repeated events are idempotent: after a create of the sentinel file the
/// flag reads true, after a remove it reads false, however often the event
/// repeats and whatever the flag read before.
pub proof fn lemma_event_idempotent(current: bool, path: Seq<char>, name: Seq<char>)
    requires
        spec_sentinel_matches(path, name),
    ensures
        spec_next_flag(current, FsEventKind::Create, path, name),
        spec_next_flag(
            spec_next_flag(current, FsEventKind::Create, path, name),
            FsEventKind::Create,
            path,
            name,
        ),
        !spec_next_flag(current, FsEventKind::Remove, path, name),
        !spec_next_flag(
            spec_next_flag(current, FsEventKind::Remove, path, name),
            FsEventKind::Remove,
            path,
            name,
        ),
{
}

} // verus!
