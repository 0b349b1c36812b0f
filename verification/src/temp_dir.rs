//! Scoped temporary directories: the name scheme and the cleanup decision.
//!
//! A resource's name gets a collision-resistant suffix built from the
//! wall-clock time in nanoseconds, the process id, and a hash of the
//! current thread — good enough to avoid collisions without coordination.
//! The directory is deleted when its scope ends, on success and on
//! failure alike, unless it was explicitly disarmed. Creating and removing
//! the directory is filesystem work done by the surrounding process; it
//! creates the directory for a fresh `TempDir` and, when the scope ends,
//! removes the tree exactly when [`TempDir::should_delete`] says so.

use vstd::prelude::*;

use crate::paths::joined;
use crate::paths::join_path;
use crate::text::dec_of;
use crate::text::dec_string;

verus! {

/// The unique suffix: time, process and thread, dash-separated.
pub open spec fn time_thread_id_text(ns: nat, process_id: nat, thread_id: nat) -> Seq<char> {
    dec_of(ns) + seq!['-'] + dec_of(process_id) + seq!['-'] + dec_of(thread_id)
}

/// Renders the unique suffix for the given time, process and thread.
pub fn time_thread_id(ns: u128, process_id: u32, thread_id: u64) -> (r: String)
    ensures
        r@ == time_thread_id_text(ns as nat, process_id as nat, thread_id as nat),
{
    let mut s = dec_string(ns);
    s.append("-");
    let p = dec_string(process_id as u128);
    s.append(p.as_str());
    s.append("-");
    let t = dec_string(thread_id as u128);
    s.append(t.as_str());
    proof {
        reveal_strlit("-");
        assert(s@ =~= time_thread_id_text(ns as nat, process_id as nat, thread_id as nat));
    }
    s
}

/// Relies on `std::time::SystemTime::now` and `duration_since` against the
/// epoch: the wall clock in nanoseconds, or zero should the clock read
/// before the epoch. The result depends on the moment of the call, so
/// nothing is promised of it.
#[verifier::external_body]
pub fn now_ns() -> (r: u128) {
    std::time::SystemTime::now()
        .duration_since(std::time::UNIX_EPOCH)
        .map(|d| d.as_nanos())
        .unwrap_or(0)
}

/// A temporary directory owned by a scope: its path, and whether the
/// surrounding process is to delete the tree when the scope ends.
pub struct TempDir {
    pub path: String,
    pub delete_on_drop: bool,
}

impl TempDir {
    /// A scoped directory named `dir_name` under `temp_root`, armed for
    /// deletion.
    pub fn new(temp_root: &str, dir_name: &str) -> (r: TempDir)
        ensures
            r.path@ == joined(temp_root@, dir_name@),
            r.delete_on_drop,
    {
        TempDir { path: join_path(temp_root, dir_name), delete_on_drop: true }
    }

    /// A scoped directory under `temp_root` whose name is `prefix`
    /// followed by the unique suffix for the given time, process and
    /// thread; armed for deletion.
    pub fn with_prefix(
        temp_root: &str,
        prefix: &str,
        ns: u128,
        process_id: u32,
        thread_id: u64,
    ) -> (r: TempDir)
        ensures
            r.path@ == joined(
                temp_root@,
                prefix@ + time_thread_id_text(ns as nat, process_id as nat, thread_id as nat),
            ),
            r.delete_on_drop,
    {
        let mut name = String::from_str(prefix);
        let id = time_thread_id(ns, process_id, thread_id);
        name.append(id.as_str());
        Self::new(temp_root, name.as_str())
    }

    /// The directory's path.
    pub fn path(&self) -> (r: &str)
        ensures
            r@ == self.path@,
    {
        self.path.as_str()
    }

    /// Disarms deletion: the directory is kept when the scope ends.
    pub fn no_delete_on_drop(&mut self)
        ensures
            final(self).path == old(self).path,
            !final(self).delete_on_drop,
    {
        self.delete_on_drop = false;
    }

    /// Whether the tree is to be removed when the scope ends: always,
    /// unless deletion was disarmed.
    pub fn should_delete(&self) -> (r: bool)
        ensures
            r == self.delete_on_drop,
    {
        self.delete_on_drop
    }
}

} // verus!
