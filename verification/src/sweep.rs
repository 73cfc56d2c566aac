//! Retention sweeper: decides, for each entry of the log directory, whether
//! it must be archived (an oversized plain-text log), deleted (an archive
//! past the age threshold), or kept as it is.
//!
//! The decision for one entry depends only on that entry, the two thresholds
//! and the current time, so the caller may evaluate and carry out the
//! decisions for different entries in any order or in parallel.

use vstd::prelude::*;
use vstd::string::StrSliceExecFns;
use crate::text::str_eq;

verus! {

/// What one sweep pass does with one directory entry.
#[derive(Clone, Copy, Debug, PartialEq, Eq, Structural)]
pub enum SweepAction {
    /// Compress the entry into a new archive, then delete the original.
    Archive,
    /// Delete the entry permanently.
    Delete,
    /// Leave the entry untouched.
    Keep,
}

/// One directory entry as the sweeper sees it: its file name (the last path
/// component), its size in bytes, and its last-modified time in seconds
/// since the epoch.
pub struct EntryMeta {
    pub name: String,
    pub size: u64,
    pub modified: u64,
}

/// The extension of a file name: the characters after the last `.`, where a
/// `.` in the leading position does not count (a hidden file such as
/// `".txt"` has no extension). `None` when the name has no such `.`.
pub open spec fn spec_extension(name: Seq<char>) -> Option<Seq<char>>
    decreases name.len(),
{
    if name.len() <= 1 {
        None
    } else if name.last() == '.' {
        Some(Seq::empty())
    } else {
        match spec_extension(name.drop_last()) {
            Some(e) => Some(e.push(name.last())),
            None => None,
        }
    }
}

proof fn lemma_extension_none(name: Seq<char>)
    requires
        forall|j: int| 1 <= j < name.len() ==> name[j] != '.',
    ensures
        spec_extension(name) is None,
    decreases name.len(),
{
    if name.len() > 1 {
        lemma_extension_none(name.drop_last());
    }
}

proof fn lemma_extension_at(name: Seq<char>, d: int)
    requires
        1 <= d < name.len(),
        name[d] == '.',
        forall|j: int| d < j < name.len() ==> name[j] != '.',
    ensures
        spec_extension(name) == Some(name.subrange(d + 1, name.len() as int)),
    decreases name.len(),
{
    if d == name.len() - 1 {
        assert(name.subrange(d + 1, name.len() as int) =~= Seq::<char>::empty());
    } else {
        lemma_extension_at(name.drop_last(), d);
        assert(name.drop_last().subrange(d + 1, name.len() - 1).push(name.last()) =~= name
            .subrange(d + 1, name.len() as int));
    }
}

/// How old an entry is: `now - modified` in whole seconds, and zero for an
/// entry whose recorded time lies in the future.
pub open spec fn spec_age(now: u64, modified: u64) -> u64 {
    if now >= modified {
        (now - modified) as u64
    } else {
        0u64
    }
}

/// The sweep rule for one entry: a plain-text log (`txt`) whose size has
/// reached the size threshold is archived; an archive (`zip`) strictly older
/// than the age threshold is deleted; every other entry is kept.
pub open spec fn spec_entry_action(
    name: Seq<char>,
    size: u64,
    modified: u64,
    now: u64,
    size_threshold: u64,
    age_threshold: u64,
) -> SweepAction {
    match spec_extension(name) {
        Some(e) => {
            if e == "txt"@ {
                if size >= size_threshold {
                    SweepAction::Archive
                } else {
                    SweepAction::Keep
                }
            } else if e == "zip"@ {
                if spec_age(now, modified) > age_threshold {
                    SweepAction::Delete
                } else {
                    SweepAction::Keep
                }
            } else {
                SweepAction::Keep
            }
        },
        None => SweepAction::Keep,
    }
}

/// The extension of a file name, or `None` when it has none.
fn extension_of(name: &str) -> (r: Option<&str>)
    ensures
        match r {
            Some(e) => spec_extension(name@) == Some(e@),
            None => spec_extension(name@) is None,
        },
{
    let len = name.unicode_len();
    let mut i: usize = len;
    while i > 1
        invariant
            i <= len,
            len > 0 ==> i >= 1,
            len == name@.len(),
            forall|j: int| i <= j < len ==> name@[j] != '.',
        decreases i,
    {
        if name.get_char(i - 1) == '.' {
            proof {
                lemma_extension_at(name@, i - 1);
            }
            return Some(name.substring_char(i, len));
        }
        i = i - 1;
    }
    proof {
        lemma_extension_none(name@);
    }
    None
}

/// Decides what one sweep pass does with one directory entry.
pub fn entry_action(
    name: &str,
    size: u64,
    modified: u64,
    now: u64,
    size_threshold: u64,
    age_threshold: u64,
) -> (a: SweepAction)
    ensures
        a == spec_entry_action(name@, size, modified, now, size_threshold, age_threshold),
{
    match extension_of(name) {
        Some(e) => {
            if str_eq(e, "txt") {
                if size >= size_threshold {
                    SweepAction::Archive
                } else {
                    SweepAction::Keep
                }
            } else if str_eq(e, "zip") {
                let age: u64 = if now >= modified {
                    now - modified
                } else {
                    0
                };
                if age > age_threshold {
                    SweepAction::Delete
                } else {
                    SweepAction::Keep
                }
            } else {
                SweepAction::Keep
            }
        },
        None => SweepAction::Keep,
    }
}

/// Decides one whole sweep pass: one action per directory entry, each
/// depending on that entry alone, so the actions may be carried out
/// concurrently in any order.
pub fn plan_sweep(
    entries: &Vec<EntryMeta>,
    now: u64,
    size_threshold: u64,
    age_threshold: u64,
) -> (actions: Vec<SweepAction>)
    ensures
        actions.len() == entries.len(),
        forall|i: int|
            0 <= i < entries.len() ==> actions[i] == spec_entry_action(
                entries[i].name@,
                entries[i].size,
                entries[i].modified,
                now,
                size_threshold,
                age_threshold,
            ),
{
    let mut actions: Vec<SweepAction> = Vec::new();
    let mut k: usize = 0;
    while k < entries.len()
        invariant
            0 <= k <= entries.len(),
            actions.len() == k,
            forall|i: int|
                0 <= i < k ==> actions[i] == spec_entry_action(
                    entries[i].name@,
                    entries[i].size,
                    entries[i].modified,
                    now,
                    size_threshold,
                    age_threshold,
                ),
        decreases entries.len() - k,
    {
        let e = &entries[k];
        let a = entry_action(e.name.as_str(), e.size, e.modified, now, size_threshold, age_threshold);
        actions.push(a);
        k = k + 1;
    }
    actions
}

/// A sweep over a clean directory is a no-op: when no entry is an oversized
/// plain-text log and none is an archive past the age threshold, every entry
/// is kept, so the directory contents are unchanged.
pub proof fn lemma_clean_sweep_is_noop(
    entries: Seq<EntryMeta>,
    now: u64,
    size_threshold: u64,
    age_threshold: u64,
)
    requires
        forall|i: int|
            0 <= i < entries.len() ==> !(spec_extension(entries[i].name@) == Some("txt"@)
                && entries[i].size >= size_threshold),
        forall|i: int|
            0 <= i < entries.len() ==> !(spec_extension(entries[i].name@) == Some("zip"@)
                && spec_age(now, entries[i].modified) > age_threshold),
    ensures
        forall|i: int|
            0 <= i < entries.len() ==> spec_entry_action(
                entries[i].name@,
                entries[i].size,
                entries[i].modified,
                now,
                size_threshold,
                age_threshold,
            ) == SweepAction::Keep,
{
}

/// A sweep over a directory of oversized plain-text logs archives every one
/// of them: each of the N entries is turned into an archive and none is left
/// as a plain-text file, whatever order the per-entry work runs in.
pub proof fn lemma_oversized_all_archived(
    entries: Seq<EntryMeta>,
    now: u64,
    size_threshold: u64,
    age_threshold: u64,
)
    requires
        forall|i: int|
            0 <= i < entries.len() ==> spec_extension(entries[i].name@) == Some("txt"@)
                && entries[i].size >= size_threshold,
    ensures
        forall|i: int|
            0 <= i < entries.len() ==> spec_entry_action(
                entries[i].name@,
                entries[i].size,
                entries[i].modified,
                now,
                size_threshold,
                age_threshold,
            ) == SweepAction::Archive,
{
}

} // verus!
