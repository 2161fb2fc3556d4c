//! Which files in the log directory the program manages, and the decisions
//! of pruning them to a total size cap, oldest first.

use vstd::prelude::*;
use crate::text::{chars_of, has_prefix, starts_with_chars, str_eq};

verus! {

/// The log files the program writes: the player's stderr log and the
/// daily-rotated interface logs.
pub open spec fn managed_log_file(name: Seq<char>) -> bool {
    name == "mpv-stderr.log"@ || has_prefix(name, "tui.log."@)
}

pub fn is_managed_log_file(name: &str) -> (b: bool)
    ensures
        b == managed_log_file(name@),
{
    if str_eq(name, "mpv-stderr.log") {
        return true;
    }
    let n = chars_of(name);
    let p = chars_of("tui.log.");
    starts_with_chars(n.as_slice(), p.as_slice())
}

/// The cap in bytes for a cap in MiB, saturating at `u64::MAX`.
pub open spec fn cap_bytes_spec(max_total_size_mb: u64) -> u64 {
    if max_total_size_mb * 1048576 > u64::MAX {
        u64::MAX
    } else {
        (max_total_size_mb * 1048576) as u64
    }
}

pub fn log_cap_bytes(max_total_size_mb: u64) -> (r: u64)
    ensures
        r == cap_bytes_spec(max_total_size_mb),
{
    if max_total_size_mb > u64::MAX / 1048576 {
        u64::MAX
    } else {
        max_total_size_mb * 1048576
    }
}

/// What pruning does with the next file, oldest first.
#[derive(Debug, Clone, Copy, PartialEq, Eq, Structural)]
pub enum PruneStep {
    /// The total fits under the cap: stop.
    Stop,
    /// The file is the log being written: keep it and go on.
    Keep,
    /// Delete the file.
    Delete,
}

pub open spec fn prune_step_spec(total: u64, cap: u64, is_active: bool) -> PruneStep {
    if total <= cap {
        PruneStep::Stop
    } else if is_active {
        PruneStep::Keep
    } else {
        PruneStep::Delete
    }
}

/// The step for the next file given the running total, the cap and whether
/// the file is the active log.
pub fn prune_step(total: u64, cap: u64, is_active: bool) -> (s: PruneStep)
    ensures
        s == prune_step_spec(total, cap, is_active),
{
    if total <= cap {
        PruneStep::Stop
    } else if is_active {
        PruneStep::Keep
    } else {
        PruneStep::Delete
    }
}

/// Law: pruning never deletes the log being written, and deletes nothing
/// once the total fits the cap.
pub proof fn law_prune_keeps_active(total: u64, cap: u64, is_active: bool)
    ensures
        is_active ==> prune_step_spec(total, cap, is_active) != PruneStep::Delete,
        total <= cap ==> prune_step_spec(total, cap, is_active) == PruneStep::Stop,
{
}

/// The running total after trying to delete a file of `size` bytes: less
/// by the size (saturating at zero) when the deletion succeeded.
pub fn total_after_delete(total: u64, size: u64, deleted: bool) -> (r: u64)
    ensures
        deleted ==> r == (if size <= total { (total - size) as u64 } else { 0 }),
        !deleted ==> r == total,
{
    if deleted {
        total.saturating_sub(size)
    } else {
        total
    }
}

} // verus!
