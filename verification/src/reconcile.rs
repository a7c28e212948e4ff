//! The reconciler: the single consumer of the event queue. For each event it
//! decides what the destination endpoint must be asked to do, keeps the
//! cycle counters, and suppresses writes whose value the destination
//! already holds.
use vstd::prelude::*;

use crate::sync::SecretOp;
use crate::sync::SecretPath;
use crate::sync::SyncStats;
use crate::sync::normalize_prefix;
use crate::sync::secret_src_to_dst_path;
use crate::sync::spec_mount_tracked;
use crate::sync::spec_normalize_prefix;
use crate::sync::spec_translate_path;
use crate::text::str_eq;

verus! {

/// What one creation or update event calls for once both reads returned.
#[derive(Debug, Clone, Copy, PartialEq, Eq, Structural)]
pub enum UpsertPlan {
    /// The source read failed: drop the event, coverage returns later.
    SkipFailedRead,
    /// The destination already holds the source value: no write.
    Unchanged,
    /// Write the source value to the destination.
    Write,
    /// A write is due, but dry-run mode suppresses it.
    Simulate,
}

/// The view of an optional secret value.
pub open spec fn opt_view(v: Option<String>) -> Option<Seq<char>> {
    match v {
        Option::Some(s) => Option::Some(s@),
        Option::None => Option::None,
    }
}

/// The decision for a creation or update, from the two reads: a failed
/// source read drops the event; a destination equal to the source is left
/// alone; anything else is written, unless dry-run suppresses it.
pub open spec fn spec_upsert_plan(
    src: Option<Seq<char>>,
    dst: Option<Seq<char>>,
    dry_run: bool,
) -> UpsertPlan {
    match src {
        Option::None => UpsertPlan::SkipFailedRead,
        Option::Some(s) => match dst {
            Option::Some(d) => if d == s {
                UpsertPlan::Unchanged
            } else if dry_run {
                UpsertPlan::Simulate
            } else {
                UpsertPlan::Write
            },
            Option::None => if dry_run {
                UpsertPlan::Simulate
            } else {
                UpsertPlan::Write
            },
        },
    }
}

/// Decide what a creation or update event calls for, given the value read
/// at the source (absent on a failed read) and at the destination (absent
/// when missing or unreadable).
pub fn plan_upsert(src_value: &Option<String>, dst_value: &Option<String>, dry_run: bool) -> (r:
    UpsertPlan)
    ensures
        r == spec_upsert_plan(opt_view(*src_value), opt_view(*dst_value), dry_run),
{
    match src_value {
        Option::None => UpsertPlan::SkipFailedRead,
        Option::Some(s) => match dst_value {
            Option::Some(d) => {
                if str_eq(d.as_str(), s.as_str()) {
                    UpsertPlan::Unchanged
                } else if dry_run {
                    UpsertPlan::Simulate
                } else {
                    UpsertPlan::Write
                }
            },
            Option::None => {
                if dry_run {
                    UpsertPlan::Simulate
                } else {
                    UpsertPlan::Write
                }
            },
        },
    }
}

/// Applying the same creation or update a second time against an unchanged
/// destination is a no-op: once the first application has put the source
/// value at the destination, the equality check suppresses every further
/// write of it.
pub proof fn lemma_upsert_idempotent(src: Option<Seq<char>>, dst: Option<Seq<char>>, dry_run: bool)
    requires
        spec_upsert_plan(src, dst, false) == UpsertPlan::Write,
    ensures
        spec_upsert_plan(src, src, dry_run) == UpsertPlan::Unchanged,
{
}

/// `d` is the destination mount that the first matching source mount maps
/// to, under the positional, index-aligned mount correspondence.
pub open spec fn spec_maps_mount(
    src_mounts: Seq<String>,
    dst_mounts: Seq<String>,
    m: Seq<char>,
    d: Seq<char>,
) -> bool {
    exists|k: int|
        0 <= k < src_mounts.len() && k < dst_mounts.len() && #[trigger] src_mounts[k]@ == m && d
            == dst_mounts[k]@ && (forall|j: int| 0 <= j < k ==> src_mounts[j]@ != m)
}

/// What the reconciler asks of its caller for one event.
#[derive(Debug, Clone)]
pub enum SyncCommand {
    /// Read the secret at `src` from the source and at `dst` from the
    /// destination, then decide with `plan_upsert`.
    ReadBoth { src: SecretPath, dst: SecretPath },
    /// Delete the secret at `dst` from the destination.
    DeleteAt { dst: SecretPath },
    /// Nothing to perform against the destination.
    Noop,
    /// A discovery pass ended: report the counters; `done` says the
    /// one-shot run is over.
    Flush { updated: u64, deleted: u64, done: bool },
}

/// The reconciler's configuration and cycle counters.
#[derive(Debug, Clone)]
pub struct Reconciler {
    pub src_prefix: String,
    pub dst_prefix: String,
    pub src_mounts: Vec<String>,
    pub dst_mounts: Vec<String>,
    pub dry_run: bool,
    pub run_once: bool,
    pub stats: SyncStats,
}

impl Reconciler {
    /// The mount correspondence is positional, so both sides must be
    /// equally long.
    pub open spec fn wf(&self) -> bool {
        self.src_mounts@.len() == self.dst_mounts@.len()
    }

    /// A reconciler over the given mount correspondence, with both
    /// prefixes normalized and the counters at zero.
    pub fn new(
        src_prefix: &str,
        dst_prefix: &str,
        src_mounts: Vec<String>,
        dst_mounts: Vec<String>,
        dry_run: bool,
        run_once: bool,
    ) -> (r: Reconciler)
        requires
            src_mounts@.len() == dst_mounts@.len(),
        ensures
            r.wf(),
            r.src_prefix@ == spec_normalize_prefix(src_prefix@),
            r.dst_prefix@ == spec_normalize_prefix(dst_prefix@),
            r.src_mounts == src_mounts,
            r.dst_mounts == dst_mounts,
            r.dry_run == dry_run,
            r.run_once == run_once,
            r.stats.updated == 0,
            r.stats.deleted == 0,
    {
        Reconciler {
            src_prefix: normalize_prefix(src_prefix),
            dst_prefix: normalize_prefix(dst_prefix),
            src_mounts,
            dst_mounts,
            dry_run,
            run_once,
            stats: SyncStats::new(),
        }
    }

    /// The destination mount the first matching source mount maps to, or
    /// nothing for a mount outside the configured set.
    pub fn lookup_mount(&self, mount: &str) -> (r: Option<String>)
        requires
            self.wf(),
        ensures
            (r is Some) == spec_mount_tracked(self.src_mounts@, mount@),
            match r {
                Option::Some(d) => spec_maps_mount(
                    self.src_mounts@,
                    self.dst_mounts@,
                    mount@,
                    d@,
                ),
                Option::None => true,
            },
    {
        let mut i: usize = 0;
        while i < self.src_mounts.len()
            invariant
                self.wf(),
                i <= self.src_mounts@.len(),
                forall|j: int| 0 <= j < i ==> #[trigger] self.src_mounts@[j]@ != mount@,
            decreases self.src_mounts@.len() - i,
        {
            if str_eq(self.src_mounts[i].as_str(), mount) {
                let d = String::from_str(self.dst_mounts[i].as_str());
                return Option::Some(d);
            }
            i += 1;
        }
        Option::None
    }

    /// Consume one event: map and translate its path, count an intended
    /// deletion, or close the cycle. The caller performs the returned
    /// command. Events carry mounts from the configured set only; the
    /// queue's producers filter them so.
    pub fn handle_op(&mut self, op: &SecretOp) -> (c: SyncCommand)
        requires
            old(self).wf(),
            match op {
                SecretOp::Create(p) => spec_mount_tracked(old(self).src_mounts@, p.mount@),
                SecretOp::Update(p) => spec_mount_tracked(old(self).src_mounts@, p.mount@),
                SecretOp::Delete(p) => spec_mount_tracked(old(self).src_mounts@, p.mount@)
                    && old(self).stats.deleted < u64::MAX,
                SecretOp::FullSyncFinished => true,
            },
        ensures
            final(self).wf(),
            final(self).src_prefix == old(self).src_prefix,
            final(self).dst_prefix == old(self).dst_prefix,
            final(self).src_mounts == old(self).src_mounts,
            final(self).dst_mounts == old(self).dst_mounts,
            final(self).dry_run == old(self).dry_run,
            final(self).run_once == old(self).run_once,
            match op {
                SecretOp::Create(p) => final(self).stats == old(self).stats && (
                c matches SyncCommand::ReadBoth { src, dst } && src.mount@ == p.mount@
                    && src.path@ == p.path@ && spec_maps_mount(
                    old(self).src_mounts@,
                    old(self).dst_mounts@,
                    p.mount@,
                    dst.mount@,
                ) && dst.path@ == spec_translate_path(
                    old(self).src_prefix@,
                    old(self).dst_prefix@,
                    p.path@,
                )),
                SecretOp::Update(p) => final(self).stats == old(self).stats && (
                c matches SyncCommand::ReadBoth { src, dst } && src.mount@ == p.mount@
                    && src.path@ == p.path@ && spec_maps_mount(
                    old(self).src_mounts@,
                    old(self).dst_mounts@,
                    p.mount@,
                    dst.mount@,
                ) && dst.path@ == spec_translate_path(
                    old(self).src_prefix@,
                    old(self).dst_prefix@,
                    p.path@,
                )),
                SecretOp::Delete(p) => final(self).stats.deleted == old(self).stats.deleted + 1
                    && final(self).stats.updated == old(self).stats.updated && (if old(self).dry_run {
                    c matches SyncCommand::Noop
                } else {
                    c matches SyncCommand::DeleteAt { dst } && spec_maps_mount(
                        old(self).src_mounts@,
                        old(self).dst_mounts@,
                        p.mount@,
                        dst.mount@,
                    ) && dst.path@ == spec_translate_path(
                        old(self).src_prefix@,
                        old(self).dst_prefix@,
                        p.path@,
                    )
                }),
                SecretOp::FullSyncFinished => final(self).stats.updated == 0
                    && final(self).stats.deleted == 0
                    && (c matches SyncCommand::Flush { updated, deleted, done }
                    && updated == old(self).stats.updated && deleted == old(self).stats.deleted
                    && done == old(self).run_once),
            },
    {
        match op {
            SecretOp::Create(p) | SecretOp::Update(p) => {
                let dst_mount = match self.lookup_mount(p.mount.as_str()) {
                    Option::Some(d) => d,
                    Option::None => vstd::pervasive::unreached(),
                };
                let dst_path = secret_src_to_dst_path(
                    self.src_prefix.as_str(),
                    self.dst_prefix.as_str(),
                    p.path.as_str(),
                );
                let src = SecretPath {
                    mount: String::from_str(p.mount.as_str()),
                    path: String::from_str(p.path.as_str()),
                };
                let dst = SecretPath { mount: dst_mount, path: dst_path };
                SyncCommand::ReadBoth { src, dst }
            },
            SecretOp::Delete(p) => {
                self.stats.deleted = self.stats.deleted + 1;
                if self.dry_run {
                    SyncCommand::Noop
                } else {
                    let dst_mount = match self.lookup_mount(p.mount.as_str()) {
                        Option::Some(d) => d,
                        Option::None => vstd::pervasive::unreached(),
                    };
                    let dst_path = secret_src_to_dst_path(
                        self.src_prefix.as_str(),
                        self.dst_prefix.as_str(),
                        p.path.as_str(),
                    );
                    SyncCommand::DeleteAt { dst: SecretPath { mount: dst_mount, path: dst_path } }
                }
            },
            SecretOp::FullSyncFinished => {
                let c = SyncCommand::Flush {
                    updated: self.stats.updated,
                    deleted: self.stats.deleted,
                    done: self.run_once,
                };
                self.stats.reset();
                c
            },
        }
    }

    /// Count one successful destination write.
    pub fn record_write(&mut self, ok: bool)
        requires
            old(self).stats.updated < u64::MAX,
        ensures
            ok ==> final(self).stats.updated == old(self).stats.updated + 1,
            !ok ==> final(self).stats.updated == old(self).stats.updated,
            final(self).stats.deleted == old(self).stats.deleted,
            final(self).src_prefix == old(self).src_prefix,
            final(self).dst_prefix == old(self).dst_prefix,
            final(self).src_mounts == old(self).src_mounts,
            final(self).dst_mounts == old(self).dst_mounts,
            final(self).dry_run == old(self).dry_run,
            final(self).run_once == old(self).run_once,
    {
        if ok {
            self.stats.updated = self.stats.updated + 1;
        }
    }
}

} // verus!
