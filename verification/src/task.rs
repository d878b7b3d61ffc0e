//! The per-key rename state machine, the copy guard and the pending-deletion
//! set.
//!
//! One task handles one listed key: transform, then — for a changed key that
//! is not a dry run — optionally fetch grants, optionally fetch properties,
//! issue the copy, and only after the copy has succeeded schedule the
//! deletion of the source.  The driver performs the store calls the actions
//! ask for and feeds their results back in; every decision between two calls
//! is made, and verified, here.

use vstd::prelude::*;
use crate::config::Config;
use crate::descriptor::{
    bare_properties_match, build_copy_descriptor_bare, build_copy_descriptor_preserving,
    common_descriptor_matches, preserved_properties_match, CopyDescriptor, HeadProperties,
};
use crate::errors::GranteeParseError;
use crate::expr::{substituted, RenameExpr};
use crate::grants::{
    all_records_ok, record_error_matches, record_ok, rendered_grants, translate_grants,
    GrantLists, GrantRecord,
};
use crate::listing::ObjectKey;
use crate::strutil::{clone_opt_string, str_eq};

verus! {

/// Where a key's task stands: which store result it is waiting for.
#[derive(Clone, Copy, Debug, PartialEq, Eq, Structural)]
pub enum KeyPhase {
    AwaitingAcl,
    AwaitingHead,
    AwaitingCopy,
    Finished,
}

/// How a key's task ended.
#[derive(Clone, Copy, Debug, PartialEq, Eq, Structural)]
pub enum KeyOutcome {
    /// The transform left the key unchanged: nothing to do.
    Skipped,
    /// The rename was announced only: dry-run mode issues no store call.
    DryRun,
    /// The copy succeeded; the source deletion is the guard's duty.
    Renamed,
    /// The copy failed; the source is left untouched.
    CopyFailed,
}

/// What the driver must do next for this key.
pub enum KeyAction {
    /// The task is over; no store call follows.
    Finish(KeyOutcome),
    /// Fetch the object's access grants, then report them to `on_acl`.
    FetchAcl,
    /// Fetch the object's properties, then report them to `on_head`.
    FetchHead,
    /// Issue exactly this copy, then report success or failure to `on_copy`.
    IssueCopy(CopyDescriptor),
}

/// One key's task: the key, its transform, the grants gathered so far, and
/// the phase of the per-key state machine.
pub struct KeyTask {
    pub config: Config,
    pub bucket: String,
    pub src_name: String,
    pub storage_class: Option<String>,
    pub target: String,
    pub grants: GrantLists,
    pub phase: KeyPhase,
}

/// Whether the configuration calls for a grant lookup: grants are preserved
/// and no canned ACL overrides them.
pub open spec fn needs_acl_lookup(c: Config) -> bool {
    !c.no_preserve_acl && c.canned_acl is None
}

/// Everything `start` guarantees: the task carries the key and its transform,
/// and the first action is skipping an unchanged key, finishing a dry run,
/// fetching grants, fetching properties, or going straight to the copy — in
/// exactly that order of precedence.
pub open spec fn task_start_post(
    c: Config,
    bucket: Seq<char>,
    expr: Seq<char>,
    key: ObjectKey,
    t: KeyTask,
    a: KeyAction,
) -> bool {
    let target = substituted(expr, key.name@);
    &&& t.config == c
    &&& t.bucket@ == bucket
    &&& t.src_name == key.name
    &&& t.storage_class == key.storage_class
    &&& t.target@ == target
    &&& if target == key.name@ {
        a == KeyAction::Finish(KeyOutcome::Skipped) && t.phase == KeyPhase::Finished
    } else if c.dry_run {
        a == KeyAction::Finish(KeyOutcome::DryRun) && t.phase == KeyPhase::Finished
    } else if needs_acl_lookup(c) {
        a == KeyAction::FetchAcl && t.phase == KeyPhase::AwaitingAcl
    } else if !c.no_preserve_properties {
        a == KeyAction::FetchHead && t.phase == KeyPhase::AwaitingHead
    } else {
        &&& t.phase == KeyPhase::AwaitingCopy
        &&& t.grants.read.deep_view().len() == 0
        &&& t.grants.read_acp.deep_view().len() == 0
        &&& t.grants.write_acp.deep_view().len() == 0
        &&& t.grants.full_control.deep_view().len() == 0
        &&& (a matches KeyAction::IssueCopy(d) && common_descriptor_matches(
            d,
            bucket,
            key.name@,
            key.storage_class,
            t.target,
            c.canned_acl,
            c.no_preserve_acl,
            t.grants,
        ) && bare_properties_match(d))
    }
}

/// Starts one key's task: transforms the key and decides the first action.
pub fn start(config: &Config, bucket: &str, expr: &RenameExpr, key: ObjectKey) -> (r: (
    KeyTask,
    KeyAction,
))
    ensures
        task_start_post(*config, bucket@, expr@, key, r.0, r.1),
{
    let target = expr.transform(key.name.as_str());
    if str_eq(target.as_str(), key.name.as_str()) {
        let task = KeyTask {
            config: *config,
            bucket: bucket.to_owned(),
            src_name: key.name,
            storage_class: key.storage_class,
            target,
            grants: GrantLists::empty(),
            phase: KeyPhase::Finished,
        };
        return (task, KeyAction::Finish(KeyOutcome::Skipped));
    }
    if config.dry_run {
        let task = KeyTask {
            config: *config,
            bucket: bucket.to_owned(),
            src_name: key.name,
            storage_class: key.storage_class,
            target,
            grants: GrantLists::empty(),
            phase: KeyPhase::Finished,
        };
        return (task, KeyAction::Finish(KeyOutcome::DryRun));
    }
    if !config.no_preserve_acl && config.canned_acl.is_none() {
        let task = KeyTask {
            config: *config,
            bucket: bucket.to_owned(),
            src_name: key.name,
            storage_class: key.storage_class,
            target,
            grants: GrantLists::empty(),
            phase: KeyPhase::AwaitingAcl,
        };
        return (task, KeyAction::FetchAcl);
    }
    if !config.no_preserve_properties {
        let task = KeyTask {
            config: *config,
            bucket: bucket.to_owned(),
            src_name: key.name,
            storage_class: key.storage_class,
            target,
            grants: GrantLists::empty(),
            phase: KeyPhase::AwaitingHead,
        };
        return (task, KeyAction::FetchHead);
    }
    let grants = GrantLists::empty();
    let descriptor = build_copy_descriptor_bare(
        bucket,
        key.name.as_str(),
        clone_opt_string(&key.storage_class),
        target.clone(),
        config.canned_acl,
        config.no_preserve_acl,
        &grants,
    );
    let task = KeyTask {
        config: *config,
        bucket: bucket.to_owned(),
        src_name: key.name,
        storage_class: key.storage_class,
        target,
        grants,
        phase: KeyPhase::AwaitingCopy,
    };
    (task, KeyAction::IssueCopy(descriptor))
}

impl KeyTask {
    /// Takes the fetched grant records in: a translation error finishes the
    /// task with that error; otherwise the grants are kept and the task
    /// fetches properties, or goes straight to the bare copy when properties
    /// are not preserved.
    pub fn on_acl(&mut self, records: &Vec<GrantRecord>) -> (r: Result<
        KeyAction,
        GranteeParseError,
    >)
        requires
            old(self).phase == KeyPhase::AwaitingAcl,
        ensures
            final(self).config == old(self).config,
            final(self).bucket == old(self).bucket,
            final(self).src_name == old(self).src_name,
            final(self).storage_class == old(self).storage_class,
            final(self).target == old(self).target,
            r is Ok <==> all_records_ok(records@),
            r matches Err(e) ==> {
                &&& final(self).phase == KeyPhase::Finished
                &&& exists|j: int|
                    {
                        &&& 0 <= j < records@.len()
                        &&& !record_ok(#[trigger] records@[j])
                        &&& (forall|k: int| 0 <= k < j ==> record_ok(#[trigger] records@[k]))
                        &&& record_error_matches(records@[j], e)
                    }
            },
            r matches Ok(a) ==> {
                &&& final(self).grants.read.deep_view() == rendered_grants(records@, "READ"@)
                &&& final(self).grants.read_acp.deep_view() == rendered_grants(
                    records@,
                    "READ_ACP"@,
                )
                &&& final(self).grants.write_acp.deep_view() == rendered_grants(
                    records@,
                    "WRITE_ACP"@,
                )
                &&& final(self).grants.full_control.deep_view() == rendered_grants(
                    records@,
                    "FULL_CONTROL"@,
                )
                &&& if !old(self).config.no_preserve_properties {
                    a == KeyAction::FetchHead && final(self).phase == KeyPhase::AwaitingHead
                } else {
                    &&& final(self).phase == KeyPhase::AwaitingCopy
                    &&& (a matches KeyAction::IssueCopy(d) && common_descriptor_matches(
                        d,
                        old(self).bucket@,
                        old(self).src_name@,
                        old(self).storage_class,
                        old(self).target,
                        old(self).config.canned_acl,
                        old(self).config.no_preserve_acl,
                        final(self).grants,
                    ) && bare_properties_match(d))
                }
            },
    {
        match translate_grants(records) {
            Err(e) => {
                self.phase = KeyPhase::Finished;
                Err(e)
            },
            Ok(lists) => {
                self.grants = lists;
                if !self.config.no_preserve_properties {
                    self.phase = KeyPhase::AwaitingHead;
                    Ok(KeyAction::FetchHead)
                } else {
                    let descriptor = build_copy_descriptor_bare(
                        self.bucket.as_str(),
                        self.src_name.as_str(),
                        clone_opt_string(&self.storage_class),
                        self.target.clone(),
                        self.config.canned_acl,
                        self.config.no_preserve_acl,
                        &self.grants,
                    );
                    self.phase = KeyPhase::AwaitingCopy;
                    Ok(KeyAction::IssueCopy(descriptor))
                }
            },
        }
    }

    /// Takes the fetched properties in and issues the property-preserving
    /// copy.
    pub fn on_head(&mut self, head: HeadProperties) -> (r: KeyAction)
        requires
            old(self).phase == KeyPhase::AwaitingHead,
        ensures
            final(self).config == old(self).config,
            final(self).bucket == old(self).bucket,
            final(self).src_name == old(self).src_name,
            final(self).storage_class == old(self).storage_class,
            final(self).target == old(self).target,
            final(self).grants == old(self).grants,
            final(self).phase == KeyPhase::AwaitingCopy,
            r matches KeyAction::IssueCopy(d) && common_descriptor_matches(
                d,
                old(self).bucket@,
                old(self).src_name@,
                old(self).storage_class,
                old(self).target,
                old(self).config.canned_acl,
                old(self).config.no_preserve_acl,
                old(self).grants,
            ) && preserved_properties_match(d, head),
    {
        let descriptor = build_copy_descriptor_preserving(
            self.bucket.as_str(),
            self.src_name.as_str(),
            clone_opt_string(&self.storage_class),
            self.target.clone(),
            self.config.canned_acl,
            self.config.no_preserve_acl,
            head,
            &self.grants,
        );
        self.phase = KeyPhase::AwaitingCopy;
        KeyAction::IssueCopy(descriptor)
    }

    /// Takes the copy's outcome in and finishes the task: only a successful
    /// copy yields a guard, and only a guard can schedule the source's
    /// deletion.
    pub fn on_copy(&mut self, copy_succeeded: bool) -> (r: (Option<CopyGuard>, KeyOutcome))
        requires
            old(self).phase == KeyPhase::AwaitingCopy,
        ensures
            task_copy_post(*old(self), *final(self), copy_succeeded, r.0, r.1),
    {
        self.phase = KeyPhase::Finished;
        if copy_succeeded {
            let guard = CopyGuard {
                bucket: self.bucket.clone(),
                src_key: self.src_name.clone(),
            };
            (Some(guard), KeyOutcome::Renamed)
        } else {
            (None, KeyOutcome::CopyFailed)
        }
    }
}

/// Everything `on_copy` guarantees: the task finishes unchanged but for its
/// phase, a successful copy yields the guard bound to this source key, and a
/// failed copy yields none.
pub open spec fn task_copy_post(
    o: KeyTask,
    n: KeyTask,
    copy_succeeded: bool,
    guard: Option<CopyGuard>,
    outcome: KeyOutcome,
) -> bool {
    &&& n.config == o.config
    &&& n.bucket == o.bucket
    &&& n.src_name == o.src_name
    &&& n.storage_class == o.storage_class
    &&& n.target == o.target
    &&& n.grants == o.grants
    &&& n.phase == KeyPhase::Finished
    &&& if copy_succeeded {
        &&& (guard matches Some(g) && g.spec_bucket() == o.bucket@ && g.spec_src_key()
            == o.src_name@)
        &&& outcome == KeyOutcome::Renamed
    } else {
        guard is None && outcome == KeyOutcome::CopyFailed
    }
}

/// The copy guard: proof that the copy of its source key has succeeded.  Its
/// one capability is finalization, which schedules the source's deletion;
/// nothing else ever enters the pending-deletion set.
pub struct CopyGuard {
    bucket: String,
    src_key: String,
}

impl CopyGuard {
    /// The bucket the guarded copy ran in.
    pub closed spec fn spec_bucket(&self) -> Seq<char> {
        self.bucket@
    }

    /// The source key whose copy succeeded.
    pub closed spec fn spec_src_key(&self) -> Seq<char> {
        self.src_key@
    }

    /// Finalizes the guard: registers the source key in the pending-deletion
    /// set and hands the driver the deletion to issue asynchronously.  The
    /// caller must not await the deletion before going on: rename latency
    /// excludes source cleanup by design.
    pub fn finalize(self, pending: &mut PendingDeletions) -> (r: DeleteRequest)
        ensures
            final(pending)@ == old(pending)@.push(self.spec_src_key()),
            r.bucket@ == self.spec_bucket(),
            r.key@ == self.spec_src_key(),
    {
        pending.scheduled.push(self.src_key.clone());
        proof {
            assert(pending.scheduled.deep_view() =~= old(pending).scheduled.deep_view().push(
                self.src_key@,
            ));
        }
        DeleteRequest { bucket: self.bucket, key: self.src_key }
    }
}

/// One deletion for the driver to issue: the source key of a completed copy.
#[derive(Debug, PartialEq, Eq)]
pub struct DeleteRequest {
    pub bucket: String,
    pub key: String,
}

/// The pending-deletion set: the source keys whose deletion has been
/// scheduled.  Every entry comes from finalizing a copy guard, so every entry
/// names a key whose copy succeeded; the shutdown barrier drains the driver's
/// deletion handles before the process exits.
pub struct PendingDeletions {
    scheduled: Vec<String>,
}

impl View for PendingDeletions {
    type V = Seq<Seq<char>>;

    closed spec fn view(&self) -> Seq<Seq<char>> {
        self.scheduled.deep_view()
    }
}

impl PendingDeletions {
    /// An empty set: nothing is scheduled before the first copy succeeds.
    pub fn new() -> (r: PendingDeletions)
        ensures
            r@ == Seq::<Seq<char>>::empty(),
    {
        let r = PendingDeletions { scheduled: Vec::new() };
        proof {
            assert(r.scheduled.deep_view() =~= Seq::<Seq<char>>::empty());
        }
        r
    }

    /// The scheduled source keys, in scheduling order.
    pub fn scheduled_keys(&self) -> (r: &Vec<String>)
        ensures
            r.deep_view() == self@,
    {
        &self.scheduled
    }
}

/// Starts every key's task at once: the orchestrator's fan-out, one task and
/// one first action per listed key, bounded by nothing but the key set.
pub fn plan_run(config: &Config, bucket: &str, expr: &RenameExpr, keys: &Vec<ObjectKey>) -> (r:
    Vec<(KeyTask, KeyAction)>)
    ensures
        r@.len() == keys@.len(),
        forall|i: int|
            0 <= i < keys@.len() ==> task_start_post(
                *config,
                bucket@,
                expr@,
                keys@[i],
                (#[trigger] r@[i]).0,
                r@[i].1,
            ),
{
    let mut out: Vec<(KeyTask, KeyAction)> = Vec::new();
    let mut i: usize = 0;
    while i < keys.len()
        invariant
            i <= keys@.len(),
            out@.len() == i,
            forall|k: int|
                0 <= k < i ==> task_start_post(
                    *config,
                    bucket@,
                    expr@,
                    keys@[k],
                    (#[trigger] out@[k]).0,
                    out@[k].1,
                ),
        decreases keys@.len() - i,
    {
        let pair = start(config, bucket, expr, keys[i].duplicate());
        out.push(pair);
        i = i + 1;
    }
    out
}

/// A key whose transform equals its name is skipped outright: its task is
/// finished before any store call, so no mutating call ever occurs for it.
pub proof fn lemma_unchanged_key_untouched(
    c: Config,
    bucket: Seq<char>,
    expr: Seq<char>,
    key: ObjectKey,
    t: KeyTask,
    a: KeyAction,
)
    requires
        task_start_post(c, bucket, expr, key, t, a),
        substituted(expr, key.name@) == key.name@,
    ensures
        a == KeyAction::Finish(KeyOutcome::Skipped),
        t.phase == KeyPhase::Finished,
{
}

/// Dry-run mode finishes every task at its first step, whatever the key:
/// zero copy, delete, head or grant-lookup calls are issued.
pub proof fn lemma_dry_run_no_store_calls(
    c: Config,
    bucket: Seq<char>,
    expr: Seq<char>,
    key: ObjectKey,
    t: KeyTask,
    a: KeyAction,
)
    requires
        task_start_post(c, bucket, expr, key, t, a),
        c.dry_run,
    ensures
        a is Finish,
        t.phase == KeyPhase::Finished,
{
}

/// With grants not preserved, or a canned ACL configured, no task ever asks
/// for a grant lookup.
pub proof fn lemma_no_grant_lookup(
    c: Config,
    bucket: Seq<char>,
    expr: Seq<char>,
    key: ObjectKey,
    t: KeyTask,
    a: KeyAction,
)
    requires
        task_start_post(c, bucket, expr, key, t, a),
        c.no_preserve_acl || c.canned_acl is Some,
    ensures
        !(a is FetchAcl),
        t.phase != KeyPhase::AwaitingAcl,
{
}

/// A failed copy yields no guard, and the pending-deletion set grows only by
/// finalizing a guard: no deletion is ever scheduled for a key whose copy
/// failed.
pub proof fn lemma_failed_copy_schedules_no_delete(
    o: KeyTask,
    n: KeyTask,
    guard: Option<CopyGuard>,
    outcome: KeyOutcome,
)
    requires
        task_copy_post(o, n, false, guard, outcome),
    ensures
        guard is None,
        outcome == KeyOutcome::CopyFailed,
{
}

} // verus!
