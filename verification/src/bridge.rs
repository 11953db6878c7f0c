//! The bridge itself: one manager object owning the handle registry and the
//! store instances behind it, with one method per boundary call.
//!
//! Every method resolves its handle through the registry first (a destroyed
//! handle can never resolve again), validates its plain inputs exactly, and
//! then drives the store through a single atomic batch.  Callers serialize
//! access per handle; within one call nothing else can interleave.  The
//! commanding moment is threaded in explicitly as a whole-second timestamp,
//! so every command is deterministic given its inputs.

use vstd::prelude::*;
use vstd::string::*;
use crate::config::{spec_parse_config, err_text, ConfigDoc, SyncConfig};
use crate::doc::merge_document;
use crate::json::{doc_of_json, json_object_text, json_parse, render_json_object};
use crate::plan::{
    plan_add_annotation, plan_add_tag, plan_clear, plan_create, plan_remove_annotation,
    plan_remove_tag, plan_set_description, plan_set_field, plan_set_status, plan_undo_point,
    run_plan,
};
use crate::registry::Registry;
use crate::store::{
    make_tag, open_store, server_config_aws, server_config_gcp, store_all_ids, store_get_props,
    store_get_task, store_rebuild_index, store_working_set, store_commit_reversed,
    store_get_undo_ops, sync_store, tag_ok, task_get_annotations, task_get_tags,
    timestamp_in_range, ts_ok, uuid_canon, ws_by_index, ws_len,
};
use crate::types::{spec_parse_status, parse_status, BridgeError, SyncFailure, UndoOutcome};

verus! {

/// A result string that reports a failure across the boundary.
pub open spec fn error_prefixed(s: Seq<char>) -> bool {
    s.len() >= "ERROR: "@.len() && s.subrange(0, "ERROR: "@.len() as int) == "ERROR: "@
}

/// The bridge: the registry of live store instances.
pub struct Bridge {
    reg: Registry,
}

impl Bridge {
    /// Structural invariant of the registry.
    pub closed spec fn wf(self) -> bool {
        self.reg.wf()
    }

    /// Whether a handle currently resolves to a store.
    pub closed spec fn live(self, h: u64) -> bool {
        self.reg.live(h)
    }

    /// Whether a handle has been destroyed; a retired handle never resolves
    /// again, whatever is registered afterwards.
    pub closed spec fn retired(self, h: u64) -> bool {
        self.reg.retired(h)
    }

    /// No call but `initialize` and `destroy` changes which handles are
    /// live, and nothing ever revives a retired handle.
    pub open spec fn same_handles(a: Bridge, b: Bridge) -> bool {
        &&& forall|h: u64| b.live(h) <==> a.live(h)
        &&& forall|h: u64| a.retired(h) ==> b.retired(h)
    }

    /// A retired handle is dead.
    pub proof fn lemma_retired_not_live(self, h: u64)
        ensures
            self.retired(h) ==> !self.live(h),
    {
        self.reg.lemma_retired_not_live(h);
    }

    /// The zero sentinel never resolves: every live handle is non-zero.
    pub proof fn lemma_live_nonzero(self, h: u64)
        requires
            self.wf(),
            self.live(h),
        ensures
            h != 0,
    {
        self.reg.lemma_live_nonzero(h);
    }

    /// A fresh bridge, with no live handle.
    pub fn new() -> (b: Bridge)
        ensures
            b.wf(),
            forall|h: u64| !b.live(h),
            forall|h: u64| !b.retired(h),
    {
        Bridge { reg: Registry::new() }
    }

    /// Open or create a store at the given location and register it under a
    /// fresh handle.  On any failure the zero sentinel is returned and
    /// nothing is registered; a returned handle is immediately usable.
    pub fn initialize(&mut self, path: &String) -> (h: u64)
        requires
            old(self).wf(),
        ensures
            final(self).wf(),
            h != 0 ==> final(self).live(h) && !old(self).live(h) && !old(self).retired(h)
                && !final(self).retired(h),
            h != 0 ==> forall|h2: u64| h2 != h ==> (final(self).live(h2) <==> old(self).live(h2)),
            h == 0 ==> forall|h2: u64| final(self).live(h2) <==> old(self).live(h2),
            forall|h2: u64| old(self).retired(h2) ==> final(self).retired(h2),
    {
        match open_store(path) {
            None => 0,
            Some(st) => self.reg.register(st),
        }
    }

    /// Destroy a handle: unregister it first, then release the store it
    /// owned.  The handle is retired for ever; destroying an unknown or
    /// already-destroyed handle has no effect.
    pub fn destroy(&mut self, h: u64) -> (was: bool)
        requires
            old(self).wf(),
        ensures
            final(self).wf(),
            was == old(self).live(h),
            old(self).live(h) ==> final(self).retired(h),
            !final(self).live(h),
            forall|h2: u64| h2 != h ==> (final(self).live(h2) <==> old(self).live(h2)),
            forall|h2: u64| old(self).retired(h2) ==> final(self).retired(h2),
    {
        match self.reg.release(h) {
            Some(_st) => true,
            None => false,
        }
    }

    /// Create an entity under a previously-unused id, stamping "entry" and
    /// "modified" alike, as one batch.
    pub fn create_entity(&mut self, h: u64, id: &String, now: i64) -> (r: Result<
        (),
        BridgeError,
    >)
        requires
            old(self).wf(),
        ensures
            final(self).wf(),
            Bridge::same_handles(*old(self), *final(self)),
            h == 0 ==> r == Err::<(), BridgeError>(BridgeError::NotFound),
            h != 0 && uuid_canon(id@) is None ==> r == Err::<(), BridgeError>(
                BridgeError::InvalidInput,
            ),
            h != 0 && uuid_canon(id@) is Some && !old(self).live(h) ==> r == Err::<
                (),
                BridgeError,
            >(BridgeError::NotFound),
            r is Ok ==> old(self).live(h) && uuid_canon(id@) is Some,
            r matches Err(e) ==> (e == BridgeError::NotFound || e == BridgeError::InvalidInput
                || e == BridgeError::InternalFault),
            h != 0 && uuid_canon(id@) is Some ==> r != Err::<(), BridgeError>(
                BridgeError::InvalidInput,
            ),
    {
        if h == 0 {
            return Err(BridgeError::NotFound);
        }
        let idc = match crate::store::canonicalize_id(id) {
            Some(c) => c,
            None => {
                return Err(BridgeError::InvalidInput);
            },
        };
        let i = match self.reg.locate(h) {
            Some(i) => i,
            None => {
                return Err(BridgeError::NotFound);
            },
        };
        let plan = plan_create(&idc, now);
        let st = self.reg.borrow_store(i);
        run_plan(st, &plan)
    }

    /// Set an entity's description and stamp "modified", as one batch.
    pub fn set_description(&mut self, h: u64, id: &String, text: &String, now: i64) -> (r: Result<
        (),
        BridgeError,
    >)
        requires
            old(self).wf(),
        ensures
            final(self).wf(),
            Bridge::same_handles(*old(self), *final(self)),
            h == 0 ==> r == Err::<(), BridgeError>(BridgeError::NotFound),
            h != 0 && uuid_canon(id@) is None ==> r == Err::<(), BridgeError>(
                BridgeError::InvalidInput,
            ),
            h != 0 && uuid_canon(id@) is Some && !old(self).live(h) ==> r == Err::<
                (),
                BridgeError,
            >(BridgeError::NotFound),
            r is Ok ==> old(self).live(h) && uuid_canon(id@) is Some,
            r matches Err(e) ==> (e == BridgeError::NotFound || e == BridgeError::InvalidInput
                || e == BridgeError::InternalFault),
            h != 0 && uuid_canon(id@) is Some ==> r != Err::<(), BridgeError>(
                BridgeError::InvalidInput,
            ),
    {
        if h == 0 {
            return Err(BridgeError::NotFound);
        }
        let idc = match crate::store::canonicalize_id(id) {
            Some(c) => c,
            None => {
                return Err(BridgeError::InvalidInput);
            },
        };
        let i = match self.reg.locate(h) {
            Some(i) => i,
            None => {
                return Err(BridgeError::NotFound);
            },
        };
        let plan = plan_set_description(&idc, text, now);
        let st = self.reg.borrow_store(i);
        run_plan(st, &plan)
    }

    /// Set an entity's status from its boundary word and stamp "modified",
    /// as one batch.  Only "pending", "completed" and "deleted" are
    /// recognized.
    pub fn set_status(&mut self, h: u64, id: &String, status: &String, now: i64) -> (r: Result<
        (),
        BridgeError,
    >)
        requires
            old(self).wf(),
        ensures
            final(self).wf(),
            Bridge::same_handles(*old(self), *final(self)),
            h == 0 ==> r == Err::<(), BridgeError>(BridgeError::NotFound),
            h != 0 && uuid_canon(id@) is None ==> r == Err::<(), BridgeError>(
                BridgeError::InvalidInput,
            ),
            h != 0 && uuid_canon(id@) is Some && spec_parse_status(status@) is None ==> r == Err::<
                (),
                BridgeError,
            >(BridgeError::InvalidInput),
            h != 0 && uuid_canon(id@) is Some && spec_parse_status(status@) is Some && !old(
                self,
            ).live(h) ==> r == Err::<(), BridgeError>(BridgeError::NotFound),
            r is Ok ==> old(self).live(h) && uuid_canon(id@) is Some && spec_parse_status(status@)
                is Some,
            r matches Err(e) ==> (e == BridgeError::NotFound || e == BridgeError::InvalidInput
                || e == BridgeError::InternalFault),
            h != 0 && uuid_canon(id@) is Some && spec_parse_status(status@) is Some ==> r != Err::<(), BridgeError>(
                BridgeError::InvalidInput,
            ),
    {
        if h == 0 {
            return Err(BridgeError::NotFound);
        }
        let idc = match crate::store::canonicalize_id(id) {
            Some(c) => c,
            None => {
                return Err(BridgeError::InvalidInput);
            },
        };
        let status_value = match parse_status(status) {
            Some(sv) => sv,
            None => {
                return Err(BridgeError::InvalidInput);
            },
        };
        let i = match self.reg.locate(h) {
            Some(i) => i,
            None => {
                return Err(BridgeError::NotFound);
            },
        };
        let plan = plan_set_status(&idc, status_value, now);
        let st = self.reg.borrow_store(i);
        run_plan(st, &plan)
    }

    /// Set (or, with `None`, remove) one open-ended field, stamping
    /// "modified" in the same batch unless the field set is "modified"
    /// itself.
    pub fn set_field(
        &mut self,
        h: u64,
        id: &String,
        key: &String,
        value: &Option<String>,
        now: i64,
    ) -> (r: Result<(), BridgeError>)
        requires
            old(self).wf(),
        ensures
            final(self).wf(),
            Bridge::same_handles(*old(self), *final(self)),
            h == 0 ==> r == Err::<(), BridgeError>(BridgeError::NotFound),
            h != 0 && uuid_canon(id@) is None ==> r == Err::<(), BridgeError>(
                BridgeError::InvalidInput,
            ),
            h != 0 && uuid_canon(id@) is Some && !old(self).live(h) ==> r == Err::<
                (),
                BridgeError,
            >(BridgeError::NotFound),
            r is Ok ==> old(self).live(h) && uuid_canon(id@) is Some,
            r matches Err(e) ==> (e == BridgeError::NotFound || e == BridgeError::InvalidInput
                || e == BridgeError::InternalFault),
            h != 0 && uuid_canon(id@) is Some ==> r != Err::<(), BridgeError>(
                BridgeError::InvalidInput,
            ),
    {
        if h == 0 {
            return Err(BridgeError::NotFound);
        }
        let idc = match crate::store::canonicalize_id(id) {
            Some(c) => c,
            None => {
                return Err(BridgeError::InvalidInput);
            },
        };
        let i = match self.reg.locate(h) {
            Some(i) => i,
            None => {
                return Err(BridgeError::NotFound);
            },
        };
        let plan = plan_set_field(&idc, key, value, now);
        let st = self.reg.borrow_store(i);
        run_plan(st, &plan)
    }

    /// Add a tag to an entity and stamp "modified", as one batch.  The tag
    /// must be a valid user tag.
    pub fn add_tag(&mut self, h: u64, id: &String, tag: &String, now: i64) -> (r: Result<
        (),
        BridgeError,
    >)
        requires
            old(self).wf(),
        ensures
            final(self).wf(),
            Bridge::same_handles(*old(self), *final(self)),
            h == 0 ==> r == Err::<(), BridgeError>(BridgeError::NotFound),
            h != 0 && uuid_canon(id@) is None ==> r == Err::<(), BridgeError>(
                BridgeError::InvalidInput,
            ),
            h != 0 && uuid_canon(id@) is Some && !tag_ok(tag@) ==> r == Err::<(), BridgeError>(
                BridgeError::InvalidInput,
            ),
            h != 0 && uuid_canon(id@) is Some && tag_ok(tag@) && !old(self).live(h) ==> r == Err::<
                (),
                BridgeError,
            >(BridgeError::NotFound),
            r is Ok ==> old(self).live(h) && uuid_canon(id@) is Some && tag_ok(tag@),
            r matches Err(e) ==> (e == BridgeError::NotFound || e == BridgeError::InvalidInput
                || e == BridgeError::InternalFault),
            h != 0 && uuid_canon(id@) is Some && tag_ok(tag@) ==> r != Err::<(), BridgeError>(
                BridgeError::InvalidInput,
            ),
    {
        if h == 0 {
            return Err(BridgeError::NotFound);
        }
        let idc = match crate::store::canonicalize_id(id) {
            Some(c) => c,
            None => {
                return Err(BridgeError::InvalidInput);
            },
        };
        if make_tag(tag).is_none() {
            return Err(BridgeError::InvalidInput);
        }
        let i = match self.reg.locate(h) {
            Some(i) => i,
            None => {
                return Err(BridgeError::NotFound);
            },
        };
        let plan = plan_add_tag(&idc, tag, now);
        let st = self.reg.borrow_store(i);
        run_plan(st, &plan)
    }

    /// Remove a tag from an entity and stamp "modified", as one batch.
    pub fn remove_tag(&mut self, h: u64, id: &String, tag: &String, now: i64) -> (r: Result<
        (),
        BridgeError,
    >)
        requires
            old(self).wf(),
        ensures
            final(self).wf(),
            Bridge::same_handles(*old(self), *final(self)),
            h == 0 ==> r == Err::<(), BridgeError>(BridgeError::NotFound),
            h != 0 && uuid_canon(id@) is None ==> r == Err::<(), BridgeError>(
                BridgeError::InvalidInput,
            ),
            h != 0 && uuid_canon(id@) is Some && !tag_ok(tag@) ==> r == Err::<(), BridgeError>(
                BridgeError::InvalidInput,
            ),
            h != 0 && uuid_canon(id@) is Some && tag_ok(tag@) && !old(self).live(h) ==> r == Err::<
                (),
                BridgeError,
            >(BridgeError::NotFound),
            r is Ok ==> old(self).live(h) && uuid_canon(id@) is Some && tag_ok(tag@),
            r matches Err(e) ==> (e == BridgeError::NotFound || e == BridgeError::InvalidInput
                || e == BridgeError::InternalFault),
            h != 0 && uuid_canon(id@) is Some && tag_ok(tag@) ==> r != Err::<(), BridgeError>(
                BridgeError::InvalidInput,
            ),
    {
        if h == 0 {
            return Err(BridgeError::NotFound);
        }
        let idc = match crate::store::canonicalize_id(id) {
            Some(c) => c,
            None => {
                return Err(BridgeError::InvalidInput);
            },
        };
        if make_tag(tag).is_none() {
            return Err(BridgeError::InvalidInput);
        }
        let i = match self.reg.locate(h) {
            Some(i) => i,
            None => {
                return Err(BridgeError::NotFound);
            },
        };
        let plan = plan_remove_tag(&idc, tag, now);
        let st = self.reg.borrow_store(i);
        run_plan(st, &plan)
    }

    /// Add an annotation entering at the commanding moment, stamping
    /// "modified" in the same batch.
    pub fn add_annotation(&mut self, h: u64, id: &String, text: &String, now: i64) -> (r: Result<
        (),
        BridgeError,
    >)
        requires
            old(self).wf(),
        ensures
            final(self).wf(),
            Bridge::same_handles(*old(self), *final(self)),
            h == 0 ==> r == Err::<(), BridgeError>(BridgeError::NotFound),
            h != 0 && uuid_canon(id@) is None ==> r == Err::<(), BridgeError>(
                BridgeError::InvalidInput,
            ),
            h != 0 && uuid_canon(id@) is Some && !old(self).live(h) ==> r == Err::<
                (),
                BridgeError,
            >(BridgeError::NotFound),
            r is Ok ==> old(self).live(h) && uuid_canon(id@) is Some,
            r matches Err(e) ==> (e == BridgeError::NotFound || e == BridgeError::InvalidInput
                || e == BridgeError::InternalFault),
            h != 0 && uuid_canon(id@) is Some ==> r != Err::<(), BridgeError>(
                BridgeError::InvalidInput,
            ),
    {
        if h == 0 {
            return Err(BridgeError::NotFound);
        }
        let idc = match crate::store::canonicalize_id(id) {
            Some(c) => c,
            None => {
                return Err(BridgeError::InvalidInput);
            },
        };
        let i = match self.reg.locate(h) {
            Some(i) => i,
            None => {
                return Err(BridgeError::NotFound);
            },
        };
        let plan = plan_add_annotation(&idc, text, now);
        let st = self.reg.borrow_store(i);
        run_plan(st, &plan)
    }

    /// Remove the annotation with the given entry timestamp, stamping
    /// "modified" in the same batch.  A timestamp outside the representable
    /// range is rejected.
    pub fn remove_annotation(&mut self, h: u64, id: &String, ts: i64, now: i64) -> (r: Result<
        (),
        BridgeError,
    >)
        requires
            old(self).wf(),
        ensures
            final(self).wf(),
            Bridge::same_handles(*old(self), *final(self)),
            h == 0 ==> r == Err::<(), BridgeError>(BridgeError::NotFound),
            h != 0 && uuid_canon(id@) is None ==> r == Err::<(), BridgeError>(
                BridgeError::InvalidInput,
            ),
            h != 0 && uuid_canon(id@) is Some && !ts_ok(ts as int) ==> r == Err::<
                (),
                BridgeError,
            >(BridgeError::InvalidInput),
            h != 0 && uuid_canon(id@) is Some && ts_ok(ts as int) && !old(self).live(h) ==> r
                == Err::<(), BridgeError>(BridgeError::NotFound),
            r is Ok ==> old(self).live(h) && uuid_canon(id@) is Some,
            r matches Err(e) ==> (e == BridgeError::NotFound || e == BridgeError::InvalidInput
                || e == BridgeError::InternalFault),
            h != 0 && uuid_canon(id@) is Some && ts_ok(ts as int) ==> r != Err::<(), BridgeError>(
                BridgeError::InvalidInput,
            ),
    {
        if h == 0 {
            return Err(BridgeError::NotFound);
        }
        let idc = match crate::store::canonicalize_id(id) {
            Some(c) => c,
            None => {
                return Err(BridgeError::InvalidInput);
            },
        };
        if !timestamp_in_range(ts) {
            return Err(BridgeError::InvalidInput);
        }
        let i = match self.reg.locate(h) {
            Some(i) => i,
            None => {
                return Err(BridgeError::NotFound);
            },
        };
        let plan = plan_remove_annotation(&idc, ts, now);
        let st = self.reg.borrow_store(i);
        run_plan(st, &plan)
    }

    /// Append an undo checkpoint, committing it as its own batch.  The
    /// message is a label for the caller's logs only; it does not reach the
    /// store.
    pub fn add_undo_point(&mut self, h: u64, _message: &String) -> (r: Result<(), BridgeError>)
        requires
            old(self).wf(),
        ensures
            final(self).wf(),
            Bridge::same_handles(*old(self), *final(self)),
            !old(self).live(h) ==> r == Err::<(), BridgeError>(BridgeError::NotFound),
            r is Ok ==> old(self).live(h),
            r matches Err(e) ==> (e == BridgeError::NotFound || e == BridgeError::InternalFault),
    {
        let i = match self.reg.locate(h) {
            Some(i) => i,
            None => {
                return Err(BridgeError::NotFound);
            },
        };
        let plan = plan_undo_point();
        let st = self.reg.borrow_store(i);
        run_plan(st, &plan)
    }

    /// The explicit consistency pass: ordinary commits are durable the
    /// moment they apply, so this only forces a rebuild of the positional
    /// index to repair drift.
    pub fn commit_checkpoint(&mut self, h: u64) -> (r: Result<(), BridgeError>)
        requires
            old(self).wf(),
        ensures
            final(self).wf(),
            Bridge::same_handles(*old(self), *final(self)),
            !old(self).live(h) ==> r == Err::<(), BridgeError>(BridgeError::NotFound),
            r is Ok ==> old(self).live(h),
            r matches Err(e) ==> (e == BridgeError::NotFound || e == BridgeError::InternalFault),
    {
        let i = match self.reg.locate(h) {
            Some(i) => i,
            None => {
                return Err(BridgeError::NotFound);
            },
        };
        let st = self.reg.borrow_store(i);
        if store_rebuild_index(st, true) {
            Ok(())
        } else {
            Err(BridgeError::InternalFault)
        }
    }

    /// Undo the operations since the last undo point, as one reversed
    /// batch.  An empty pending span is a distinct, harmless outcome; a
    /// reversal blocked by intervening changes reports a conflict and
    /// applies nothing.
    pub fn undo(&mut self, h: u64) -> (r: Result<UndoOutcome, BridgeError>)
        requires
            old(self).wf(),
        ensures
            final(self).wf(),
            Bridge::same_handles(*old(self), *final(self)),
            !old(self).live(h) ==> r == Err::<UndoOutcome, BridgeError>(BridgeError::NotFound),
            r is Ok ==> old(self).live(h),
            r matches Err(e) ==> (e == BridgeError::NotFound || e == BridgeError::Conflict
                || e == BridgeError::InternalFault),
            old(self).live(h) ==> (r is Ok || r == Err::<UndoOutcome, BridgeError>(
                BridgeError::Conflict,
            ) || r == Err::<UndoOutcome, BridgeError>(BridgeError::InternalFault)),
    {
        let i = match self.reg.locate(h) {
            Some(i) => i,
            None => {
                return Err(BridgeError::NotFound);
            },
        };
        let st = self.reg.borrow_store(i);
        let pending = match store_get_undo_ops(st) {
            Ok(ops) => ops,
            Err(_) => {
                return Err(BridgeError::InternalFault);
            },
        };
        if pending.is_empty() {
            return Ok(UndoOutcome::NothingToUndo);
        }
        match store_commit_reversed(st, pending) {
            Ok(true) => Ok(UndoOutcome::Undone),
            Ok(false) => Err(BridgeError::Conflict),
            Err(_) => Err(BridgeError::InternalFault),
        }
    }

    /// Mark every entity deleted, bounded by a fresh undo point, all as one
    /// batch, then rebuild the positional index.
    pub fn clear_all(&mut self, h: u64, now: i64) -> (r: Result<(), BridgeError>)
        requires
            old(self).wf(),
        ensures
            final(self).wf(),
            Bridge::same_handles(*old(self), *final(self)),
            !old(self).live(h) ==> r == Err::<(), BridgeError>(BridgeError::NotFound),
            r is Ok ==> old(self).live(h),
            r matches Err(e) ==> (e == BridgeError::NotFound || e == BridgeError::InternalFault),
    {
        let i = match self.reg.locate(h) {
            Some(i) => i,
            None => {
                return Err(BridgeError::NotFound);
            },
        };
        let st = self.reg.borrow_store(i);
        let ids = match store_all_ids(st) {
            Ok(ids) => ids,
            Err(_) => {
                return Err(BridgeError::InternalFault);
            },
        };
        let plan = plan_clear(&ids, now);
        match run_plan(st, &plan) {
            Err(e) => {
                return Err(e);
            },
            Ok(()) => {},
        }
        if store_rebuild_index(st, true) {
            Ok(())
        } else {
            Err(BridgeError::InternalFault)
        }
    }

    /// A snapshot of all entity ids, in canonical form, in no promised
    /// order.
    pub fn list_ids(&mut self, h: u64) -> (r: Result<Vec<String>, BridgeError>)
        requires
            old(self).wf(),
        ensures
            final(self).wf(),
            Bridge::same_handles(*old(self), *final(self)),
            !old(self).live(h) ==> r == Err::<Vec<String>, BridgeError>(BridgeError::NotFound),
            r is Ok ==> old(self).live(h),
            r matches Ok(ids) ==> forall|i: int|
                0 <= i < ids@.len() ==> uuid_canon(#[trigger] ids@[i]@) == Some(ids@[i]@),
            r matches Err(e) ==> (e == BridgeError::NotFound || e == BridgeError::InternalFault),
    {
        let i = match self.reg.locate(h) {
            Some(i) => i,
            None => {
                return Err(BridgeError::NotFound);
            },
        };
        let st = self.reg.borrow_store(i);
        match store_all_ids(st) {
            Ok(ids) => Ok(ids),
            Err(_) => Err(BridgeError::InternalFault),
        }
    }

    /// One entity's full document as JSON text: its raw fields, numbered
    /// tag and annotation entries, and its id.  An absent entity yields the
    /// empty document.
    pub fn get_entity_data(&mut self, h: u64, id: &String) -> (r: Result<String, BridgeError>)
        requires
            old(self).wf(),
        ensures
            final(self).wf(),
            Bridge::same_handles(*old(self), *final(self)),
            h == 0 ==> r == Err::<String, BridgeError>(BridgeError::NotFound),
            h != 0 && uuid_canon(id@) is None ==> r == Err::<String, BridgeError>(
                BridgeError::InvalidInput,
            ),
            h != 0 && uuid_canon(id@) is Some && !old(self).live(h) ==> r == Err::<
                String,
                BridgeError,
            >(BridgeError::NotFound),
            r is Ok ==> old(self).live(h) && uuid_canon(id@) is Some,
            r matches Ok(s) ==> (s@ == "{}"@ || exists|d: Seq<(Seq<char>, Seq<char>)>|
                {
                    &&& s@ == json_object_text(d)
                    &&& d.len() >= 1
                    &&& d[d.len() - 1] == ("uuid"@, uuid_canon(id@).unwrap())
                }),
            r matches Err(e) ==> (e == BridgeError::NotFound || e == BridgeError::InvalidInput
                || e == BridgeError::InternalFault),
            h != 0 && uuid_canon(id@) is Some ==> r != Err::<String, BridgeError>(
                BridgeError::InvalidInput,
            ),
    {
        if h == 0 {
            return Err(BridgeError::NotFound);
        }
        let idc = match crate::store::canonicalize_id(id) {
            Some(c) => c,
            None => {
                return Err(BridgeError::InvalidInput);
            },
        };
        let i = match self.reg.locate(h) {
            Some(i) => i,
            None => {
                return Err(BridgeError::NotFound);
            },
        };
        let st = self.reg.borrow_store(i);
        match store_get_task(st, &idc) {
            Err(_) => Err(BridgeError::InternalFault),
            Ok(None) => Ok("{}".to_owned()),
            Ok(Some(task)) => {
                let props = match store_get_props(st, &idc) {
                    Ok(Some(p)) => p,
                    _ => Vec::new(),
                };
                let tags = task_get_tags(&task);
                let anns = task_get_annotations(&task);
                let merged = merge_document(&props, &tags, &anns, &idc);
                let rendered = render_json_object(&merged);
                proof {
                    let d = crate::doc::pairs_model(merged@);
                    assert(d[d.len() - 1] == ("uuid"@, idc@));
                }
                Ok(rendered)
            },
        }
    }

    /// The entity id at a 1-based position of the positional index, if that
    /// position is in range and its slot is filled.
    pub fn get_id_at_position(&mut self, h: u64, position: i32) -> (r: Result<
        Option<String>,
        BridgeError,
    >)
        requires
            old(self).wf(),
        ensures
            final(self).wf(),
            Bridge::same_handles(*old(self), *final(self)),
            !old(self).live(h) ==> r == Err::<Option<String>, BridgeError>(BridgeError::NotFound),
            r is Ok ==> old(self).live(h),
            r matches Ok(Some(s)) ==> position >= 1 && s@
                != "00000000-0000-0000-0000-000000000000"@,
            r matches Err(e) ==> (e == BridgeError::NotFound || e == BridgeError::InternalFault),
            position <= 0 && r is Ok ==> r == Ok::<Option<String>, BridgeError>(None),
    {
        let i = match self.reg.locate(h) {
            Some(i) => i,
            None => {
                return Err(BridgeError::NotFound);
            },
        };
        let st = self.reg.borrow_store(i);
        let ws = match store_working_set(st) {
            Ok(ws) => ws,
            Err(_) => {
                return Err(BridgeError::InternalFault);
            },
        };
        let len = ws_len(&ws);
        if position > 0 && (position as usize) <= len {
            match ws_by_index(&ws, (position as usize) - 1) {
                Some(found) => {
                    let nil = "00000000-0000-0000-0000-000000000000".to_owned();
                    if found == nil {
                        Ok(None)
                    } else {
                        Ok(Some(found))
                    }
                },
                None => Ok(None),
            }
        } else {
            Ok(None)
        }
    }

    /// Validate a configuration document and, when it is well formed,
    /// synchronize against the remote endpoint it describes, rebuilding the
    /// positional index afterwards.  Every rejection is reported as an
    /// "ERROR: "-prefixed message, exactly as the validation rules assign
    /// it; nothing is sent before validation succeeds; a failure of the
    /// remote call itself reports which step failed, carrying that step's
    /// detail after a fixed prefix.
    pub fn sync_with_doc(&mut self, h: u64, doc: &ConfigDoc) -> (r: String)
        requires
            old(self).wf(),
        ensures
            final(self).wf(),
            Bridge::same_handles(*old(self), *final(self)),
            h == 0 ==> r@ == "ERROR: Null replica pointer"@,
            h != 0 ==> (spec_parse_config(doc@) matches Err(e) ==> r@ == "ERROR: "@ + err_text(
                e,
            )),
            h != 0 && spec_parse_config(doc@) is Ok && !old(self).live(h) ==> r@
                == "ERROR: Failed to acquire replica lock"@,
            h != 0 && spec_parse_config(doc@) is Ok && old(self).live(h) ==> (r@ == "SUCCESS"@
                || (exists|d: Seq<char>| r@ == "ERROR: Sync failed - "@ + d) || (exists|
                d: Seq<char>,
            | r@ == "ERROR: Failed to create server - "@ + d)),
            r@ == "SUCCESS"@ || error_prefixed(r@),
    {
        proof {
            broadcast use vstd::string::group_string_axioms;

            reveal_strlit("ERROR: ");
        }
        if h == 0 {
            let msg = "ERROR: Null replica pointer".to_owned();
            proof {
                reveal_strlit("ERROR: Null replica pointer");
                assert(msg@.subrange(0, 7) =~= "ERROR: "@);
            }
            return msg;
        }
        let cfg = match crate::config::parse_sync_config(doc) {
            Err(e) => {
                let mut s = "ERROR: ".to_owned();
                let detail = e.detail();
                s.append(detail.as_str());
                proof {
                    assert(s@.subrange(0, 7) =~= "ERROR: "@);
                }
                return s;
            },
            Ok(cfg) => cfg,
        };
        let i = match self.reg.locate(h) {
            Some(i) => i,
            None => {
                let msg = "ERROR: Failed to acquire replica lock".to_owned();
                proof {
                    reveal_strlit("ERROR: Failed to acquire replica lock");
                    assert(msg@.subrange(0, 7) =~= "ERROR: "@);
                }
                return msg;
            },
        };
        let sc = match &cfg {
            SyncConfig::Aws { region, bucket, credentials, encryption_secret } => {
                server_config_aws(region, bucket, encryption_secret, credentials)
            },
            SyncConfig::Gcp { bucket, credential_path, encryption_secret } => {
                server_config_gcp(bucket, credential_path, encryption_secret)
            },
        };
        let st = self.reg.borrow_store(i);
        match sync_store(st, sc) {
            Ok(()) => {
                let _rebuilt = store_rebuild_index(st, true);
                "SUCCESS".to_owned()
            },
            Err(SyncFailure::Transport(detail)) => {
                let mut s = "ERROR: Sync failed - ".to_owned();
                s.append(detail.as_str());
                proof {
                    reveal_strlit("ERROR: Sync failed - ");
                    assert(s@.subrange(0, 7) =~= "ERROR: "@);
                }
                s
            },
            Err(SyncFailure::ServerSetup(detail)) => {
                let mut s = "ERROR: Failed to create server - ".to_owned();
                s.append(detail.as_str());
                proof {
                    reveal_strlit("ERROR: Failed to create server - ");
                    assert(s@.subrange(0, 7) =~= "ERROR: "@);
                }
                s
            },
        }
    }

    /// Synchronize against the endpoint described by a JSON configuration
    /// document.  Malformed JSON is rejected before anything else is done;
    /// the result is "SUCCESS" or an "ERROR: "-prefixed message.
    pub fn sync(&mut self, h: u64, config_json: &String) -> (r: String)
        requires
            old(self).wf(),
        ensures
            final(self).wf(),
            Bridge::same_handles(*old(self), *final(self)),
            h == 0 ==> r@ == "ERROR: Null replica pointer"@,
            r@ == "SUCCESS"@ || error_prefixed(r@),
    {
        proof {
            broadcast use vstd::string::group_string_axioms;

            reveal_strlit("ERROR: ");
        }
        if h == 0 {
            let msg = "ERROR: Null replica pointer".to_owned();
            proof {
                reveal_strlit("ERROR: Null replica pointer");
                assert(msg@.subrange(0, 7) =~= "ERROR: "@);
            }
            return msg;
        }
        match json_parse(config_json) {
            Err(detail) => {
                let mut s = "ERROR: Invalid JSON - ".to_owned();
                s.append(detail.as_str());
                proof {
                    reveal_strlit("ERROR: Invalid JSON - ");
                    assert(s@.subrange(0, 7) =~= "ERROR: "@);
                }
                s
            },
            Ok(v) => {
                let doc = doc_of_json(&v);
                self.sync_with_doc(h, &doc)
            },
        }
    }
}

} // verus!
