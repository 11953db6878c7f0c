//! Executable operation batches.
//!
//! Each command is first translated into a plan — a vector of `StoreOp`
//! whose mathematical form is exactly the batch the model module assigns to
//! that command — and the plan is then run against the store as one atomic
//! batch: every step recorded, then a single commit.

use vstd::prelude::*;
use crate::types::{BridgeError, EntityStatus};
use crate::model::{
    OpModel, add_annotation_plan, add_tag_plan, clear_plan, clear_tail, create_plan,
    modified_stamp, remove_annotation_plan, remove_tag_plan, set_description_plan, set_field_plan,
    set_status_plan, undo_point_plan,
};
use crate::numfmt::i64_to_dec;
use crate::store::{
    Store, make_tag, push_undo_point, store_commit, store_create_task, store_get_task, tag_ok,
    task_add_annotation, task_add_tag, task_remove_annotation, task_remove_tag,
    task_set_description, task_set_status, task_set_value, uuid_canon,
};

verus! {

/// One step of a plan, addressed to an entity by canonical id.
pub enum StoreOp {
    UndoPoint,
    Create { id: String },
    SetField { id: String, key: String, value: Option<String> },
    SetDescription { id: String, text: String },
    SetStatus { id: String, status: EntityStatus },
    AddTag { id: String, tag: String },
    RemoveTag { id: String, tag: String },
    AddNote { id: String, ts: i64, text: String },
    RemoveNote { id: String, ts: i64 },
}

impl View for StoreOp {
    type V = OpModel;

    open spec fn view(&self) -> OpModel {
        match self {
            StoreOp::UndoPoint => OpModel::UndoPoint,
            StoreOp::Create { id } => OpModel::Create { id: id@ },
            StoreOp::SetField { id, key, value } => OpModel::SetField {
                id: id@,
                key: key@,
                value: match value {
                    Some(v) => Some(v@),
                    None => None,
                },
            },
            StoreOp::SetDescription { id, text } => OpModel::SetDescription {
                id: id@,
                text: text@,
            },
            StoreOp::SetStatus { id, status } => OpModel::SetStatus { id: id@, status: *status },
            StoreOp::AddTag { id, tag } => OpModel::AddTag { id: id@, tag: tag@ },
            StoreOp::RemoveTag { id, tag } => OpModel::RemoveTag { id: id@, tag: tag@ },
            StoreOp::AddNote { id, ts, text } => OpModel::AddNote {
                id: id@,
                ts: *ts as int,
                text: text@,
            },
            StoreOp::RemoveNote { id, ts } => OpModel::RemoveNote { id: id@, ts: *ts as int },
        }
    }
}

/// A step the store layer accepts: any id it addresses is canonical, and
/// any tag it carries has already been validated.
pub open spec fn op_wf(op: StoreOp) -> bool {
    match op {
        StoreOp::UndoPoint => true,
        StoreOp::Create { id } => uuid_canon(id@) is Some,
        StoreOp::SetField { id, .. } => uuid_canon(id@) is Some,
        StoreOp::SetDescription { id, .. } => uuid_canon(id@) is Some,
        StoreOp::SetStatus { id, .. } => uuid_canon(id@) is Some,
        StoreOp::AddTag { id, tag } => uuid_canon(id@) is Some && tag_ok(tag@),
        StoreOp::RemoveTag { id, tag } => uuid_canon(id@) is Some && tag_ok(tag@),
        StoreOp::AddNote { id, .. } => uuid_canon(id@) is Some,
        StoreOp::RemoveNote { id, .. } => uuid_canon(id@) is Some,
    }
}

pub open spec fn plan_wf(p: Seq<StoreOp>) -> bool {
    forall|i: int| 0 <= i < p.len() ==> op_wf(#[trigger] p[i])
}

/// The mathematical form of a plan.
pub open spec fn plan_model(p: Seq<StoreOp>) -> Seq<OpModel> {
    p.map_values(|op: StoreOp| op@)
}

fn stamp_op(id: &String, now: i64) -> (op: StoreOp)
    ensures
        op@ == modified_stamp(id@, now as int),
        op matches StoreOp::SetField { id: i2, .. } && i2@ == id@,
{
    StoreOp::SetField {
        id: id.clone(),
        key: "modified".to_owned(),
        value: Some(i64_to_dec(now)),
    }
}

pub(crate) fn plan_create(id: &String, now: i64) -> (p: Vec<StoreOp>)
    requires
        uuid_canon(id@) is Some,
    ensures
        plan_model(p@) == create_plan(id@, now as int),
        plan_wf(p@),
{
    let mut p: Vec<StoreOp> = Vec::new();
    p.push(StoreOp::Create { id: id.clone() });
    p.push(StoreOp::SetField {
        id: id.clone(),
        key: "entry".to_owned(),
        value: Some(i64_to_dec(now)),
    });
    p.push(stamp_op(id, now));
    assert(plan_model(p@) =~= create_plan(id@, now as int));
    p
}

pub(crate) fn plan_set_description(id: &String, text: &String, now: i64) -> (p: Vec<StoreOp>)
    requires
        uuid_canon(id@) is Some,
    ensures
        plan_model(p@) == set_description_plan(id@, text@, now as int),
        plan_wf(p@),
{
    let mut p: Vec<StoreOp> = Vec::new();
    p.push(StoreOp::SetDescription { id: id.clone(), text: text.clone() });
    p.push(stamp_op(id, now));
    assert(plan_model(p@) =~= set_description_plan(id@, text@, now as int));
    p
}

pub(crate) fn plan_set_status(id: &String, status: EntityStatus, now: i64) -> (p: Vec<StoreOp>)
    requires
        uuid_canon(id@) is Some,
    ensures
        plan_model(p@) == set_status_plan(id@, status, now as int),
        plan_wf(p@),
{
    let mut p: Vec<StoreOp> = Vec::new();
    p.push(StoreOp::SetStatus { id: id.clone(), status });
    p.push(stamp_op(id, now));
    assert(plan_model(p@) =~= set_status_plan(id@, status, now as int));
    p
}

/// A field update stamps "modified" unless it targets "modified" itself.
pub(crate) fn plan_set_field(
    id: &String,
    key: &String,
    value: &Option<String>,
    now: i64,
) -> (p: Vec<StoreOp>)
    requires
        uuid_canon(id@) is Some,
    ensures
        plan_model(p@) == set_field_plan(
            id@,
            key@,
            match value {
                Some(v) => Some(v@),
                None => None,
            },
            now as int,
        ),
        plan_wf(p@),
{
    let mut p: Vec<StoreOp> = Vec::new();
    let owned_value = match value {
        Some(v) => Some(v.clone()),
        None => None,
    };
    p.push(StoreOp::SetField { id: id.clone(), key: key.clone(), value: owned_value });
    let modified = "modified".to_owned();
    if !(*key == modified) {
        p.push(stamp_op(id, now));
    }
    assert(plan_model(p@) =~= set_field_plan(
        id@,
        key@,
        match value {
            Some(v) => Some(v@),
            None => None,
        },
        now as int,
    ));
    p
}

pub(crate) fn plan_add_tag(id: &String, tag: &String, now: i64) -> (p: Vec<StoreOp>)
    requires
        uuid_canon(id@) is Some,
        tag_ok(tag@),
    ensures
        plan_model(p@) == add_tag_plan(id@, tag@, now as int),
        plan_wf(p@),
{
    let mut p: Vec<StoreOp> = Vec::new();
    p.push(StoreOp::AddTag { id: id.clone(), tag: tag.clone() });
    p.push(stamp_op(id, now));
    assert(plan_model(p@) =~= add_tag_plan(id@, tag@, now as int));
    p
}

pub(crate) fn plan_remove_tag(id: &String, tag: &String, now: i64) -> (p: Vec<StoreOp>)
    requires
        uuid_canon(id@) is Some,
        tag_ok(tag@),
    ensures
        plan_model(p@) == remove_tag_plan(id@, tag@, now as int),
        plan_wf(p@),
{
    let mut p: Vec<StoreOp> = Vec::new();
    p.push(StoreOp::RemoveTag { id: id.clone(), tag: tag.clone() });
    p.push(stamp_op(id, now));
    assert(plan_model(p@) =~= remove_tag_plan(id@, tag@, now as int));
    p
}

pub(crate) fn plan_add_annotation(id: &String, text: &String, now: i64) -> (p: Vec<StoreOp>)
    requires
        uuid_canon(id@) is Some,
    ensures
        plan_model(p@) == add_annotation_plan(id@, text@, now as int),
        plan_wf(p@),
{
    let mut p: Vec<StoreOp> = Vec::new();
    p.push(StoreOp::AddNote { id: id.clone(), ts: now, text: text.clone() });
    p.push(stamp_op(id, now));
    assert(plan_model(p@) =~= add_annotation_plan(id@, text@, now as int));
    p
}

pub(crate) fn plan_remove_annotation(id: &String, ts: i64, now: i64) -> (p: Vec<StoreOp>)
    requires
        uuid_canon(id@) is Some,
    ensures
        plan_model(p@) == remove_annotation_plan(id@, ts as int, now as int),
        plan_wf(p@),
{
    let mut p: Vec<StoreOp> = Vec::new();
    p.push(StoreOp::RemoveNote { id: id.clone(), ts });
    p.push(stamp_op(id, now));
    assert(plan_model(p@) =~= remove_annotation_plan(id@, ts as int, now as int));
    p
}

pub(crate) fn plan_undo_point() -> (p: Vec<StoreOp>)
    ensures
        plan_model(p@) == undo_point_plan(),
        plan_wf(p@),
{
    let mut p: Vec<StoreOp> = Vec::new();
    p.push(StoreOp::UndoPoint);
    assert(plan_model(p@) =~= undo_point_plan());
    p
}

/// Clearing: one undo point, then every listed entity marked deleted and
/// stamped, all in one batch.
pub(crate) fn plan_clear(ids: &Vec<String>, now: i64) -> (p: Vec<StoreOp>)
    requires
        forall|i: int| 0 <= i < ids@.len() ==> uuid_canon(#[trigger] ids@[i]@) is Some,
    ensures
        plan_model(p@) == clear_plan(ids@.map_values(|s: String| s@), now as int),
        plan_wf(p@),
{
    let ghost ids_model = ids@.map_values(|s: String| s@);
    let mut p: Vec<StoreOp> = Vec::new();
    p.push(StoreOp::UndoPoint);
    let n = ids.len();
    let mut i: usize = 0;
    while i < n
        invariant
            n == ids@.len(),
            0 <= i <= n,
            ids_model == ids@.map_values(|s: String| s@),
            forall|j: int| 0 <= j < ids@.len() ==> uuid_canon(#[trigger] ids@[j]@) is Some,
            plan_wf(p@),
            plan_model(p@) =~= seq![OpModel::UndoPoint] + clear_tail(
                ids_model.take(i as int),
                now as int,
            ),
        decreases n - i,
    {
        let id = &ids[i];
        let ghost p_before = p@;
        let op_status = StoreOp::SetStatus { id: id.clone(), status: EntityStatus::Deleted };
        let op_stamp = stamp_op(id, now);
        let ghost v1 = op_status@;
        let ghost v2 = op_stamp@;
        p.push(op_status);
        p.push(op_stamp);
        proof {
            assert(p@ =~= p_before.push(op_status).push(op_stamp));
            assert(plan_model(p@) =~= plan_model(p_before) + seq![v1, v2]);
            lemma_clear_tail_snoc(ids_model.take(i as int), id@, now as int);
            assert(ids_model.take(i as int).push(id@) =~= ids_model.take((i + 1) as int));
            assert(plan_model(p@) =~= seq![OpModel::UndoPoint] + clear_tail(
                ids_model.take((i + 1) as int),
                now as int,
            ));
        }
        i = i + 1;
    }
    proof {
        assert(ids_model.take(n as int) =~= ids_model);
    }
    p
}

proof fn lemma_clear_tail_snoc(ids: Seq<Seq<char>>, id: Seq<char>, now: int)
    ensures
        clear_tail(ids.push(id), now) == clear_tail(ids, now) + seq![
            OpModel::SetStatus { id, status: EntityStatus::Deleted },
            modified_stamp(id, now),
        ],
    decreases ids.len(),
{
    let tail = seq![OpModel::SetStatus { id, status: EntityStatus::Deleted }, modified_stamp(id, now)];
    if ids.len() == 0 {
        let one = ids.push(id);
        assert(one[0] == id);
        assert(one.drop_first() =~= Seq::<Seq<char>>::empty());
        assert(clear_tail(one.drop_first(), now) =~= Seq::<OpModel>::empty());
        assert(clear_tail(one, now) == tail + clear_tail(one.drop_first(), now));
        assert(clear_tail(one, now) =~= clear_tail(ids, now) + tail);
    } else {
        let more = ids.push(id);
        assert(more[0] == ids[0]);
        assert(more.drop_first() =~= ids.drop_first().push(id));
        lemma_clear_tail_snoc(ids.drop_first(), id, now);
        let head = seq![
            OpModel::SetStatus { id: ids[0], status: EntityStatus::Deleted },
            modified_stamp(ids[0], now),
        ];
        assert(clear_tail(more, now) == head + clear_tail(more.drop_first(), now));
        assert(clear_tail(more.drop_first(), now) == clear_tail(ids.drop_first(), now) + tail);
        assert(clear_tail(ids, now) == head + clear_tail(ids.drop_first(), now));
        assert(clear_tail(more, now) =~= clear_tail(ids, now) + tail);
    }
}

// ---------------------------------------------------------------------------
// Running a plan.

/// Make `cur` hold the entity a step addresses, fetching it from the store
/// if it is not already in hand.
fn focus(
    st: &mut Store,
    cur: &mut Option<(String, taskchampion::Task)>,
    id: &String,
) -> (r: Result<(), BridgeError>)
    requires
        uuid_canon(id@) is Some,
    ensures
        r is Ok ==> (*final(cur)) is Some,
        r matches Err(e) ==> (e == BridgeError::NotFound || e == BridgeError::InternalFault),
{
    let same = match &*cur {
        Some(pair) => pair.0 == *id,
        None => false,
    };
    if same {
        return Ok(());
    }
    match store_get_task(st, id) {
        Err(_) => Err(BridgeError::InternalFault),
        Ok(None) => Err(BridgeError::NotFound),
        Ok(Some(t)) => {
            *cur = Some((id.clone(), t));
            Ok(())
        },
    }
}

/// Run a plan against a store as one atomic batch: record every step, then
/// commit once.  A failure before the commit leaves the store unchanged; an
/// absent entity aborts with `NotFound`, and a store-layer failure with
/// `InternalFault` — nothing else can go wrong, since every step of a
/// well-formed plan carries validated inputs.
pub(crate) fn run_plan(st: &mut Store, plan: &Vec<StoreOp>) -> (r: Result<(), BridgeError>)
    requires
        plan_wf(plan@),
    ensures
        r matches Err(e) ==> (e == BridgeError::NotFound || e == BridgeError::InternalFault),
{
    let mut ops: taskchampion::Operations = Vec::new();
    let mut cur: Option<(String, taskchampion::Task)> = None;
    let n = plan.len();
    let mut i: usize = 0;
    while i < n
        invariant
            n == plan@.len(),
            plan_wf(plan@),
            0 <= i <= n,
        decreases n - i,
    {
        let ok: bool = match &plan[i] {
            StoreOp::UndoPoint => {
                push_undo_point(&mut ops);
                true
            },
            StoreOp::Create { id } => {
                match store_create_task(st, id, &mut ops) {
                    Ok(t) => {
                        cur = Some((id.clone(), t));
                        true
                    },
                    Err(_) => {
                        return Err(BridgeError::InternalFault);
                    },
                }
            },
            StoreOp::SetField { id, key, value } => {
                match focus(st, &mut cur, id) {
                    Err(e) => {
                        return Err(e);
                    },
                    Ok(()) => {},
                }
                let owned_value = match value {
                    Some(v) => Some(v.clone()),
                    None => None,
                };
                match &mut cur {
                    Some(pair) => task_set_value(&mut pair.1, &mut ops, key, owned_value),
                    None => false,
                }
            },
            StoreOp::SetDescription { id, text } => {
                match focus(st, &mut cur, id) {
                    Err(e) => {
                        return Err(e);
                    },
                    Ok(()) => {},
                }
                match &mut cur {
                    Some(pair) => task_set_description(&mut pair.1, &mut ops, text),
                    None => false,
                }
            },
            StoreOp::SetStatus { id, status } => {
                match focus(st, &mut cur, id) {
                    Err(e) => {
                        return Err(e);
                    },
                    Ok(()) => {},
                }
                match &mut cur {
                    Some(pair) => task_set_status(&mut pair.1, &mut ops, *status),
                    None => false,
                }
            },
            StoreOp::AddTag { id, tag } => {
                match focus(st, &mut cur, id) {
                    Err(e) => {
                        return Err(e);
                    },
                    Ok(()) => {},
                }
                proof {
                    assert(op_wf(plan@[i as int]));
                }
                let tg = match make_tag(tag) {
                    Some(tg) => tg,
                    None => {
                        return Err(BridgeError::InternalFault);
                    },
                };
                match &mut cur {
                    Some(pair) => task_add_tag(&mut pair.1, &mut ops, &tg),
                    None => false,
                }
            },
            StoreOp::RemoveTag { id, tag } => {
                match focus(st, &mut cur, id) {
                    Err(e) => {
                        return Err(e);
                    },
                    Ok(()) => {},
                }
                proof {
                    assert(op_wf(plan@[i as int]));
                }
                let tg = match make_tag(tag) {
                    Some(tg) => tg,
                    None => {
                        return Err(BridgeError::InternalFault);
                    },
                };
                match &mut cur {
                    Some(pair) => task_remove_tag(&mut pair.1, &mut ops, &tg),
                    None => false,
                }
            },
            StoreOp::AddNote { id, ts, text } => {
                match focus(st, &mut cur, id) {
                    Err(e) => {
                        return Err(e);
                    },
                    Ok(()) => {},
                }
                match &mut cur {
                    Some(pair) => task_add_annotation(&mut pair.1, &mut ops, *ts, text),
                    None => false,
                }
            },
            StoreOp::RemoveNote { id, ts } => {
                match focus(st, &mut cur, id) {
                    Err(e) => {
                        return Err(e);
                    },
                    Ok(()) => {},
                }
                match &mut cur {
                    Some(pair) => task_remove_annotation(&mut pair.1, &mut ops, *ts),
                    None => false,
                }
            },
        };
        if !ok {
            return Err(BridgeError::InternalFault);
        }
        i = i + 1;
    }
    if store_commit(st, ops) {
        Ok(())
    } else {
        Err(BridgeError::InternalFault)
    }
}

} // verus!
