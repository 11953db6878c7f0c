//! The mathematical model of the entity store that the bridge drives.
//!
//! The store itself is an external collaborator, so the bridge's guarantees
//! are stated against this model: an entity is a field map, a tag set and an
//! annotation map, and each operation the bridge plans has a definite effect
//! on it (the external collaborator contract, transcribed).  The laws at the
//! bottom are the bridge's stated properties: creation stamps entry and
//! modified alike, updates stamp modified, tag round-trips restore the tag
//! set, annotation removal is exact, and a planned batch can always be
//! reversed, which is what makes undo and recovery after an abnormal
//! termination sound.

use vstd::prelude::*;
use crate::types::EntityStatus;
use crate::numfmt::dec_int;

verus! {

/// One entity: its field map (description, status, entry, modified and any
/// open-ended keys), its tag set, and its annotations by entry timestamp.
#[verifier::ext_equal]
pub ghost struct EntityModel {
    pub fields: Map<Seq<char>, Seq<char>>,
    pub tags: Set<Seq<char>>,
    pub anns: Map<int, Seq<char>>,
}

/// The store: entities addressed by canonical id.
#[verifier::ext_equal]
pub ghost struct StoreModel {
    pub entities: Map<Seq<char>, EntityModel>,
}

/// One atomic store mutation, as the bridge plans it.  `Remove` never occurs
/// in a plan; it exists only as the reversal of `Create`.
///
/// The model covers what the bridge itself decides.  The store additionally
/// maintains an end-time field of its own when a status changes, and stamps
/// its own "modified" value on the first update of a batch (always
/// overwritten by the bridge's explicit stamp); neither is modelled here,
/// and no contract ties the model to the store's private bookkeeping.
pub ghost enum OpModel {
    UndoPoint,
    Create { id: Seq<char> },
    SetField { id: Seq<char>, key: Seq<char>, value: Option<Seq<char>> },
    SetDescription { id: Seq<char>, text: Seq<char> },
    SetStatus { id: Seq<char>, status: EntityStatus },
    AddTag { id: Seq<char>, tag: Seq<char> },
    RemoveTag { id: Seq<char>, tag: Seq<char> },
    AddNote { id: Seq<char>, ts: int, text: Seq<char> },
    RemoveNote { id: Seq<char>, ts: int },
    Remove { id: Seq<char> },
}

/// A freshly created entity carries nothing.
pub open spec fn empty_entity() -> EntityModel {
    EntityModel { fields: Map::empty(), tags: Set::empty(), anns: Map::empty() }
}

/// The entity an operation addresses, if any.
pub open spec fn op_id(op: OpModel) -> Option<Seq<char>> {
    match op {
        OpModel::UndoPoint => None,
        OpModel::Create { id } => Some(id),
        OpModel::SetField { id, .. } => Some(id),
        OpModel::SetDescription { id, .. } => Some(id),
        OpModel::SetStatus { id, .. } => Some(id),
        OpModel::AddTag { id, .. } => Some(id),
        OpModel::RemoveTag { id, .. } => Some(id),
        OpModel::AddNote { id, .. } => Some(id),
        OpModel::RemoveNote { id, .. } => Some(id),
        OpModel::Remove { id } => Some(id),
    }
}

/// Effect of an operation on the entity it addresses.
pub open spec fn apply_entity_op(e: EntityModel, op: OpModel) -> EntityModel {
    match op {
        OpModel::SetField { key, value, .. } => match value {
            Some(v) => EntityModel { fields: e.fields.insert(key, v), ..e },
            None => EntityModel { fields: e.fields.remove(key), ..e },
        },
        OpModel::SetDescription { text, .. } => EntityModel {
            fields: e.fields.insert("description"@, text),
            ..e
        },
        OpModel::SetStatus { status, .. } => EntityModel {
            fields: e.fields.insert("status"@, status.field_text()),
            ..e
        },
        OpModel::AddTag { tag, .. } => EntityModel { tags: e.tags.insert(tag), ..e },
        OpModel::RemoveTag { tag, .. } => EntityModel { tags: e.tags.remove(tag), ..e },
        OpModel::AddNote { ts, text, .. } => EntityModel { anns: e.anns.insert(ts, text), ..e },
        OpModel::RemoveNote { ts, .. } => EntityModel { anns: e.anns.remove(ts), ..e },
        _ => e,
    }
}

/// Effect of one operation on the store.  Creating an existing entity keeps
/// it; mutating an absent entity changes nothing (the bridge never plans
/// that: it resolves the entity first).
pub open spec fn apply_op(s: StoreModel, op: OpModel) -> StoreModel {
    match op {
        OpModel::UndoPoint => s,
        OpModel::Create { id } => if s.entities.dom().contains(id) {
            s
        } else {
            StoreModel { entities: s.entities.insert(id, empty_entity()) }
        },
        OpModel::Remove { id } => StoreModel { entities: s.entities.remove(id) },
        _ => {
            let id = op_id(op).unwrap();
            if s.entities.dom().contains(id) {
                StoreModel {
                    entities: s.entities.insert(id, apply_entity_op(s.entities[id], op)),
                }
            } else {
                s
            }
        },
    }
}

/// Effect of a whole batch, applied in order.
pub open spec fn apply_ops(s: StoreModel, ops: Seq<OpModel>) -> StoreModel
    decreases ops.len(),
{
    if ops.len() == 0 {
        s
    } else {
        apply_ops(apply_op(s, ops[0]), ops.drop_first())
    }
}

// ---------------------------------------------------------------------------
// Reversal.

/// The operations that undo one operation, given the state it was applied
/// to.  Reversing an operation that had no effect yields nothing.
pub open spec fn invert_op(s: StoreModel, op: OpModel) -> Seq<OpModel> {
    match op {
        OpModel::UndoPoint => Seq::empty(),
        OpModel::Remove { .. } => Seq::empty(),
        OpModel::Create { id } => if s.entities.dom().contains(id) {
            Seq::empty()
        } else {
            seq![OpModel::Remove { id }]
        },
        _ => {
            let id = op_id(op).unwrap();
            if !s.entities.dom().contains(id) {
                Seq::empty()
            } else {
                let e = s.entities[id];
                match op {
                    OpModel::SetField { key, .. } => seq![
                        OpModel::SetField {
                            id,
                            key,
                            value: if e.fields.dom().contains(key) {
                                Some(e.fields[key])
                            } else {
                                None
                            },
                        },
                    ],
                    OpModel::SetDescription { .. } => seq![
                        OpModel::SetField {
                            id,
                            key: "description"@,
                            value: if e.fields.dom().contains("description"@) {
                                Some(e.fields["description"@])
                            } else {
                                None
                            },
                        },
                    ],
                    OpModel::SetStatus { .. } => seq![
                        OpModel::SetField {
                            id,
                            key: "status"@,
                            value: if e.fields.dom().contains("status"@) {
                                Some(e.fields["status"@])
                            } else {
                                None
                            },
                        },
                    ],
                    OpModel::AddTag { tag, .. } => if e.tags.contains(tag) {
                        Seq::empty()
                    } else {
                        seq![OpModel::RemoveTag { id, tag }]
                    },
                    OpModel::RemoveTag { tag, .. } => if e.tags.contains(tag) {
                        seq![OpModel::AddTag { id, tag }]
                    } else {
                        Seq::empty()
                    },
                    OpModel::AddNote { ts, .. } => if e.anns.dom().contains(ts) {
                        seq![OpModel::AddNote { id, ts, text: e.anns[ts] }]
                    } else {
                        seq![OpModel::RemoveNote { id, ts }]
                    },
                    OpModel::RemoveNote { ts, .. } => if e.anns.dom().contains(ts) {
                        seq![OpModel::AddNote { id, ts, text: e.anns[ts] }]
                    } else {
                        Seq::empty()
                    },
                    _ => Seq::empty(),
                }
            }
        },
    }
}

/// The reversal of a whole batch: each operation inverted against the state
/// it saw, applied in the opposite order.
pub open spec fn invert_ops(s: StoreModel, ops: Seq<OpModel>) -> Seq<OpModel>
    decreases ops.len(),
{
    if ops.len() == 0 {
        Seq::empty()
    } else {
        invert_ops(apply_op(s, ops[0]), ops.drop_first()) + invert_op(s, ops[0])
    }
}

/// A batch the bridge may plan: it never contains a raw `Remove`.
pub open spec fn reversible(ops: Seq<OpModel>) -> bool {
    forall|i: int| 0 <= i < ops.len() ==> !(#[trigger] ops[i] is Remove)
}

proof fn lemma_apply_one(s: StoreModel, a: OpModel)
    ensures
        apply_ops(s, seq![a]) == apply_op(s, a),
{
    let p = seq![a];
    assert(p.drop_first() =~= Seq::<OpModel>::empty());
    assert(apply_ops(s, p) == apply_ops(apply_op(s, p[0]), p.drop_first()));
}

proof fn lemma_apply_two(s: StoreModel, a: OpModel, b: OpModel)
    ensures
        apply_ops(s, seq![a, b]) == apply_op(apply_op(s, a), b),
{
    let p = seq![a, b];
    assert(p.drop_first() =~= seq![b]);
    assert(apply_ops(s, p) == apply_ops(apply_op(s, p[0]), p.drop_first()));
    lemma_apply_one(apply_op(s, a), b);
}

proof fn lemma_apply_three(s: StoreModel, a: OpModel, b: OpModel, c: OpModel)
    ensures
        apply_ops(s, seq![a, b, c]) == apply_op(apply_op(apply_op(s, a), b), c),
{
    let p = seq![a, b, c];
    assert(p.drop_first() =~= seq![b, c]);
    assert(apply_ops(s, p) == apply_ops(apply_op(s, p[0]), p.drop_first()));
    lemma_apply_two(apply_op(s, a), b, c);
}

proof fn lemma_invert_one(s: StoreModel, op: OpModel)
    requires
        !(op is Remove),
    ensures
        apply_ops(apply_op(s, op), invert_op(s, op)) == s,
{
    let s1 = apply_op(s, op);
    let inv = invert_op(s, op);
    match op {
        OpModel::UndoPoint => {
            assert(apply_ops(s1, inv) == s1);
        },
        OpModel::Create { id } => {
            if s.entities.dom().contains(id) {
                assert(apply_ops(s1, inv) == s1);
            } else {
                assert(inv =~= seq![inv[0]]);
                lemma_apply_one(s1, inv[0]);
                assert(apply_op(s1, inv[0]).entities =~= s.entities);
                assert(apply_op(s1, inv[0]) =~~= s);
            }
        },
        _ => {
            let id = op_id(op).unwrap();
            if !s.entities.dom().contains(id) {
                assert(apply_ops(s1, inv) == s1);
            } else {
                let e = s.entities[id];
                assert(inv.len() <= 1);
                if inv.len() == 0 {
                    // the operation had no effect on the entity
                    match op {
                        OpModel::AddTag { tag, .. } => {
                            assert(apply_entity_op(e, op).tags =~= e.tags);
                            assert(apply_entity_op(e, op) =~~= e);
                            assert(s1.entities =~= s.entities);
                            assert(s1 =~~= s);
                        },
                        OpModel::RemoveTag { tag, .. } => {
                            assert(apply_entity_op(e, op).tags =~= e.tags);
                            assert(apply_entity_op(e, op) =~~= e);
                            assert(s1.entities =~= s.entities);
                            assert(s1 =~~= s);
                        },
                        OpModel::RemoveNote { ts, .. } => {
                            assert(apply_entity_op(e, op).anns =~= e.anns);
                            assert(apply_entity_op(e, op) =~~= e);
                            assert(s1.entities =~= s.entities);
                            assert(s1 =~~= s);
                        },
                        _ => {},
                    }
                    assert(apply_ops(s1, inv) == s1);
                } else {
                    assert(inv =~= seq![inv[0]]);
                    lemma_apply_one(s1, inv[0]);
                    let e1 = apply_entity_op(e, op);
                    assert(s1.entities[id] == e1);
                    let e2 = apply_entity_op(e1, inv[0]);
                    assert(e2.fields =~= e.fields);
                    assert(e2.tags =~= e.tags);
                    assert(e2.anns =~= e.anns);
                    assert(e2 =~~= e);
                    assert(apply_op(s1, inv[0]).entities =~= s.entities);
                    assert(apply_op(s1, inv[0]) =~~= s);
                }
            }
        },
    }
}

proof fn lemma_apply_ops_concat(s: StoreModel, a: Seq<OpModel>, b: Seq<OpModel>)
    ensures
        apply_ops(s, a + b) == apply_ops(apply_ops(s, a), b),
    decreases a.len(),
{
    if a.len() == 0 {
        assert(a + b =~= b);
    } else {
        assert((a + b)[0] == a[0]);
        assert((a + b).drop_first() =~= a.drop_first() + b);
        lemma_apply_ops_concat(apply_op(s, a[0]), a.drop_first(), b);
    }
}

/// Undoing a planned batch restores the store it was applied to, exactly.
/// This is what makes the bridge's undo sound, and with all-or-nothing
/// commits it is also why a lock poisoned mid-command can be recovered.
pub proof fn lemma_undo_round_trip(s: StoreModel, ops: Seq<OpModel>)
    requires
        reversible(ops),
    ensures
        apply_ops(apply_ops(s, ops), invert_ops(s, ops)) == s,
    decreases ops.len(),
{
    if ops.len() > 0 {
        let s1 = apply_op(s, ops[0]);
        assert(reversible(ops.drop_first())) by {
            assert(forall|i: int|
                0 <= i < ops.drop_first().len() ==> ops.drop_first()[i] == ops[i + 1]);
        }
        lemma_undo_round_trip(s1, ops.drop_first());
        lemma_apply_ops_concat(
            apply_ops(s1, ops.drop_first()),
            invert_ops(s1, ops.drop_first()),
            invert_op(s, ops[0]),
        );
        lemma_invert_one(s, ops[0]);
    }
}

// ---------------------------------------------------------------------------
// The batches the bridge plans for each command.

/// The explicit "modified" stamp every mutating command carries, except one
/// that targets "modified" itself.
pub open spec fn modified_stamp(id: Seq<char>, now: int) -> OpModel {
    OpModel::SetField { id, key: "modified"@, value: Some(dec_int(now)) }
}

/// Creation: the entity, then "entry" and "modified" stamped alike.
pub open spec fn create_plan(id: Seq<char>, now: int) -> Seq<OpModel> {
    seq![
        OpModel::Create { id },
        OpModel::SetField { id, key: "entry"@, value: Some(dec_int(now)) },
        modified_stamp(id, now),
    ]
}

pub open spec fn set_description_plan(id: Seq<char>, text: Seq<char>, now: int) -> Seq<OpModel> {
    seq![OpModel::SetDescription { id, text }, modified_stamp(id, now)]
}

pub open spec fn set_status_plan(id: Seq<char>, status: EntityStatus, now: int) -> Seq<OpModel> {
    seq![OpModel::SetStatus { id, status }, modified_stamp(id, now)]
}

/// A field update stamps "modified" unless it sets "modified" itself.
pub open spec fn set_field_plan(
    id: Seq<char>,
    key: Seq<char>,
    value: Option<Seq<char>>,
    now: int,
) -> Seq<OpModel> {
    if key == "modified"@ {
        seq![OpModel::SetField { id, key, value }]
    } else {
        seq![OpModel::SetField { id, key, value }, modified_stamp(id, now)]
    }
}

pub open spec fn add_tag_plan(id: Seq<char>, tag: Seq<char>, now: int) -> Seq<OpModel> {
    seq![OpModel::AddTag { id, tag }, modified_stamp(id, now)]
}

pub open spec fn remove_tag_plan(id: Seq<char>, tag: Seq<char>, now: int) -> Seq<OpModel> {
    seq![OpModel::RemoveTag { id, tag }, modified_stamp(id, now)]
}

/// A new annotation enters at the commanding moment.
pub open spec fn add_annotation_plan(id: Seq<char>, text: Seq<char>, now: int) -> Seq<OpModel> {
    seq![OpModel::AddNote { id, ts: now, text }, modified_stamp(id, now)]
}

pub open spec fn remove_annotation_plan(id: Seq<char>, ts: int, now: int) -> Seq<OpModel> {
    seq![OpModel::RemoveNote { id, ts }, modified_stamp(id, now)]
}

pub open spec fn undo_point_plan() -> Seq<OpModel> {
    seq![OpModel::UndoPoint]
}

/// Clearing: one undo point, then every entity marked deleted and stamped,
/// all as one batch.
pub open spec fn clear_tail(ids: Seq<Seq<char>>, now: int) -> Seq<OpModel>
    decreases ids.len(),
{
    if ids.len() == 0 {
        Seq::empty()
    } else {
        seq![OpModel::SetStatus { id: ids[0], status: EntityStatus::Deleted }, modified_stamp(ids[0], now)]
            + clear_tail(ids.drop_first(), now)
    }
}

pub open spec fn clear_plan(ids: Seq<Seq<char>>, now: int) -> Seq<OpModel> {
    seq![OpModel::UndoPoint] + clear_tail(ids, now)
}

// ---------------------------------------------------------------------------
// Laws.

/// For a previously-unused id, creation yields an entity whose "entry" and
/// "modified" fields are the same stamp.
pub proof fn lemma_create_entry_equals_modified(s: StoreModel, id: Seq<char>, now: int)
    requires
        !s.entities.dom().contains(id),
    ensures
        ({
            let s2 = apply_ops(s, create_plan(id, now));
            &&& s2.entities.dom().contains(id)
            &&& s2.entities[id].fields.dom().contains("entry"@)
            &&& s2.entities[id].fields.dom().contains("modified"@)
            &&& s2.entities[id].fields["entry"@] == dec_int(now)
            &&& s2.entities[id].fields["modified"@] == dec_int(now)
            &&& s2.entities[id].fields["entry"@] == s2.entities[id].fields["modified"@]
        }),
{
    broadcast use vstd::string::group_string_axioms;

    reveal_strlit("entry");
    reveal_strlit("modified");
    assert("entry"@.len() == 5);
    assert("modified"@.len() == 8);
    assert("entry"@ != "modified"@);
    let p = create_plan(id, now);
    assert(p =~= seq![p[0], p[1], p[2]]);
    lemma_apply_three(s, p[0], p[1], p[2]);
}

/// Setting the description records exactly the new text and moves the
/// "modified" stamp forward: with a monotone clock the new stamp's value is
/// at least the prior one's.
pub proof fn lemma_set_description_updates(
    s: StoreModel,
    id: Seq<char>,
    text: Seq<char>,
    prev: int,
    now: int,
)
    requires
        s.entities.dom().contains(id),
        s.entities[id].fields.dom().contains("modified"@),
        s.entities[id].fields["modified"@] == dec_int(prev),
        prev <= now,
    ensures
        ({
            let s2 = apply_ops(s, set_description_plan(id, text, now));
            &&& s2.entities.dom().contains(id)
            &&& s2.entities[id].fields["description"@] == text
            &&& s2.entities[id].fields["modified"@] == dec_int(now)
            &&& now >= prev
            &&& s2.entities[id].tags == s.entities[id].tags
            &&& s2.entities[id].anns == s.entities[id].anns
        }),
{
    broadcast use vstd::string::group_string_axioms;

    reveal_strlit("description");
    reveal_strlit("modified");
    assert("description"@.len() == 11);
    assert("modified"@.len() == 8);
    assert("description"@ != "modified"@);
    let p = set_description_plan(id, text, now);
    assert(p =~= seq![p[0], p[1]]);
    lemma_apply_two(s, p[0], p[1]);
}

/// Adding a tag that was not present and then removing it restores the tag
/// set to its exact prior contents.  (For a tag already present the pair is
/// not a round trip: the addition changes nothing and the removal drops it.)
pub proof fn lemma_tag_round_trip(
    s: StoreModel,
    id: Seq<char>,
    tag: Seq<char>,
    now1: int,
    now2: int,
)
    requires
        s.entities.dom().contains(id),
        !s.entities[id].tags.contains(tag),
    ensures
        ({
            let s2 = apply_ops(apply_ops(s, add_tag_plan(id, tag, now1)), remove_tag_plan(id, tag, now2));
            &&& s2.entities.dom() == s.entities.dom()
            &&& s2.entities[id].tags == s.entities[id].tags
        }),
{
    let pa = add_tag_plan(id, tag, now1);
    let pr = remove_tag_plan(id, tag, now2);
    assert(pa =~= seq![pa[0], pa[1]]);
    assert(pr =~= seq![pr[0], pr[1]]);
    lemma_apply_two(s, pa[0], pa[1]);
    let sa = apply_ops(s, pa);
    lemma_apply_two(sa, pr[0], pr[1]);
    let s2 = apply_ops(sa, pr);
    assert(s2.entities.dom() =~= s.entities.dom());
    assert(s2.entities[id].tags =~= s.entities[id].tags);
}

/// Removing an annotation by its timestamp removes exactly that annotation;
/// every other annotation is untouched.
pub proof fn lemma_remove_annotation_exact(s: StoreModel, id: Seq<char>, ts: int, now: int)
    requires
        s.entities.dom().contains(id),
    ensures
        ({
            let s2 = apply_ops(s, remove_annotation_plan(id, ts, now));
            &&& s2.entities.dom().contains(id)
            &&& s2.entities[id].anns == s.entities[id].anns.remove(ts)
            &&& forall|t2: int|
                t2 != ts && s.entities[id].anns.dom().contains(t2)
                    ==> s2.entities[id].anns.dom().contains(t2) && s2.entities[id].anns[t2]
                    == s.entities[id].anns[t2]
        }),
{
    let p = remove_annotation_plan(id, ts, now);
    assert(p =~= seq![p[0], p[1]]);
    lemma_apply_two(s, p[0], p[1]);
}

/// With no operations pending since the last undo point there is nothing to
/// undo, and the store is left exactly as it is.
pub proof fn lemma_undo_nothing_pending(s: StoreModel)
    ensures
        apply_ops(s, Seq::<OpModel>::empty()) == s,
{
}

/// Creating a batch of distinct, previously-unused ids succeeds for each:
/// afterwards every one of them is present, and the entity count has grown
/// by exactly the number of ids.
pub open spec fn create_seq_plan(ids: Seq<Seq<char>>, now: int) -> Seq<OpModel>
    decreases ids.len(),
{
    if ids.len() == 0 {
        Seq::empty()
    } else {
        create_plan(ids[0], now) + create_seq_plan(ids.drop_first(), now)
    }
}

pub proof fn lemma_distinct_creates_all_present(s: StoreModel, ids: Seq<Seq<char>>, now: int)
    requires
        s.entities.dom().finite(),
        forall|i: int| 0 <= i < ids.len() ==> !s.entities.dom().contains(#[trigger] ids[i]),
        forall|i: int, j: int| 0 <= i < j < ids.len() ==> ids[i] != ids[j],
    ensures
        ({
            let s2 = apply_ops(s, create_seq_plan(ids, now));
            &&& s2.entities.dom().finite()
            &&& s2.entities.dom().len() == s.entities.dom().len() + ids.len()
            &&& forall|i: int| 0 <= i < ids.len() ==> s2.entities.dom().contains(#[trigger] ids[i])
            &&& forall|e: Seq<char>|
                s.entities.dom().contains(e) ==> s2.entities.dom().contains(e)
        }),
    decreases ids.len(),
{
    if ids.len() == 0 {
        assert(create_seq_plan(ids, now) =~= Seq::<OpModel>::empty());
    } else {
        let id = ids[0];
        let p = create_plan(id, now);
        let s3 = apply_ops(s, p);
        assert(p =~= seq![p[0], p[1], p[2]]);
        lemma_apply_three(s, p[0], p[1], p[2]);
        assert(s3.entities.dom() =~= s.entities.dom().insert(id));
        assert(s3.entities.dom().len() == s.entities.dom().len() + 1);
        lemma_apply_ops_concat(s, p, create_seq_plan(ids.drop_first(), now));
        assert(create_seq_plan(ids, now) == p + create_seq_plan(ids.drop_first(), now));
        lemma_distinct_creates_all_present(s3, ids.drop_first(), now);
        assert(forall|i: int|
            0 <= i < ids.drop_first().len() ==> ids.drop_first()[i] == ids[i + 1]);
        let s2 = apply_ops(s, create_seq_plan(ids, now));
        assert(forall|i: int| 1 <= i < ids.len() ==> s2.entities.dom().contains(#[trigger] ids[i]))
            by {
            assert(forall|i: int|
                1 <= i < ids.len() ==> ids[i] == ids.drop_first()[i - 1]);
        }
    }
}

} // verus!

