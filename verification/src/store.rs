//! The trusted boundary to the external entity store.
//!
//! Every function here is an `external_body` wrapper around one call into the
//! store crate (or a declaration of one of its types).  Verus believes the
//! contracts stated here; each doc comment names the outside item relied on.
//! The store's contents live on disk, so almost nothing can be promised about
//! any particular call's outcome; the verified bridge code therefore treats
//! each result as an arbitrary value of its type.

use vstd::prelude::*;
use taskchampion::server::AwsCredentials;
use crate::types::{EntityStatus, SyncFailure};
use crate::config::AwsCreds;

verus! {

/// The store replica type of the outside crate, opaque to verification.
#[verifier::external_type_specification]
#[verifier::external_body]
pub struct ExReplica(taskchampion::Replica);

/// One atomic store mutation recorded in an operation batch.
#[verifier::external_type_specification]
#[verifier::external_body]
pub struct ExOperation(taskchampion::Operation);

/// The high-level per-entity handle of the outside crate.
#[verifier::external_type_specification]
#[verifier::external_body]
pub struct ExTask(taskchampion::Task);

/// A validated tag value of the outside crate.
#[verifier::external_type_specification]
#[verifier::external_body]
pub struct ExTag(taskchampion::Tag);

/// The positional index over pending entities.
#[verifier::external_type_specification]
#[verifier::external_body]
pub struct ExWorkingSet(taskchampion::WorkingSet);

/// A remote-endpoint description accepted by the outside crate.
#[verifier::external_type_specification]
#[verifier::external_body]
pub struct ExServerConfig(taskchampion::ServerConfig);

/// One live store instance, exclusively owned by its handle.
pub struct Store {
    pub replica: taskchampion::Replica,
}

/// The canonical (hyphenated, lower-case) form of an entity id string, if the
/// string denotes a valid id.  This is a function of the characters alone.
pub uninterp spec fn uuid_canon(s: Seq<char>) -> Option<Seq<char>>;

/// Whether a string is a valid user tag.  A function of the characters alone.
pub uninterp spec fn tag_ok(s: Seq<char>) -> bool;

/// Relies on `uuid::Uuid::parse_str` and `uuid::Uuid::to_string`: parsing
/// accepts a fixed set of textual id forms, and formatting yields the
/// canonical hyphenated form, which parses back to the same value.
#[verifier::external_body]
pub fn canonicalize_id(s: &String) -> (r: Option<String>)
    ensures
        r is Some <==> uuid_canon(s@) is Some,
        r matches Some(c) ==> uuid_canon(s@) == Some(c@) && uuid_canon(c@) == Some(c@),
{
    match taskchampion::Uuid::parse_str(s.as_str()) {
        Ok(u) => Some(u.to_string()),
        Err(_) => None,
    }
}

/// Relies on `Tag::try_from(&str)` and `Tag::is_user`: a tag is accepted
/// exactly when the characters form a valid, non-synthetic tag.
#[verifier::external_body]
pub fn make_tag(s: &String) -> (r: Option<taskchampion::Tag>)
    ensures
        r is Some <==> tag_ok(s@),
{
    match taskchampion::Tag::try_from(s.as_str()) {
        Ok(t) if t.is_user() => Some(t),
        _ => None,
    }
}

/// Relies on `StorageConfig::into_storage` and `Replica::new`: opens or
/// creates an on-disk store at the given location; any failure yields `None`.
#[verifier::external_body]
pub fn open_store(path: &String) -> (r: Option<Store>)
{
    let cfg = taskchampion::storage::StorageConfig::OnDisk {
        taskdb_dir: std::path::PathBuf::from(path.clone()),
        create_if_missing: true,
        access_mode: taskchampion::storage::AccessMode::ReadWrite,
    };
    match cfg.into_storage() {
        Ok(s) => Some(Store { replica: taskchampion::Replica::new(s) }),
        Err(_) => None,
    }
}

/// Relies on `chrono::Utc::now`: the current wall-clock time in whole
/// seconds.  Nothing can be promised of a clock reading.
#[verifier::external_body]
pub fn now_seconds() -> (r: i64)
{
    chrono::Utc::now().timestamp()
}

/// Whether a whole-second timestamp lies in the range the time crate can
/// represent.  A function of the number alone.
pub uninterp spec fn ts_ok(ts: int) -> bool;

/// Relies on `chrono::DateTime::from_timestamp`: the conversion succeeds
/// exactly for the representable range.
#[verifier::external_body]
pub fn timestamp_in_range(ts: i64) -> (r: bool)
    ensures
        r == ts_ok(ts as int),
{
    chrono::DateTime::from_timestamp(ts, 0).is_some()
}

/// Relies on `Replica::get_task`: looks an entity up by id.  `Ok(None)` means
/// the entity does not exist; `Err` is a store-layer failure.
#[verifier::external_body]
pub fn store_get_task(st: &mut Store, id: &String) -> (r: Result<Option<taskchampion::Task>, ()>)
    requires
        uuid_canon(id@) is Some,
{
    let u = match taskchampion::Uuid::parse_str(id.as_str()) {
        Ok(u) => u,
        Err(_) => return Err(()),
    };
    match st.replica.get_task(u) {
        Ok(t) => Ok(t),
        Err(_) => Err(()),
    }
}

/// Relies on `Replica::create_task`: records a creation in the batch and
/// returns the entity handle; if the entity already exists it is returned
/// unchanged with nothing recorded.
#[verifier::external_body]
pub fn store_create_task(
    st: &mut Store,
    id: &String,
    ops: &mut taskchampion::Operations,
) -> (r: Result<taskchampion::Task, ()>)
    requires
        uuid_canon(id@) is Some,
{
    let u = match taskchampion::Uuid::parse_str(id.as_str()) {
        Ok(u) => u,
        Err(_) => return Err(()),
    };
    match st.replica.create_task(u, ops) {
        Ok(t) => Ok(t),
        Err(_) => Err(()),
    }
}

/// Relies on `Operation::UndoPoint` and `Vec::push`: appends the checkpoint
/// marker that delimits what a later undo may reverse.
#[verifier::external_body]
pub fn push_undo_point(ops: &mut taskchampion::Operations)
    ensures
        final(ops)@.len() == old(ops)@.len() + 1,
{
    ops.push(taskchampion::Operation::UndoPoint);
}

/// Relies on `Task::set_description`: records a description update in the
/// batch.  Returns whether the store accepted the change.
#[verifier::external_body]
pub fn task_set_description(
    t: &mut taskchampion::Task,
    ops: &mut taskchampion::Operations,
    text: &String,
) -> (r: bool)
{
    t.set_description(text.clone(), ops).is_ok()
}

/// Relies on `Task::set_status`: records a status update in the batch.  The
/// store may additionally maintain its own end-time field for the entity.
#[verifier::external_body]
pub fn task_set_status(
    t: &mut taskchampion::Task,
    ops: &mut taskchampion::Operations,
    status: EntityStatus,
) -> (r: bool)
{
    let s = match status {
        EntityStatus::Pending => taskchampion::Status::Pending,
        EntityStatus::Completed => taskchampion::Status::Completed,
        EntityStatus::Deleted => taskchampion::Status::Deleted,
    };
    t.set_status(s, ops).is_ok()
}

/// Relies on `Task::set_value`: records a field update (or, for `None`, a
/// field removal) in the batch.  On the first such update to an entity the
/// store also stamps its own "modified" value, which the bridge always
/// overwrites with an explicit stamp later in the same batch.
#[verifier::external_body]
pub fn task_set_value(
    t: &mut taskchampion::Task,
    ops: &mut taskchampion::Operations,
    key: &String,
    value: Option<String>,
) -> (r: bool)
{
    t.set_value(key.as_str(), value, ops).is_ok()
}

/// Relies on `Task::add_tag`: records addition of a tag in the batch.
#[verifier::external_body]
pub fn task_add_tag(
    t: &mut taskchampion::Task,
    ops: &mut taskchampion::Operations,
    tag: &taskchampion::Tag,
) -> (r: bool)
{
    t.add_tag(tag, ops).is_ok()
}

/// Relies on `Task::remove_tag`: records removal of a tag in the batch.
#[verifier::external_body]
pub fn task_remove_tag(
    t: &mut taskchampion::Task,
    ops: &mut taskchampion::Operations,
    tag: &taskchampion::Tag,
) -> (r: bool)
{
    t.remove_tag(tag, ops).is_ok()
}

/// Relies on `chrono::DateTime::from_timestamp`, `Annotation`, and
/// `Task::add_annotation`: records addition of an annotation whose entry time
/// is the given whole-second timestamp.
#[verifier::external_body]
pub fn task_add_annotation(
    t: &mut taskchampion::Task,
    ops: &mut taskchampion::Operations,
    ts: i64,
    text: &String,
) -> (r: bool)
{
    match chrono::DateTime::from_timestamp(ts, 0) {
        Some(entry) => t
            .add_annotation(taskchampion::Annotation { entry, description: text.clone() }, ops)
            .is_ok(),
        None => false,
    }
}

/// Relies on `chrono::DateTime::from_timestamp` and
/// `Task::remove_annotation`: records removal of the annotation with the
/// given entry timestamp.
#[verifier::external_body]
pub fn task_remove_annotation(
    t: &mut taskchampion::Task,
    ops: &mut taskchampion::Operations,
    ts: i64,
) -> (r: bool)
{
    match chrono::DateTime::from_timestamp(ts, 0) {
        Some(entry) => t.remove_annotation(entry, ops).is_ok(),
        None => false,
    }
}

/// Relies on `Replica::commit_operations`: commits the batch as a single
/// unit; on failure nothing of the batch is applied.
#[verifier::external_body]
pub fn store_commit(st: &mut Store, ops: taskchampion::Operations) -> (r: bool)
{
    st.replica.commit_operations(ops).is_ok()
}

/// Relies on `Replica::get_undo_operations`: returns the operations back to
/// and including the last undo point — or back to the last synchronization,
/// if no undo point stands since then — in application order; empty when
/// there is nothing to undo.
#[verifier::external_body]
pub fn store_get_undo_ops(st: &mut Store) -> (r: Result<taskchampion::Operations, ()>)
{
    match st.replica.get_undo_operations() {
        Ok(ops) => Ok(ops),
        Err(_) => Err(()),
    }
}

/// Relies on `Replica::commit_reversed_operations`: applies the reversal as
/// one batch; `Ok(false)` means intervening changes prevented a clean
/// reversal and nothing was applied.
#[verifier::external_body]
pub fn store_commit_reversed(
    st: &mut Store,
    ops: taskchampion::Operations,
) -> (r: Result<bool, ()>)
{
    match st.replica.commit_reversed_operations(ops) {
        Ok(applied) => Ok(applied),
        Err(_) => Err(()),
    }
}

/// Relies on `Replica::rebuild_working_set`: rebuilds the positional index;
/// with `renumber` set, entries may move to new positions.
#[verifier::external_body]
pub fn store_rebuild_index(st: &mut Store, renumber: bool) -> (r: bool)
{
    st.replica.rebuild_working_set(renumber).is_ok()
}

/// Relies on `Replica::all_tasks` and `Uuid::to_string`: the ids of all
/// entities currently in the store, in no promised order.  Formatting an id
/// yields its canonical form, which parses back to the same value.
#[verifier::external_body]
pub fn store_all_ids(st: &mut Store) -> (r: Result<Vec<String>, ()>)
    ensures
        r matches Ok(ids) ==> forall|i: int|
            0 <= i < ids@.len() ==> uuid_canon(#[trigger] ids@[i]@) == Some(ids@[i]@),
{
    match st.replica.all_tasks() {
        Ok(tasks) => Ok(tasks.keys().map(|u| u.to_string()).collect()),
        Err(_) => Err(()),
    }
}

/// Relies on `Replica::get_task_data` and `TaskData::iter`: the raw field
/// map of one entity as key/value pairs, in no promised order.
#[verifier::external_body]
pub fn store_get_props(
    st: &mut Store,
    id: &String,
) -> (r: Result<Option<Vec<(String, String)>>, ()>)
    requires
        uuid_canon(id@) is Some,
{
    let u = match taskchampion::Uuid::parse_str(id.as_str()) {
        Ok(u) => u,
        Err(_) => return Err(()),
    };
    match st.replica.get_task_data(u) {
        Ok(Some(d)) => Ok(Some(d.iter().map(|(k, v)| (k.clone(), v.clone())).collect())),
        Ok(None) => Ok(None),
        Err(_) => Err(()),
    }
}

/// Relies on `Task::get_tags` and `Tag::to_string`: the entity's tags as
/// plain strings.
#[verifier::external_body]
pub fn task_get_tags(t: &taskchampion::Task) -> (r: Vec<String>)
{
    t.get_tags().map(|tag| tag.to_string()).collect()
}

/// Relies on `Task::get_annotations`: the entity's annotations as pairs of
/// entry timestamp (whole seconds) and text.
#[verifier::external_body]
pub fn task_get_annotations(t: &taskchampion::Task) -> (r: Vec<(i64, String)>)
{
    t.get_annotations().map(|a| (a.entry.timestamp(), a.description)).collect()
}

/// Relies on `Replica::working_set`: a snapshot of the positional index.
#[verifier::external_body]
pub fn store_working_set(st: &mut Store) -> (r: Result<taskchampion::WorkingSet, ()>)
{
    match st.replica.working_set() {
        Ok(ws) => Ok(ws),
        Err(_) => Err(()),
    }
}

/// Relies on `WorkingSet::len`: the number of occupied positions.
#[verifier::external_body]
pub fn ws_len(ws: &taskchampion::WorkingSet) -> (r: usize)
{
    ws.len()
}

/// Relies on `WorkingSet::by_index` and `Uuid::to_string`: the id recorded
/// at a 0-based position, if the slot is filled.
#[verifier::external_body]
pub fn ws_by_index(ws: &taskchampion::WorkingSet, i: usize) -> (r: Option<String>)
{
    ws.by_index(i).map(|u| u.to_string())
}

/// Relies on `ServerConfig::Aws` and `AwsCredentials`: builds the remote
/// endpoint description for the region/key-pair backend.
#[verifier::external_body]
pub fn server_config_aws(
    region: &String,
    bucket: &String,
    secret: &String,
    creds: &AwsCreds,
) -> (r: taskchampion::ServerConfig)
{
    let credentials = match creds {
        AwsCreds::AccessKey { access_key_id, secret_access_key } => AwsCredentials::AccessKey {
            access_key_id: access_key_id.clone(),
            secret_access_key: secret_access_key.clone(),
        },
        AwsCreds::Profile { profile_name } => AwsCredentials::Profile {
            profile_name: profile_name.clone(),
        },
        AwsCreds::DefaultChain => AwsCredentials::Default,
    };
    let (region, bucket) = (region.clone(), bucket.clone());
    let encryption_secret = secret.as_bytes().to_vec();
    taskchampion::ServerConfig::Aws { region, bucket, credentials, encryption_secret }
}

/// Relies on `ServerConfig::Gcp`: builds the remote endpoint description for
/// the credential-file backend.
#[verifier::external_body]
pub fn server_config_gcp(
    bucket: &String,
    credential_path: &Option<String>,
    secret: &String,
) -> (r: taskchampion::ServerConfig)
{
    taskchampion::ServerConfig::Gcp {
        bucket: bucket.clone(),
        credential_path: credential_path.clone(),
        encryption_secret: secret.as_bytes().to_vec(),
    }
}

/// Relies on `ServerConfig::into_server` and `Replica::sync`: performs the
/// remote synchronization; a typed failure reports which step failed,
/// carrying that step's rendered detail text and nothing more.
#[verifier::external_body]
pub fn sync_store(st: &mut Store, cfg: taskchampion::ServerConfig) -> (r: Result<(), SyncFailure>)
{
    match cfg.into_server() {
        Ok(mut server) => match st.replica.sync(&mut server, false) {
            Ok(()) => Ok(()),
            Err(e) => Err(SyncFailure::Transport(format!("{}", e))),
        },
        Err(e) => Err(SyncFailure::ServerSetup(format!("{}", e))),
    }
}

} // verus!
