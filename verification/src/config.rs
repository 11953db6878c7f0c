//! The declarative remote-endpoint configuration: its document form, the
//! typed configuration it decodes to, and the validating parser with an
//! exact functional specification.
//!
//! Parsing performs no I/O and never touches a store.

use vstd::prelude::*;
use vstd::string::*;

verus! {

// ---------------------------------------------------------------------------
// The document, as plain values.
//
// A configuration document is a flat object of named values; one value (the
// credential descriptor) may itself be a one-level object of strings.
// Anything deeper, or of another shape, is carried as `Opaque` and treated
// as not-a-string by the validation rules.

/// A value nested one level down, inside the credential descriptor.
pub enum NestedValue {
    Text(String),
    Opaque,
}

/// A named value nested one level down.
pub struct NestedField {
    pub key: String,
    pub value: NestedValue,
}

/// A top-level value of the document.
pub enum DocValue {
    Text(String),
    Nested(Vec<NestedField>),
    Opaque,
}

/// A named top-level value.
pub struct DocField {
    pub key: String,
    pub value: DocValue,
}

/// A decoded configuration document.
pub struct ConfigDoc {
    pub fields: Vec<DocField>,
}

/// Mathematical form of a top-level document value.
pub ghost enum ValModel {
    Text(Seq<char>),
    Nested(Seq<(Seq<char>, Option<Seq<char>>)>),
    Opaque,
}

impl View for NestedValue {
    type V = Option<Seq<char>>;

    open spec fn view(&self) -> Option<Seq<char>> {
        match self {
            NestedValue::Text(s) => Some(s@),
            NestedValue::Opaque => None,
        }
    }
}

impl View for DocValue {
    type V = ValModel;

    open spec fn view(&self) -> ValModel {
        match self {
            DocValue::Text(s) => ValModel::Text(s@),
            DocValue::Nested(fields) => ValModel::Nested(
                fields@.map_values(|f: NestedField| (f.key@, f.value@)),
            ),
            DocValue::Opaque => ValModel::Opaque,
        }
    }
}

impl View for ConfigDoc {
    type V = Seq<(Seq<char>, ValModel)>;

    open spec fn view(&self) -> Seq<(Seq<char>, ValModel)> {
        self.fields@.map_values(|f: DocField| (f.key@, f.value@))
    }
}

// ---------------------------------------------------------------------------
// Lookup.

/// The first value recorded under a key, if any.
pub open spec fn doc_lookup(d: Seq<(Seq<char>, ValModel)>, key: Seq<char>) -> Option<ValModel>
    decreases d.len(),
{
    if d.len() == 0 {
        None
    } else if d[0].0 == key {
        Some(d[0].1)
    } else {
        doc_lookup(d.drop_first(), key)
    }
}

/// The first value recorded under a key, when it is a string.
pub open spec fn doc_text(d: Seq<(Seq<char>, ValModel)>, key: Seq<char>) -> Option<Seq<char>> {
    match doc_lookup(d, key) {
        Some(ValModel::Text(s)) => Some(s),
        _ => None,
    }
}

/// The first nested value recorded under a key, when it is a string.
pub open spec fn nested_text(
    n: Seq<(Seq<char>, Option<Seq<char>>)>,
    key: Seq<char>,
) -> Option<Seq<char>>
    decreases n.len(),
{
    if n.len() == 0 {
        None
    } else if n[0].0 == key {
        n[0].1
    } else {
        nested_text(n.drop_first(), key)
    }
}

proof fn lemma_doc_lookup_skip(d: Seq<(Seq<char>, ValModel)>, key: Seq<char>, i: int)
    requires
        0 <= i <= d.len(),
        forall|j: int| 0 <= j < i ==> d[j].0 != key,
    ensures
        doc_lookup(d, key) == doc_lookup(d.skip(i), key),
    decreases i,
{
    if i > 0 {
        assert(d.skip(i) =~= d.drop_first().skip(i - 1));
        lemma_doc_lookup_skip(d.drop_first(), key, i - 1);
    } else {
        assert(d.skip(0) =~= d);
    }
}

proof fn lemma_nested_text_skip(n: Seq<(Seq<char>, Option<Seq<char>>)>, key: Seq<char>, i: int)
    requires
        0 <= i <= n.len(),
        forall|j: int| 0 <= j < i ==> n[j].0 != key,
    ensures
        nested_text(n, key) == nested_text(n.skip(i), key),
    decreases i,
{
    if i > 0 {
        assert(n.skip(i) =~= n.drop_first().skip(i - 1));
        lemma_nested_text_skip(n.drop_first(), key, i - 1);
    } else {
        assert(n.skip(0) =~= n);
    }
}

/// Find the first top-level value under a key.
fn get_value<'a>(doc: &'a ConfigDoc, key: &String) -> (r: Option<&'a DocValue>)
    ensures
        match r {
            Some(v) => doc_lookup(doc@, key@) == Some(v@),
            None => doc_lookup(doc@, key@) is None,
        },
{
    let n = doc.fields.len();
    let mut i: usize = 0;
    while i < n
        invariant
            n == doc.fields.len(),
            0 <= i <= n,
            forall|j: int| 0 <= j < i ==> doc@[j].0 != key@,
        decreases n - i,
    {
        if doc.fields[i].key == *key {
            proof {
                lemma_doc_lookup_skip(doc@, key@, i as int);
                assert(doc@.skip(i as int)[0] == doc@[i as int]);
            }
            return Some(&doc.fields[i].value);
        }
        i = i + 1;
    }
    proof {
        lemma_doc_lookup_skip(doc@, key@, n as int);
        assert(doc@.skip(n as int).len() == 0);
    }
    None
}

/// Find the first top-level string value under a key.
fn get_text(doc: &ConfigDoc, key: &String) -> (r: Option<String>)
    ensures
        match r {
            Some(s) => doc_text(doc@, key@) == Some(s@),
            None => doc_text(doc@, key@) is None,
        },
{
    match get_value(doc, key) {
        Some(DocValue::Text(s)) => Some(s.clone()),
        _ => None,
    }
}

/// Find the first nested string value under a key.
fn get_nested_text(fields: &Vec<NestedField>, key: &String) -> (r: Option<String>)
    ensures
        ({
            let n = fields@.map_values(|f: NestedField| (f.key@, f.value@));
            match r {
                Some(s) => nested_text(n, key@) == Some(s@),
                None => nested_text(n, key@) is None,
            }
        }),
{
    let ghost nm = fields@.map_values(|f: NestedField| (f.key@, f.value@));
    let n = fields.len();
    let mut i: usize = 0;
    while i < n
        invariant
            n == fields.len(),
            0 <= i <= n,
            nm == fields@.map_values(|f: NestedField| (f.key@, f.value@)),
            forall|j: int| 0 <= j < i ==> nm[j].0 != key@,
        decreases n - i,
    {
        if fields[i].key == *key {
            proof {
                lemma_nested_text_skip(nm, key@, i as int);
                assert(nm.skip(i as int)[0] == nm[i as int]);
            }
            return match &fields[i].value {
                NestedValue::Text(s) => Some(s.clone()),
                NestedValue::Opaque => None,
            };
        }
        i = i + 1;
    }
    proof {
        lemma_nested_text_skip(nm, key@, n as int);
        assert(nm.skip(n as int).len() == 0);
    }
    None
}

// ---------------------------------------------------------------------------
// The typed configuration.

/// A credential descriptor for the region/key-pair backend.
pub enum AwsCreds {
    AccessKey { access_key_id: String, secret_access_key: String },
    Profile { profile_name: String },
    DefaultChain,
}

/// A validated remote-endpoint configuration.
pub enum SyncConfig {
    Gcp { bucket: String, credential_path: Option<String>, encryption_secret: String },
    Aws { region: String, bucket: String, credentials: AwsCreds, encryption_secret: String },
}

/// Mathematical form of a credential descriptor.
pub ghost enum CredsModel {
    AccessKey { access_key_id: Seq<char>, secret_access_key: Seq<char> },
    Profile { profile_name: Seq<char> },
    DefaultChain,
}

/// Mathematical form of a validated configuration.
pub ghost enum SyncConfigModel {
    Gcp { bucket: Seq<char>, credential_path: Option<Seq<char>>, encryption_secret: Seq<char> },
    Aws {
        region: Seq<char>,
        bucket: Seq<char>,
        credentials: CredsModel,
        encryption_secret: Seq<char>,
    },
}

impl View for AwsCreds {
    type V = CredsModel;

    open spec fn view(&self) -> CredsModel {
        match self {
            AwsCreds::AccessKey { access_key_id, secret_access_key } => CredsModel::AccessKey {
                access_key_id: access_key_id@,
                secret_access_key: secret_access_key@,
            },
            AwsCreds::Profile { profile_name } => CredsModel::Profile {
                profile_name: profile_name@,
            },
            AwsCreds::DefaultChain => CredsModel::DefaultChain,
        }
    }
}

impl View for SyncConfig {
    type V = SyncConfigModel;

    open spec fn view(&self) -> SyncConfigModel {
        match self {
            SyncConfig::Gcp { bucket, credential_path, encryption_secret } => SyncConfigModel::Gcp {
                bucket: bucket@,
                credential_path: match credential_path {
                    Some(p) => Some(p@),
                    None => None,
                },
                encryption_secret: encryption_secret@,
            },
            SyncConfig::Aws { region, bucket, credentials, encryption_secret } => {
                SyncConfigModel::Aws {
                    region: region@,
                    bucket: bucket@,
                    credentials: credentials@,
                    encryption_secret: encryption_secret@,
                }
            },
        }
    }
}

// ---------------------------------------------------------------------------
// Validation errors.

/// Why a configuration document was rejected.
#[derive(Debug)]
pub enum ConfigError {
    MissingType,
    MissingBucket,
    MissingSecret,
    EmptySecret,
    MissingRegion,
    MissingCredentials,
    MissingCredType,
    MissingAccessKeyId,
    MissingSecretAccessKey,
    MissingProfileName,
    UnknownCredType(String),
    UnknownType(String),
}

/// Mathematical form of a rejection.
pub ghost enum ErrModel {
    MissingType,
    MissingBucket,
    MissingSecret,
    EmptySecret,
    MissingRegion,
    MissingCredentials,
    MissingCredType,
    MissingAccessKeyId,
    MissingSecretAccessKey,
    MissingProfileName,
    UnknownCredType(Seq<char>),
    UnknownType(Seq<char>),
}

impl View for ConfigError {
    type V = ErrModel;

    open spec fn view(&self) -> ErrModel {
        match self {
            ConfigError::MissingType => ErrModel::MissingType,
            ConfigError::MissingBucket => ErrModel::MissingBucket,
            ConfigError::MissingSecret => ErrModel::MissingSecret,
            ConfigError::EmptySecret => ErrModel::EmptySecret,
            ConfigError::MissingRegion => ErrModel::MissingRegion,
            ConfigError::MissingCredentials => ErrModel::MissingCredentials,
            ConfigError::MissingCredType => ErrModel::MissingCredType,
            ConfigError::MissingAccessKeyId => ErrModel::MissingAccessKeyId,
            ConfigError::MissingSecretAccessKey => ErrModel::MissingSecretAccessKey,
            ConfigError::MissingProfileName => ErrModel::MissingProfileName,
            ConfigError::UnknownCredType(t) => ErrModel::UnknownCredType(t@),
            ConfigError::UnknownType(t) => ErrModel::UnknownType(t@),
        }
    }
}

/// The detail text reported for a rejection, as the boundary renders it.
pub open spec fn err_text(e: ErrModel) -> Seq<char> {
    match e {
        ErrModel::MissingType => "Missing 'type' field"@,
        ErrModel::MissingBucket => "Missing 'bucket' field"@,
        ErrModel::MissingSecret => "Missing 'encryption_secret' field"@,
        ErrModel::EmptySecret => "Empty encryption secret"@,
        ErrModel::MissingRegion => "Missing 'region' field for AWS"@,
        ErrModel::MissingCredentials => "Missing 'credentials' field for AWS"@,
        ErrModel::MissingCredType => "Missing 'type' field in AWS credentials"@,
        ErrModel::MissingAccessKeyId => "Missing 'access_key_id' field"@,
        ErrModel::MissingSecretAccessKey => "Missing 'secret_access_key' field"@,
        ErrModel::MissingProfileName => "Missing 'profile_name' field"@,
        ErrModel::UnknownCredType(t) => "Unknown AWS credential type: "@ + t,
        ErrModel::UnknownType(t) => "Unknown server type: "@ + t,
    }
}

impl ConfigError {
    /// Render the detail text for this rejection.
    pub fn detail(&self) -> (r: String)
        ensures
            r@ == err_text(self@),
    {
        match self {
            ConfigError::MissingType => "Missing 'type' field".to_owned(),
            ConfigError::MissingBucket => "Missing 'bucket' field".to_owned(),
            ConfigError::MissingSecret => "Missing 'encryption_secret' field".to_owned(),
            ConfigError::EmptySecret => "Empty encryption secret".to_owned(),
            ConfigError::MissingRegion => "Missing 'region' field for AWS".to_owned(),
            ConfigError::MissingCredentials => "Missing 'credentials' field for AWS".to_owned(),
            ConfigError::MissingCredType => "Missing 'type' field in AWS credentials".to_owned(),
            ConfigError::MissingAccessKeyId => "Missing 'access_key_id' field".to_owned(),
            ConfigError::MissingSecretAccessKey => {
                "Missing 'secret_access_key' field".to_owned()
            },
            ConfigError::MissingProfileName => "Missing 'profile_name' field".to_owned(),
            ConfigError::UnknownCredType(t) => {
                let mut s = "Unknown AWS credential type: ".to_owned();
                s.append(t.as_str());
                s
            },
            ConfigError::UnknownType(t) => {
                let mut s = "Unknown server type: ".to_owned();
                s.append(t.as_str());
                s
            },
        }
    }
}

// ---------------------------------------------------------------------------
// The parser.

/// What validating the credential descriptor yields.
pub open spec fn spec_parse_creds(v: ValModel) -> Result<CredsModel, ErrModel> {
    let fields = match v {
        ValModel::Nested(n) => n,
        _ => Seq::empty(),
    };
    match nested_text(fields, "type"@) {
        None => Err(ErrModel::MissingCredType),
        Some(ct) => {
            if ct == "access_key"@ {
                match nested_text(fields, "access_key_id"@) {
                    None => Err(ErrModel::MissingAccessKeyId),
                    Some(id) => match nested_text(fields, "secret_access_key"@) {
                        None => Err(ErrModel::MissingSecretAccessKey),
                        Some(sk) => Ok(CredsModel::AccessKey {
                            access_key_id: id,
                            secret_access_key: sk,
                        }),
                    },
                }
            } else if ct == "profile"@ {
                match nested_text(fields, "profile_name"@) {
                    None => Err(ErrModel::MissingProfileName),
                    Some(name) => Ok(CredsModel::Profile { profile_name: name }),
                }
            } else if ct == "default"@ {
                Ok(CredsModel::DefaultChain)
            } else {
                Err(ErrModel::UnknownCredType(ct))
            }
        },
    }
}

/// What validating a whole document yields: the typed configuration, or the
/// first rejection in validation order (backend type, bucket, secret and its
/// non-emptiness, then the backend-specific fields).
pub open spec fn spec_parse_config(
    d: Seq<(Seq<char>, ValModel)>,
) -> Result<SyncConfigModel, ErrModel> {
    match doc_text(d, "type"@) {
        None => Err(ErrModel::MissingType),
        Some(ty) => match doc_text(d, "bucket"@) {
            None => Err(ErrModel::MissingBucket),
            Some(bucket) => match doc_text(d, "encryption_secret"@) {
                None => Err(ErrModel::MissingSecret),
                Some(secret) => {
                    if secret.len() == 0 {
                        Err(ErrModel::EmptySecret)
                    } else if ty == "gcp"@ {
                        Ok(SyncConfigModel::Gcp {
                            bucket: bucket,
                            credential_path: doc_text(d, "credential_path"@),
                            encryption_secret: secret,
                        })
                    } else if ty == "aws"@ {
                        match doc_text(d, "region"@) {
                            None => Err(ErrModel::MissingRegion),
                            Some(region) => match doc_lookup(d, "credentials"@) {
                                None => Err(ErrModel::MissingCredentials),
                                Some(cv) => match spec_parse_creds(cv) {
                                    Err(e) => Err(e),
                                    Ok(creds) => Ok(SyncConfigModel::Aws {
                                        region: region,
                                        bucket: bucket,
                                        credentials: creds,
                                        encryption_secret: secret,
                                    }),
                                },
                            },
                        }
                    } else {
                        Err(ErrModel::UnknownType(ty))
                    }
                },
            },
        },
    }
}

/// A document that names a backend type and a bucket but carries no
/// encryption secret is rejected for exactly that reason, and the boundary
/// names the missing field.
pub proof fn lemma_missing_secret_rejected(d: Seq<(Seq<char>, ValModel)>)
    requires
        doc_text(d, "type"@) is Some,
        doc_text(d, "bucket"@) is Some,
        doc_text(d, "encryption_secret"@) is None,
    ensures
        spec_parse_config(d) == Err::<SyncConfigModel, ErrModel>(ErrModel::MissingSecret),
        err_text(ErrModel::MissingSecret) == "Missing 'encryption_secret' field"@,
{
}

/// Mathematical form of a parse outcome.
pub open spec fn parse_result_model(
    r: Result<SyncConfig, ConfigError>,
) -> Result<SyncConfigModel, ErrModel> {
    match r {
        Ok(c) => Ok(c@),
        Err(e) => Err(e@),
    }
}

fn parse_creds(v: &DocValue) -> (r: Result<AwsCreds, ConfigError>)
    ensures
        match r {
            Ok(c) => spec_parse_creds(v@) == Ok::<CredsModel, ErrModel>(c@),
            Err(e) => spec_parse_creds(v@) == Err::<CredsModel, ErrModel>(e@),
        },
{
    let empty: Vec<NestedField> = Vec::new();
    let fields: &Vec<NestedField> = match v {
        DocValue::Nested(n) => n,
        _ => &empty,
    };
    proof {
        assert(empty@.map_values(|f: NestedField| (f.key@, f.value@)) =~= Seq::<(
            Seq<char>,
            Option<Seq<char>>,
        )>::empty());
    }
    let ct = match get_nested_text(fields, &"type".to_owned()) {
        Some(ct) => ct,
        None => {
            return Err(ConfigError::MissingCredType);
        },
    };
    let access_key = "access_key".to_owned();
    let profile = "profile".to_owned();
    let default_word = "default".to_owned();
    if ct == access_key {
        let id = match get_nested_text(fields, &"access_key_id".to_owned()) {
            Some(id) => id,
            None => {
                return Err(ConfigError::MissingAccessKeyId);
            },
        };
        match get_nested_text(fields, &"secret_access_key".to_owned()) {
            Some(sk) => Ok(AwsCreds::AccessKey { access_key_id: id, secret_access_key: sk }),
            None => Err(ConfigError::MissingSecretAccessKey),
        }
    } else if ct == profile {
        match get_nested_text(fields, &"profile_name".to_owned()) {
            Some(name) => Ok(AwsCreds::Profile { profile_name: name }),
            None => Err(ConfigError::MissingProfileName),
        }
    } else if ct == default_word {
        Ok(AwsCreds::DefaultChain)
    } else {
        Err(ConfigError::UnknownCredType(ct))
    }
}

/// Validate and decode a configuration document.  The outcome is exactly
/// what `spec_parse_config` assigns to the document's mathematical form.
pub fn parse_sync_config(doc: &ConfigDoc) -> (r: Result<SyncConfig, ConfigError>)
    ensures
        parse_result_model(r) == spec_parse_config(doc@),
{
    let ty = match get_text(doc, &"type".to_owned()) {
        Some(t) => t,
        None => {
            return Err(ConfigError::MissingType);
        },
    };
    let bucket = match get_text(doc, &"bucket".to_owned()) {
        Some(b) => b,
        None => {
            return Err(ConfigError::MissingBucket);
        },
    };
    let secret = match get_text(doc, &"encryption_secret".to_owned()) {
        Some(s) => s,
        None => {
            return Err(ConfigError::MissingSecret);
        },
    };
    if secret.as_str().unicode_len() == 0 {
        return Err(ConfigError::EmptySecret);
    }
    let gcp = "gcp".to_owned();
    let aws = "aws".to_owned();
    if ty == gcp {
        let credential_path = get_text(doc, &"credential_path".to_owned());
        Ok(SyncConfig::Gcp { bucket, credential_path, encryption_secret: secret })
    } else if ty == aws {
        let region = match get_text(doc, &"region".to_owned()) {
            Some(rg) => rg,
            None => {
                return Err(ConfigError::MissingRegion);
            },
        };
        let cv = match get_value(doc, &"credentials".to_owned()) {
            Some(cv) => cv,
            None => {
                return Err(ConfigError::MissingCredentials);
            },
        };
        match parse_creds(cv) {
            Ok(credentials) => Ok(SyncConfig::Aws {
                region,
                bucket,
                credentials,
                encryption_secret: secret,
            }),
            Err(e) => Err(e),
        }
    } else {
        Err(ConfigError::UnknownType(ty))
    }
}

} // verus!
