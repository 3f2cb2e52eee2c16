//! Storage pools and objects: which pools are shared, what an object's JSON
//! configuration says, and the checks made before creating or importing
//! objects.
use vstd::prelude::*;

use crate::errors::{is_unprocessable, unprocessable, Error};
use crate::ids::{lemma_uuid_text_len, random_uuid_text, uuid_string, uuid_text};
use crate::model::{StorageObjectType, StoragePoolStatus, StoragePoolType};
use crate::text::{dec_int, owned, push_i64, push_str, str_eq};

verus! {

impl StoragePoolType {
    /// Nfs, OverlayBd and Block pools are reachable from several hosts;
    /// Local pools belong to one host.
    pub open spec fn spec_is_shared(self) -> bool {
        self is Nfs || self is OverlayBd || self is Block
    }

    /// Whether this pool type represents shared storage accessible from multiple hosts.
    pub fn is_shared(&self) -> (r: bool)
        ensures
            r == self.spec_is_shared(),
    {
        match self {
            StoragePoolType::Nfs | StoragePoolType::OverlayBd | StoragePoolType::Block => true,
            StoragePoolType::Local => false,
        }
    }

    /// The variant's name as `Debug` prints it.
    pub open spec fn variant_name(self) -> Seq<char> {
        match self {
            StoragePoolType::Local => "Local"@,
            StoragePoolType::Nfs => "Nfs"@,
            StoragePoolType::OverlayBd => "OverlayBd"@,
            StoragePoolType::Block => "Block"@,
        }
    }

    pub fn variant_str(&self) -> (r: &'static str)
        ensures
            r@ == self.variant_name(),
    {
        match self {
            StoragePoolType::Local => "Local",
            StoragePoolType::Nfs => "Nfs",
            StoragePoolType::OverlayBd => "OverlayBd",
            StoragePoolType::Block => "Block",
        }
    }

    /// Whether VMs using this pool type can be live-migrated.
    pub fn supports_live_migration(&self) -> (r: bool)
        ensures
            r == self.spec_is_shared(),
    {
        self.is_shared()
    }
}

// ---------------------------------------------------------------------------
// JSON configuration of storage objects and pools
// ---------------------------------------------------------------------------

/// One top-level field of a JSON configuration: its key, its text when the
/// value is a JSON string, and its value when it is an integer that fits in
/// an `i64`.
#[derive(Debug)]
pub struct ConfigField {
    pub key: String,
    pub text: Option<String>,
    pub number: Option<i64>,
}

/// What the logic reads of a JSON configuration value: whether it is an
/// object, and its top-level fields (keys are distinct, as in a JSON map).
#[derive(Debug)]
pub struct JsonConfig {
    pub is_object: bool,
    pub fields: Vec<ConfigField>,
}

/// The text of the string field `key`, if the configuration is an object
/// holding that key with a string value.
pub open spec fn config_text(c: JsonConfig, key: Seq<char>) -> Option<Seq<char>> {
    if c.is_object && exists|i: int| 0 <= i < c.fields.len() && c.fields@[i].key@ == key {
        let i = choose|i: int| 0 <= i < c.fields.len() && c.fields@[i].key@ == key;
        match c.fields@[i].text {
            Some(t) => Some(t@),
            None => None,
        }
    } else {
        None
    }
}

/// Keys are distinct.
pub open spec fn config_wf(c: JsonConfig) -> bool {
    forall|i: int, j: int|
        0 <= i < j < c.fields.len() ==> #[trigger] c.fields@[i].key@ != #[trigger] c.fields@[j].key@
}

impl JsonConfig {
    /// The text of the string field `key` (`config.get(key).and_then(as_str)`).
    pub fn get_str(&self, key: &str) -> (r: Option<String>)
        requires
            config_wf(*self),
        ensures
            config_text(*self, key@) is None ==> r is None,
            config_text(*self, key@) matches Some(t) ==> (r matches Some(s) && s@ == t),
    {
        if !self.is_object {
            return None;
        }
        let mut i: usize = 0;
        while i < self.fields.len()
            invariant
                i <= self.fields.len(),
                self.is_object,
                config_wf(*self),
                forall|j: int| 0 <= j < i ==> self.fields@[j].key@ != key@,
            decreases self.fields.len() - i,
        {
            if str_eq(self.fields[i].key.as_str(), key) {
                let ghost k = choose|k: int| 0 <= k < self.fields.len() && self.fields@[k].key@ == key@;
                assert(k == i as int) by {
                    if k < i {
                    } else if k > i {
                        assert(self.fields@[i as int].key@ != self.fields@[k].key@);
                    }
                }
                return match &self.fields[i].text {
                    Some(t) => Some(t.clone()),
                    None => None,
                };
            }
            i = i + 1;
        }
        None
    }
}

/// Extract the path from a storage object's config (`{"path": "..."}`).
pub fn get_path_from_config(config: &JsonConfig) -> (r: Option<String>)
    requires
        config_wf(*config),
    ensures
        config_text(*config, "path"@) is None ==> r is None,
        config_text(*config, "path"@) matches Some(t) ==> (r matches Some(s) && s@ == t),
{
    config.get_str("path")
}

/// An object kept in a storage pool.
#[derive(Debug)]
pub struct StorageObject {
    pub id: u128,
    pub name: String,
    pub storage_pool_id: u128,
    pub object_type: StorageObjectType,
    pub size_bytes: i64,
    pub config: JsonConfig,
}

/// A storage pool.
#[derive(Debug)]
pub struct StoragePool {
    pub id: u128,
    pub name: String,
    pub pool_type: StoragePoolType,
    pub status: StoragePoolStatus,
    pub capacity_bytes: Option<i64>,
    pub allocated_bytes: Option<i64>,
    pub config: JsonConfig,
}

/// Typed config for OciImage storage objects.
#[derive(Debug)]
pub struct OciImageConfig {
    pub image_ref: String,
    pub registry_url: String,
}

impl OciImageConfig {
    /// Both fields, when the configuration holds them as strings.
    pub fn from_value(config: &JsonConfig) -> (r: Option<OciImageConfig>)
        requires
            config_wf(*config),
        ensures
            r is Some <==> (config_text(*config, "image_ref"@) is Some && config_text(*config, "registry_url"@) is Some),
            r matches Some(c) ==> c.image_ref@ == config_text(*config, "image_ref"@).unwrap()
                && c.registry_url@ == config_text(*config, "registry_url"@).unwrap(),
    {
        let image_ref = config.get_str("image_ref");
        let registry_url = config.get_str("registry_url");
        match (image_ref, registry_url) {
            (Some(image_ref), Some(registry_url)) => Some(OciImageConfig { image_ref, registry_url }),
            _ => None,
        }
    }
}

/// Typed config for OverlaybdUpper storage objects.
#[derive(Debug)]
pub struct OverlaybdUpperConfig {
    pub upper_data: String,
    pub upper_index: String,
}

impl OverlaybdUpperConfig {
    /// Both fields, when the configuration holds them as strings.
    pub fn from_value(config: &JsonConfig) -> (r: Option<OverlaybdUpperConfig>)
        requires
            config_wf(*config),
        ensures
            r is Some <==> (config_text(*config, "upper_data"@) is Some && config_text(*config, "upper_index"@) is Some),
            r matches Some(c) ==> c.upper_data@ == config_text(*config, "upper_data"@).unwrap()
                && c.upper_index@ == config_text(*config, "upper_index"@).unwrap(),
    {
        let upper_data = config.get_str("upper_data");
        let upper_index = config.get_str("upper_index");
        match (upper_data, upper_index) {
            (Some(upper_data), Some(upper_index)) => Some(OverlaybdUpperConfig { upper_data, upper_index }),
            _ => None,
        }
    }
}

/// Configuration for an OverlayBD storage pool.
#[derive(Debug)]
pub struct OverlayBdPoolConfig {
    pub url: String,
}

impl OverlayBdPoolConfig {
    /// The registry URL, when the configuration holds it as a string.
    pub fn from_value(config: &JsonConfig) -> (r: Option<OverlayBdPoolConfig>)
        requires
            config_wf(*config),
        ensures
            r is Some <==> config_text(*config, "url"@) is Some,
            r matches Some(c) ==> c.url@ == config_text(*config, "url"@).unwrap(),
    {
        match config.get_str("url") {
            Some(url) => Some(OverlayBdPoolConfig { url }),
            None => None,
        }
    }
}

/// Configuration for a BLOCK (iSCSI) storage pool.
#[derive(Debug)]
pub struct BlockPoolConfig {
    /// iSCSI target portal (host:port).
    pub portal: String,
    /// Target IQN.
    pub iqn: String,
}

impl BlockPoolConfig {
    /// Portal and IQN, when the configuration holds both as strings.
    pub fn from_value(config: &JsonConfig) -> (r: Option<BlockPoolConfig>)
        requires
            config_wf(*config),
        ensures
            r is Some <==> (config_text(*config, "portal"@) is Some && config_text(*config, "iqn"@) is Some),
            r matches Some(c) ==> c.portal@ == config_text(*config, "portal"@).unwrap() && c.iqn@
                == config_text(*config, "iqn"@).unwrap(),
    {
        let portal = config.get_str("portal");
        let iqn = config.get_str("iqn");
        match (portal, iqn) {
            (Some(portal), Some(iqn)) => Some(BlockPoolConfig { portal, iqn }),
            _ => None,
        }
    }
}

// ---------------------------------------------------------------------------
// Transfers and backups
// ---------------------------------------------------------------------------

pub open spec fn starts_with(s: Seq<char>, prefix: Seq<char>) -> bool {
    s.len() >= prefix.len() && s.take(prefix.len() as int) == prefix
}

fn has_prefix(s: &str, prefix: &str) -> (r: bool)
    ensures
        r == starts_with(s@, prefix@),
{
    let v = crate::text::chars_of(s);
    let p = crate::text::chars_of(prefix);
    if v.len() < p.len() {
        return false;
    }
    let mut i: usize = 0;
    while i < p.len()
        invariant
            p.len() <= v.len(),
            v@ == s@,
            p@ == prefix@,
            i <= p.len(),
            forall|j: int| 0 <= j < i ==> v@[j] == p@[j],
        decreases p.len() - i,
    {
        if v[i] != p[i] {
            assert(s@.take(p.len() as int)[i as int] != prefix@[i as int]);
            return false;
        }
        i = i + 1;
    }
    assert(s@.take(p.len() as int) =~= prefix@);
    true
}

/// Infer the transfer type from the source string: HTTP(S) URLs are
/// downloaded, anything else is copied from a local path.
pub fn infer_transfer_type(source: &str) -> (r: crate::model::TransferType)
    ensures
        r is Download <==> (starts_with(source@, "http://"@) || starts_with(source@, "https://"@)),
        r is LocalCopy <==> !(starts_with(source@, "http://"@) || starts_with(source@, "https://"@)),
{
    if has_prefix(source, "http://") || has_prefix(source, "https://") {
        crate::model::TransferType::Download
    } else {
        crate::model::TransferType::LocalCopy
    }
}

/// Name of a database backup: the given one, else `database-backup-`
/// followed by the first 8 characters of a fresh random UUID.
pub fn database_backup_name(name: Option<&str>) -> (r: String)
    ensures
        name matches Some(n) ==> r@ == n@,
        name is None ==> exists|id: u128| r@ == "database-backup-"@ + uuid_text(id).take(8),
{
    match name {
        Some(n) => owned(n),
        None => {
            let id = random_uuid_text();
            let ghost u = choose|u: u128| id@ == uuid_text(u);
            proof {
                lemma_uuid_text_len(u);
            }
            let v = crate::text::chars_of(id.as_str());
            let mut r = owned("database-backup-");
            proof {
                reveal_strlit("database-backup-");
            }
            crate::text::push_chars(&mut r, &v, 0, 8);
            assert(r@ =~= "database-backup-"@ + uuid_text(u).take(8));
            r
        },
    }
}

// ---------------------------------------------------------------------------
// Creating disks
// ---------------------------------------------------------------------------

/// Why a disk cannot be created in a pool, if it cannot: a size of 0 or
/// less, no size and no source, a pool other than Local or NFS, an inactive
/// pool, or (for a blank disk) a size above the pool's free capacity.
pub open spec fn create_disk_error(
    size_bytes: Option<i64>,
    has_source: bool,
    pool: StoragePool,
) -> Option<Seq<char>> {
    if size_bytes matches Some(s) && s <= 0 {
        Some("size_bytes must be greater than 0"@)
    } else if size_bytes is None && !has_source {
        Some("size_bytes is required when source_url is not provided"@)
    } else if !(pool.pool_type is Local || pool.pool_type is Nfs) {
        Some("Disks can only be created in Local or NFS pools"@)
    } else if !(pool.status is Active) {
        Some("Storage pool is not active"@)
    } else if !has_source && pool.capacity_bytes is Some && pool.allocated_bytes is Some
        && size_bytes.unwrap() > pool.capacity_bytes.unwrap() - pool.allocated_bytes.unwrap() {
        Some(
            "Insufficient pool capacity: requested "@ + dec_int(size_bytes.unwrap() as int) + " bytes but only "@
                + dec_int(pool.capacity_bytes.unwrap() - pool.allocated_bytes.unwrap()) + " available"@,
        )
    } else {
        None
    }
}

/// A request to create a disk in a pool.
#[derive(Debug)]
pub struct CreateDiskRequest {
    /// Human-readable name for the resulting storage object.
    pub name: String,
    /// Logical size in bytes; required unless the disk is downloaded from
    /// `source_url`.
    pub size_bytes: Option<i64>,
    /// Where to download the disk's content from.
    pub source_url: Option<String>,
    /// Reserve the blocks up front instead of leaving the file sparse.
    pub preallocate: bool,
}

/// Checks a disk-creation request against its pool; on success gives the
/// size to record (0 until a download from `source_url` reports one).
pub fn plan_create_disk(req: &CreateDiskRequest, pool: &StoragePool) -> (r: Result<i64, Error>)
    requires
        pool.capacity_bytes matches Some(c) && pool.allocated_bytes matches Some(a) ==> i64::MIN <= c - a
            <= i64::MAX,
    ensures
        create_disk_error(req.size_bytes, req.source_url is Some, *pool) matches Some(m) ==> (r matches Err(e)
            && is_unprocessable(e, m)),
        create_disk_error(req.size_bytes, req.source_url is Some, *pool) is None ==> r == Ok::<i64, Error>(
            match req.size_bytes {
                Some(s) => s,
                None => 0,
            },
        ),
{
    let size_bytes = req.size_bytes;
    let has_source = req.source_url.is_some();
    let size = match size_bytes {
        Some(s) => {
            if s <= 0 {
                return Err(unprocessable("size_bytes must be greater than 0"));
            }
            s
        },
        None => {
            if !has_source {
                return Err(unprocessable("size_bytes is required when source_url is not provided"));
            }
            0
        },
    };
    match pool.pool_type {
        StoragePoolType::Local | StoragePoolType::Nfs => {},
        _ => {
            return Err(unprocessable("Disks can only be created in Local or NFS pools"));
        },
    }
    match pool.status {
        StoragePoolStatus::Active => {},
        _ => {
            return Err(unprocessable("Storage pool is not active"));
        },
    }
    if !has_source {
        if let (Some(capacity), Some(allocated)) = (pool.capacity_bytes, pool.allocated_bytes) {
            let available = capacity - allocated;
            if size > available {
                let mut m = owned("Insufficient pool capacity: requested ");
                push_i64(&mut m, size as i64);
                push_str(&mut m, " bytes but only ");
                push_i64(&mut m, available as i64);
                push_str(&mut m, " available");
                return Err(Error::UnprocessableEntity(m));
            }
        }
    }
    Ok(size)
}

/// Whether an object can back a VM's root disk (disk, snapshot or OCI image).
pub open spec fn is_disk_like(t: StorageObjectType) -> bool {
    t is Disk || t is Snapshot || t is OciImage
}

/// What scheduling needs of a root disk: the bytes it takes on the host
/// (never negative) and the pool the host must be attached to (none for
/// OverlayBD, whose images come from a registry). Objects that are not
/// disk-like are refused.
pub fn root_disk_requirements(object: &StorageObject, pool: &StoragePool) -> (r: Result<(i64, Option<u128>), Error>)
    ensures
        !is_disk_like(object.object_type) ==> (r matches Err(e) && is_unprocessable(e,
            "root_disk_object_id must reference a disk-like storage object"@)),
        is_disk_like(object.object_type) ==> (r matches Ok((bytes, pool_id)) && bytes == (if object.size_bytes
            > 0 {
            object.size_bytes
        } else {
            0
        }) && pool_id == (if pool.pool_type is OverlayBd {
            None::<u128>
        } else {
            Some(pool.id)
        })),
{
    match object.object_type {
        StorageObjectType::Disk | StorageObjectType::Snapshot | StorageObjectType::OciImage => {},
        _ => {
            return Err(unprocessable("root_disk_object_id must reference a disk-like storage object"));
        },
    }
    let pool_id = match pool.pool_type {
        StoragePoolType::OverlayBd => None,
        _ => Some(pool.id),
    };
    let bytes = if object.size_bytes > 0 {
        object.size_bytes
    } else {
        0
    };
    Ok((bytes, pool_id))
}

// ---------------------------------------------------------------------------
// New storage objects
// ---------------------------------------------------------------------------

/// Whether the configuration is an object holding `key`.
pub open spec fn has_key(c: JsonConfig, key: Seq<char>) -> bool {
    c.is_object && exists|i: int| 0 <= i < c.fields.len() && c.fields@[i].key@ == key
}

/// The integer value of field `key`, if the configuration is an object
/// holding that key with an integer value.
pub open spec fn config_number(c: JsonConfig, key: Seq<char>) -> Option<i64> {
    if has_key(c, key) {
        let i = choose|i: int| 0 <= i < c.fields.len() && c.fields@[i].key@ == key;
        c.fields@[i].number
    } else {
        None
    }
}

/// A configuration object with exactly these fields: key, string text,
/// integer value.
pub open spec fn config_is(c: JsonConfig, fields: Seq<(Seq<char>, Option<Seq<char>>, Option<i64>)>) -> bool {
    &&& c.is_object
    &&& c.fields.len() == fields.len()
    &&& forall|i: int|
        0 <= i < fields.len() ==> {
            &&& (#[trigger] c.fields@[i]).key@ == fields[i].0
            &&& match c.fields@[i].text {
                Some(t) => fields[i].1 == Some(t@),
                None => fields[i].1 is None,
            }
            &&& c.fields@[i].number == fields[i].2
        }
}

impl JsonConfig {
    /// Whether the configuration is an object holding `key` (`config.get(key).is_some()`).
    pub fn has(&self, key: &str) -> (r: bool)
        ensures
            r == has_key(*self, key@),
    {
        if !self.is_object {
            return false;
        }
        for i in 0..self.fields.len()
            invariant
                self.is_object,
                forall|j: int| 0 <= j < i ==> self.fields@[j].key@ != key@,
        {
            if str_eq(self.fields[i].key.as_str(), key) {
                return true;
            }
        }
        false
    }

    /// The integer value of field `key` (`config.get(key).and_then(as_i64)`).
    pub fn get_i64(&self, key: &str) -> (r: Option<i64>)
        requires
            config_wf(*self),
        ensures
            r == config_number(*self, key@),
    {
        if !self.is_object {
            return None;
        }
        let mut i: usize = 0;
        while i < self.fields.len()
            invariant
                i <= self.fields.len(),
                self.is_object,
                config_wf(*self),
                forall|j: int| 0 <= j < i ==> self.fields@[j].key@ != key@,
            decreases self.fields.len() - i,
        {
            if str_eq(self.fields[i].key.as_str(), key) {
                let ghost k = choose|k: int| 0 <= k < self.fields.len() && self.fields@[k].key@ == key@;
                assert(k == i as int) by {
                    if k < i {
                    } else if k > i {
                        assert(self.fields@[i as int].key@ != self.fields@[k].key@);
                    }
                }
                return self.fields[i].number;
            }
            i = i + 1;
        }
        None
    }
}

fn text_field(key: &str, text: String) -> (f: ConfigField)
    ensures
        f.key@ == key@,
        f.text matches Some(t) && t@ == text@,
        f.number is None,
{
    ConfigField { key: owned(key), text: Some(text), number: None }
}

/// A storage object to be created; without a pool, the active pool is used.
#[derive(Debug)]
pub struct NewStorageObject {
    pub name: String,
    pub storage_pool_id: Option<u128>,
    pub object_type: StorageObjectType,
    pub size_bytes: i64,
    pub config: JsonConfig,
    pub parent_id: Option<u128>,
}

/// Where a new object `id` of a pool lives on the node: under a local
/// pool's `path`, or under the NFS pool's mount directory.
pub open spec fn object_base(pool: StoragePool, pool_id: u128, id: u128) -> Option<Seq<char>> {
    match pool.pool_type {
        StoragePoolType::Local => match config_text(pool.config, "path"@) {
            Some(base) => Some(base + "/"@ + uuid_text(id)),
            None => None,
        },
        StoragePoolType::Nfs => Some("/var/lib/qarax/pools/"@ + uuid_text(pool_id) + "/"@ + uuid_text(id)),
        _ => None,
    }
}

pub open spec fn or_empty_text(o: Option<Seq<char>>) -> Seq<char> {
    match o {
        Some(t) => t,
        None => Seq::empty(),
    }
}

/// The configuration derived for a new object `id` in pool `pool_id`
/// (`pool`, when it could be read), or none when the caller's is kept: an
/// OverlayBD upper layer without paths gets its `upper_data` and
/// `upper_index` files, a disk, snapshot or database backup without path or
/// LUN gets its file (`.dump` for a backup), and a block disk with a LUN
/// gets the pool's portal and IQN.
pub open spec fn derived_object_config(
    object_type: StorageObjectType,
    config: JsonConfig,
    pool: Option<StoragePool>,
    pool_id: u128,
    id: u128,
) -> Option<Seq<(Seq<char>, Option<Seq<char>>, Option<i64>)>> {
    if object_type is OverlaybdUpper && !has_key(config, "upper_data"@) {
        match pool {
            Some(p) => match object_base(p, pool_id, id) {
                Some(base) => Some(
                    seq![
                        ("upper_data"@, Some(base + ".upper.data"@), None),
                        ("upper_index"@, Some(base + ".upper.index"@), None),
                    ],
                ),
                None => None,
            },
            None => None,
        }
    } else if (object_type is Disk || object_type is Snapshot || object_type is DatabaseBackup) && !has_key(
        config,
        "path"@,
    ) && !has_key(config, "lun"@) {
        match pool {
            Some(p) => match object_base(p, pool_id, id) {
                Some(base) => Some(
                    seq![
                        ("path"@, Some(base + if object_type is DatabaseBackup {
                            ".dump"@
                        } else {
                            Seq::empty()
                        }), None),
                    ],
                ),
                None => None,
            },
            None => None,
        }
    } else if object_type is Disk && has_key(config, "lun"@) {
        match pool {
            Some(p) => if p.pool_type is Block {
                Some(
                    seq![
                        ("portal"@, Some(or_empty_text(config_text(p.config, "portal"@))), None),
                        ("iqn"@, Some(or_empty_text(config_text(p.config, "iqn"@))), None),
                        ("lun"@, None, Some(match config_number(config, "lun"@) {
                            Some(n) => n,
                            None => 0,
                        })),
                    ],
                )
            } else {
                None
            },
            None => None,
        }
    } else {
        None
    }
}

fn base_path(pool: &StoragePool, pool_id: u128, id: u128) -> (r: Option<String>)
    requires
        config_wf(pool.config),
    ensures
        match r {
            Some(s) => object_base(*pool, pool_id, id) == Some(s@),
            None => object_base(*pool, pool_id, id) is None,
        },
{
    match pool.pool_type {
        StoragePoolType::Local => match pool.config.get_str("path") {
            Some(base) => {
                let mut b = base;
                push_str(&mut b, "/");
                let t = uuid_string(id);
                push_str(&mut b, t.as_str());
                Some(b)
            },
            None => None,
        },
        StoragePoolType::Nfs => {
            let mut b = owned("/var/lib/qarax/pools/");
            let p = uuid_string(pool_id);
            push_str(&mut b, p.as_str());
            push_str(&mut b, "/");
            let t = uuid_string(id);
            push_str(&mut b, t.as_str());
            Some(b)
        },
        _ => None,
    }
}

/// The configuration a new object `id` in pool `pool_id` is stored with:
/// derived from the pool where `derived_object_config` says so, none when
/// the caller's is kept.
pub fn resolve_new_object(
    object_type: StorageObjectType,
    config: &JsonConfig,
    pool: Option<&StoragePool>,
    pool_id: u128,
    id: u128,
) -> (r: Option<JsonConfig>)
    requires
        config_wf(*config),
        pool matches Some(p) ==> config_wf(p.config),
    ensures
        match derived_object_config(object_type, *config, match pool {
            Some(p) => Some(*p),
            None => None,
        }, pool_id, id) {
            Some(fields) => r matches Some(c) && config_is(c, fields),
            None => r is None,
        },
{
    let upper = match object_type {
        StorageObjectType::OverlaybdUpper => true,
        _ => false,
    };
    let file_like = match object_type {
        StorageObjectType::Disk | StorageObjectType::Snapshot | StorageObjectType::DatabaseBackup => true,
        _ => false,
    };
    let backup = match object_type {
        StorageObjectType::DatabaseBackup => true,
        _ => false,
    };
    let disk = match object_type {
        StorageObjectType::Disk => true,
        _ => false,
    };
    if upper && !config.has("upper_data") {
        let p = match pool {
            Some(p) => p,
            None => {
                return None;
            },
        };
        let base = match base_path(p, pool_id, id) {
            Some(b) => b,
            None => {
                return None;
            },
        };
        let mut data = base.clone();
        push_str(&mut data, ".upper.data");
        let mut index = base;
        push_str(&mut index, ".upper.index");
        let mut fields: Vec<ConfigField> = Vec::new();
        fields.push(text_field("upper_data", data));
        fields.push(text_field("upper_index", index));
        return Some(JsonConfig { is_object: true, fields });
    }
    if file_like && !config.has("path") && !config.has("lun") {
        let p = match pool {
            Some(p) => p,
            None => {
                return None;
            },
        };
        let base = match base_path(p, pool_id, id) {
            Some(b) => b,
            None => {
                return None;
            },
        };
        let mut path = base;
        if backup {
            push_str(&mut path, ".dump");
        } else {
            assert(path@ =~= path@ + Seq::<char>::empty());
        }
        let mut fields: Vec<ConfigField> = Vec::new();
        fields.push(text_field("path", path));
        return Some(JsonConfig { is_object: true, fields });
    }
    if disk && config.has("lun") {
        let p = match pool {
            Some(p) => p,
            None => {
                return None;
            },
        };
        match p.pool_type {
            StoragePoolType::Block => {},
            _ => {
                return None;
            },
        }
        let portal = match p.config.get_str("portal") {
            Some(t) => t,
            None => String::new(),
        };
        let iqn = match p.config.get_str("iqn") {
            Some(t) => t,
            None => String::new(),
        };
        let lun = match config.get_i64("lun") {
            Some(n) => n,
            None => 0,
        };
        let mut fields: Vec<ConfigField> = Vec::new();
        fields.push(text_field("portal", portal));
        fields.push(text_field("iqn", iqn));
        fields.push(ConfigField { key: owned("lun"), text: None, number: Some(lun) });
        return Some(JsonConfig { is_object: true, fields });
    }
    None
}

// ---------------------------------------------------------------------------
// Creating a disk after its checks
// ---------------------------------------------------------------------------

/// The storage object recorded for a new disk: of type Disk, in its pool,
/// with the planned size and an empty JSON object as its configuration (the
/// path is derived from the pool).
pub fn disk_object(req: &CreateDiskRequest, pool_id: u128, size_bytes: i64) -> (o: NewStorageObject)
    ensures
        o.name@ == req.name@,
        o.storage_pool_id == Some(pool_id),
        o.object_type is Disk,
        o.size_bytes == size_bytes,
        o.config.is_object,
        o.config.fields.len() == 0,
        o.parent_id is None,
{
    NewStorageObject {
        name: req.name.clone(),
        storage_pool_id: Some(pool_id),
        object_type: StorageObjectType::Disk,
        size_bytes,
        config: JsonConfig { is_object: true, fields: Vec::new() },
        parent_id: None,
    }
}

/// Where the node writes a new disk: the recorded object's `path`; an
/// object without one is an internal error.
pub fn disk_destination(object_config: &JsonConfig) -> (r: Result<String, Error>)
    requires
        config_wf(*object_config),
    ensures
        config_text(*object_config, "path"@) matches Some(p) ==> (r matches Ok(s) && s@ == p),
        config_text(*object_config, "path"@) is None ==> (r matches Err(e) && e is InternalServerError),
{
    match get_path_from_config(object_config) {
        Some(p) => Ok(p),
        None => Err(Error::InternalServerError),
    }
}

/// The description of the job that downloads a disk.
pub fn disk_download_description(name: &str, source_url: &str) -> (r: String)
    ensures
        r@ == "Creating disk "@ + name@ + " from "@ + source_url@,
{
    let mut r = owned("Creating disk ");
    push_str(&mut r, name);
    push_str(&mut r, " from ");
    push_str(&mut r, source_url);
    r
}

/// The answer to a disk creation: its HTTP status, the object, and the job
/// when the disk is downloaded in the background.
#[derive(Debug)]
pub struct CreateDiskAnswer {
    pub status: u16,
    pub storage_object_id: u128,
    pub job_id: Option<u128>,
}

/// A disk downloaded from a URL is answered at once: 202 with its job.
pub fn disk_download_accepted(storage_object_id: u128, job_id: u128) -> (r: CreateDiskAnswer)
    ensures
        r.status == 202,
        r.storage_object_id == storage_object_id,
        r.job_id == Some(job_id),
{
    CreateDiskAnswer { status: 202, storage_object_id, job_id: Some(job_id) }
}

/// A blank disk is created by the node before the answer: 201 when it was,
/// otherwise the object is deleted (the second part: the object to delete)
/// and the node's error is answered.
pub fn blank_disk_outcome(storage_object_id: u128, node: Result<(), String>) -> (r: (
    Result<CreateDiskAnswer, Error>,
    Option<u128>,
))
    ensures
        node is Ok ==> (r.0 matches Ok(a) && a.status == 201 && a.storage_object_id == storage_object_id
            && a.job_id is None) && r.1 is None,
        node matches Err(e) ==> (r.0 matches Err(x) && is_unprocessable(x, "Failed to create disk on node: "@ + e@))
            && r.1 == Some(storage_object_id),
{
    match node {
        Ok(()) => (Ok(CreateDiskAnswer { status: 201, storage_object_id, job_id: None }), None),
        Err(e) => {
            let mut m = owned("Failed to create disk on node: ");
            push_str(&mut m, e.as_str());
            (Err(Error::UnprocessableEntity(m)), Some(storage_object_id))
        },
    }
}

/// A follow-up of a disk download, performed in order.
#[derive(Debug)]
pub enum DiskDownloadEffect {
    /// Record the object's size.
    SetObjectSize(i64),
    /// Mark the job completed with `{"storage_object_id", "bytes_written"}`.
    MarkCompleted { storage_object_id: u128, bytes_written: i64 },
    MarkFailed(String),
    DeleteObject(u128),
}

/// What follows the node's download of a disk: the size it wrote is
/// recorded and the job completed; or the job fails and the object is
/// deleted.
pub fn disk_download_outcome(storage_object_id: u128, node: Result<i64, String>) -> (r: Vec<DiskDownloadEffect>)
    ensures
        node matches Ok(n) ==> r.len() == 2 && r@[0] == DiskDownloadEffect::SetObjectSize(n) && r@[1]
            == (DiskDownloadEffect::MarkCompleted { storage_object_id, bytes_written: n }),
        node matches Err(e) ==> r.len() == 2 && (r@[0] matches DiskDownloadEffect::MarkFailed(m) && m@
            == "Disk creation failed: "@ + e@) && r@[1] == DiskDownloadEffect::DeleteObject(storage_object_id),
{
    match node {
        Ok(n) => vec![
            DiskDownloadEffect::SetObjectSize(n),
            DiskDownloadEffect::MarkCompleted { storage_object_id, bytes_written: n },
        ],
        Err(e) => {
            let mut m = owned("Disk creation failed: ");
            push_str(&mut m, e.as_str());
            vec![DiskDownloadEffect::MarkFailed(m), DiskDownloadEffect::DeleteObject(storage_object_id)]
        },
    }
}

} // verus!
