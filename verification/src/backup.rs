//! Backups: which requests are accepted, where a database dump is written,
//! and the command lines of `pg_dump` and `pg_restore`.
use vstd::prelude::*;

use crate::config::DatabaseSettings;
use crate::errors::{is_unprocessable, unprocessable, Error};
use crate::ids::{random_uuid_text, uuid_text};
use crate::model::{BackupStatus, BackupType};
use crate::storage::{config_text, config_wf, get_path_from_config, JsonConfig};
use crate::text::{dec, owned, push_str, u64_to_string, views};

verus! {

/// Checks a backup request: a VM backup names its VM, a database backup
/// names none. Gives the VM of a VM backup.
pub fn check_backup_request(backup_type: BackupType, vm_id: Option<u128>) -> (r: Result<Option<u128>, Error>)
    ensures
        backup_type is Vm && vm_id is None ==> (r matches Err(e) && is_unprocessable(
            e,
            "vm_id is required when backup_type is vm"@,
        )),
        backup_type is Vm && vm_id is Some ==> r == Ok::<Option<u128>, Error>(vm_id),
        backup_type is Database && vm_id is Some ==> (r matches Err(e) && is_unprocessable(
            e,
            "vm_id is not supported when backup_type is database"@,
        )),
        backup_type is Database && vm_id is None ==> r == Ok::<Option<u128>, Error>(None),
{
    match backup_type {
        BackupType::Vm => match vm_id {
            Some(id) => Ok(Some(id)),
            None => Err(unprocessable("vm_id is required when backup_type is vm")),
        },
        BackupType::Database => match vm_id {
            Some(_) => Err(unprocessable("vm_id is not supported when backup_type is database")),
            None => Ok(None),
        },
    }
}

/// Only a ready backup can be restored.
pub fn check_backup_restorable(status: BackupStatus) -> (r: Result<(), Error>)
    ensures
        status is Ready ==> r is Ok,
        !(status is Ready) ==> (r matches Err(e) && is_unprocessable(e, "backup is not in ready state"@)),
{
    match status {
        BackupStatus::Ready => Ok(()),
        _ => Err(unprocessable("backup is not in ready state")),
    }
}

/// The VM and snapshot a VM backup restores; a backup missing either is an
/// internal error.
pub fn vm_restore_target(vm_id: Option<u128>, snapshot_id: Option<u128>) -> (r: Result<(u128, u128), Error>)
    ensures
        (vm_id is Some && snapshot_id is Some) ==> r == Ok::<(u128, u128), Error>(
            (vm_id.unwrap(), snapshot_id.unwrap()),
        ),
        !(vm_id is Some && snapshot_id is Some) ==> (r matches Err(e) && e is InternalServerError),
{
    match (vm_id, snapshot_id) {
        (Some(v), Some(s)) => Ok((v, s)),
        _ => Err(Error::InternalServerError),
    }
}

/// Where a database dump is written: under the pool's `path`, in a file
/// named by a fresh random UUID. Refused when the pool's configuration
/// names no path.
pub fn database_dump_path(pool_config: &JsonConfig) -> (r: Result<String, Error>)
    requires
        config_wf(*pool_config),
    ensures
        config_text(*pool_config, "path"@) is None ==> (r matches Err(e) && is_unprocessable(
            e,
            "selected storage pool is missing a writable local path"@,
        )),
        config_text(*pool_config, "path"@) matches Some(base) ==> (r matches Ok(p) && exists|id: u128|
            p@ == base + "/"@ + uuid_text(id) + ".dump"@),
{
    match get_path_from_config(pool_config) {
        None => Err(unprocessable("selected storage pool is missing a writable local path")),
        Some(base) => {
            let mut p = base;
            push_str(&mut p, "/");
            let id = random_uuid_text();
            push_str(&mut p, id.as_str());
            push_str(&mut p, ".dump");
            Ok(p)
        },
    }
}

/// The arguments that point a PostgreSQL client at the database; the
/// password goes in `PGPASSWORD`.
pub open spec fn pg_connection_args(db: DatabaseSettings) -> Seq<Seq<char>> {
    seq![
        "--host"@,
        db.host@,
        "--port"@,
        dec(db.port as nat),
        "--username"@,
        db.username@,
        "--dbname"@,
        db.name@,
    ]
}

fn connection_args(db: &DatabaseSettings) -> (r: Vec<String>)
    ensures
        views(r@) == pg_connection_args(*db),
{
    let r = vec![
        owned("--host"),
        db.host.clone(),
        owned("--port"),
        u64_to_string(db.port as u64),
        owned("--username"),
        db.username.clone(),
        owned("--dbname"),
        db.name.clone(),
    ];
    assert(views(r@) =~= pg_connection_args(*db));
    r
}

/// The arguments of `pg_dump` writing a custom-format dump to `path`,
/// without owners or privileges.
pub fn pg_dump_args(db: &DatabaseSettings, path: &str) -> (r: Vec<String>)
    ensures
        views(r@) == pg_connection_args(*db) + seq![
            "--format=custom"@,
            "--no-owner"@,
            "--no-privileges"@,
            "--file"@,
            path@,
        ],
{
    let mut r = connection_args(db);
    let mut rest = vec![
        owned("--format=custom"),
        owned("--no-owner"),
        owned("--no-privileges"),
        owned("--file"),
        owned(path),
    ];
    let ghost a = r@;
    let ghost b = rest@;
    r.append(&mut rest);
    assert(views(r@) =~= views(a) + views(b));
    r
}

/// The arguments of `pg_restore` replacing the database's objects with the
/// dump at `path` in one transaction, stopping at the first error.
pub fn pg_restore_args(db: &DatabaseSettings, path: &str) -> (r: Vec<String>)
    ensures
        views(r@) == pg_connection_args(*db) + seq![
            "--clean"@,
            "--if-exists"@,
            "--no-owner"@,
            "--no-privileges"@,
            "--single-transaction"@,
            "--exit-on-error"@,
            path@,
        ],
{
    let mut r = connection_args(db);
    let mut rest = vec![
        owned("--clean"),
        owned("--if-exists"),
        owned("--no-owner"),
        owned("--no-privileges"),
        owned("--single-transaction"),
        owned("--exit-on-error"),
        owned(path),
    ];
    let ghost a = r@;
    let ghost b = rest@;
    r.append(&mut rest);
    assert(views(r@) =~= views(a) + views(b));
    r
}

/// Where the sessions of the database are ended before a restore: the
/// server's `postgres` database.
pub fn maintenance_url(db: &DatabaseSettings) -> (r: String)
    ensures
        r@ == db.server_url() + "/postgres"@,
{
    let mut r = db.connection_string_without_db();
    push_str(&mut r, "/postgres");
    r
}

} // verus!
