use qarax::backup::{
    check_backup_request, check_backup_restorable, database_dump_path, maintenance_url, pg_dump_args,
    pg_restore_args, vm_restore_target,
};
use qarax::config::DatabaseSettings;
use qarax::errors::Error;
use qarax::model::{BackupStatus, BackupType};
use qarax::storage::{ConfigField, JsonConfig};

fn db() -> DatabaseSettings {
    DatabaseSettings {
        username: "qarax".to_string(),
        password: "pw".to_string(),
        port: 5432,
        host: "db".to_string(),
        name: "qarax".to_string(),
        max_connections: 10,
    }
}

fn refusal<T: std::fmt::Debug>(r: Result<T, Error>) -> String {
    match r {
        Err(Error::UnprocessableEntity(m)) => m,
        other => panic!("unexpected {:?}", other),
    }
}

#[test]
fn backup_requests_and_restores() {
    assert_eq!(refusal(check_backup_request(BackupType::Vm, None)), "vm_id is required when backup_type is vm");
    assert_eq!(check_backup_request(BackupType::Vm, Some(4)).unwrap(), Some(4));
    assert_eq!(
        refusal(check_backup_request(BackupType::Database, Some(4))),
        "vm_id is not supported when backup_type is database"
    );
    assert_eq!(check_backup_request(BackupType::Database, None).unwrap(), None);
    assert_eq!(refusal(check_backup_restorable(BackupStatus::Creating)), "backup is not in ready state");
    assert!(check_backup_restorable(BackupStatus::Ready).is_ok());
    assert_eq!(vm_restore_target(Some(1), Some(2)).unwrap(), (1, 2));
    assert!(matches!(vm_restore_target(Some(1), None), Err(Error::InternalServerError)));
}

#[test]
fn database_dump_location() {
    let with_path = JsonConfig {
        is_object: true,
        fields: vec![ConfigField { key: "path".to_string(), text: Some("/srv/pool".to_string()), number: None }],
    };
    let p = database_dump_path(&with_path).unwrap();
    assert!(p.starts_with("/srv/pool/") && p.ends_with(".dump"));
    assert_eq!(p.len(), "/srv/pool/".len() + 36 + ".dump".len());
    let without = JsonConfig { is_object: true, fields: vec![] };
    assert_eq!(refusal(database_dump_path(&without)), "selected storage pool is missing a writable local path");
}

#[test]
fn pg_command_lines() {
    assert_eq!(
        pg_dump_args(&db(), "/srv/pool/x.dump"),
        vec![
            "--host", "db", "--port", "5432", "--username", "qarax", "--dbname", "qarax", "--format=custom",
            "--no-owner", "--no-privileges", "--file", "/srv/pool/x.dump",
        ]
    );
    assert_eq!(
        pg_restore_args(&db(), "/d"),
        vec![
            "--host", "db", "--port", "5432", "--username", "qarax", "--dbname", "qarax", "--clean", "--if-exists",
            "--no-owner", "--no-privileges", "--single-transaction", "--exit-on-error", "/d",
        ]
    );
    assert_eq!(maintenance_url(&db()), "postgres://qarax:pw@db:5432/postgres");
}
