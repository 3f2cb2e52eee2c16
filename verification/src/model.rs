//! The status and kind enumerations of the data model, with the snake_case
//! names they are stored, printed and parsed under.
use vstd::prelude::*;

use crate::text::str_eq;

verus! {
/// Lifecycle state of a hypervisor host.
#[derive(Debug, Clone, Copy, PartialEq, Eq, Structural)]
pub enum HostStatus {
    Unknown,
    Down,
    Installing,
    InstallationFailed,
    Initializing,
    Up,
    Maintenance,
}

impl HostStatus {
    /// The snake_case name of the value.
    pub open spec fn name(self) -> Seq<char> {
        match self {
            HostStatus::Unknown => "unknown"@,
            HostStatus::Down => "down"@,
            HostStatus::Installing => "installing"@,
            HostStatus::InstallationFailed => "installation_failed"@,
            HostStatus::Initializing => "initializing"@,
            HostStatus::Up => "up"@,
            HostStatus::Maintenance => "maintenance"@,
        }
    }

    /// The snake_case name the value is printed as.
    pub fn as_str(&self) -> (r: &'static str)
        ensures
            r@ == self.name(),
    {
        match self {
            HostStatus::Unknown => "unknown",
            HostStatus::Down => "down",
            HostStatus::Installing => "installing",
            HostStatus::InstallationFailed => "installation_failed",
            HostStatus::Initializing => "initializing",
            HostStatus::Up => "up",
            HostStatus::Maintenance => "maintenance",
        }
    }

    /// The value whose snake_case name is `s`, if any.
    pub fn parse(s: &str) -> (r: Option<HostStatus>)
        ensures
            r matches Some(v) ==> v.name() == s@,
            r is None ==> forall|v: HostStatus| v.name() != s@,
    {
        if str_eq(s, "unknown") {
            return Some(HostStatus::Unknown);
        }
        if str_eq(s, "down") {
            return Some(HostStatus::Down);
        }
        if str_eq(s, "installing") {
            return Some(HostStatus::Installing);
        }
        if str_eq(s, "installation_failed") {
            return Some(HostStatus::InstallationFailed);
        }
        if str_eq(s, "initializing") {
            return Some(HostStatus::Initializing);
        }
        if str_eq(s, "up") {
            return Some(HostStatus::Up);
        }
        if str_eq(s, "maintenance") {
            return Some(HostStatus::Maintenance);
        }
        proof {
            assert forall|v: HostStatus| v.name() != s@ by {
                match v {
                    HostStatus::Unknown => {},
                    HostStatus::Down => {},
                    HostStatus::Installing => {},
                    HostStatus::InstallationFailed => {},
                    HostStatus::Initializing => {},
                    HostStatus::Up => {},
                    HostStatus::Maintenance => {},
                }
            }
        }
        None
    }
}

/// Lifecycle state of a VM.
#[derive(Debug, Clone, Copy, PartialEq, Eq, Structural)]
pub enum VmStatus {
    Unknown,
    Pending,
    Created,
    Running,
    Paused,
    Shutdown,
    Migrating,
    Committing,
}

impl VmStatus {
    /// The snake_case name of the value.
    pub open spec fn name(self) -> Seq<char> {
        match self {
            VmStatus::Unknown => "unknown"@,
            VmStatus::Pending => "pending"@,
            VmStatus::Created => "created"@,
            VmStatus::Running => "running"@,
            VmStatus::Paused => "paused"@,
            VmStatus::Shutdown => "shutdown"@,
            VmStatus::Migrating => "migrating"@,
            VmStatus::Committing => "committing"@,
        }
    }

    /// The snake_case name the value is printed as.
    pub fn as_str(&self) -> (r: &'static str)
        ensures
            r@ == self.name(),
    {
        match self {
            VmStatus::Unknown => "unknown",
            VmStatus::Pending => "pending",
            VmStatus::Created => "created",
            VmStatus::Running => "running",
            VmStatus::Paused => "paused",
            VmStatus::Shutdown => "shutdown",
            VmStatus::Migrating => "migrating",
            VmStatus::Committing => "committing",
        }
    }

    /// The value whose snake_case name is `s`, if any.
    pub fn parse(s: &str) -> (r: Option<VmStatus>)
        ensures
            r matches Some(v) ==> v.name() == s@,
            r is None ==> forall|v: VmStatus| v.name() != s@,
    {
        if str_eq(s, "unknown") {
            return Some(VmStatus::Unknown);
        }
        if str_eq(s, "pending") {
            return Some(VmStatus::Pending);
        }
        if str_eq(s, "created") {
            return Some(VmStatus::Created);
        }
        if str_eq(s, "running") {
            return Some(VmStatus::Running);
        }
        if str_eq(s, "paused") {
            return Some(VmStatus::Paused);
        }
        if str_eq(s, "shutdown") {
            return Some(VmStatus::Shutdown);
        }
        if str_eq(s, "migrating") {
            return Some(VmStatus::Migrating);
        }
        if str_eq(s, "committing") {
            return Some(VmStatus::Committing);
        }
        proof {
            assert forall|v: VmStatus| v.name() != s@ by {
                match v {
                    VmStatus::Unknown => {},
                    VmStatus::Pending => {},
                    VmStatus::Created => {},
                    VmStatus::Running => {},
                    VmStatus::Paused => {},
                    VmStatus::Shutdown => {},
                    VmStatus::Migrating => {},
                    VmStatus::Committing => {},
                }
            }
        }
        None
    }
}

/// Hypervisor that runs a VM.
#[derive(Debug, Clone, Copy, PartialEq, Eq, Structural)]
pub enum Hypervisor {
    CloudHv,
    Firecracker,
}

impl Hypervisor {
    /// The snake_case name of the value.
    pub open spec fn name(self) -> Seq<char> {
        match self {
            Hypervisor::CloudHv => "cloud_hv"@,
            Hypervisor::Firecracker => "firecracker"@,
        }
    }

    /// The snake_case name the value is printed as.
    pub fn as_str(&self) -> (r: &'static str)
        ensures
            r@ == self.name(),
    {
        match self {
            Hypervisor::CloudHv => "cloud_hv",
            Hypervisor::Firecracker => "firecracker",
        }
    }

    /// The value whose snake_case name is `s`, if any.
    pub fn parse(s: &str) -> (r: Option<Hypervisor>)
        ensures
            r matches Some(v) ==> v.name() == s@,
            r is None ==> forall|v: Hypervisor| v.name() != s@,
    {
        if str_eq(s, "cloud_hv") {
            return Some(Hypervisor::CloudHv);
        }
        if str_eq(s, "firecracker") {
            return Some(Hypervisor::Firecracker);
        }
        proof {
            assert forall|v: Hypervisor| v.name() != s@ by {
                match v {
                    Hypervisor::CloudHv => {},
                    Hypervisor::Firecracker => {},
                }
            }
        }
        None
    }
}

/// How a VM boots: direct kernel boot or firmware.
#[derive(Debug, Clone, Copy, PartialEq, Eq, Structural)]
pub enum BootMode {
    Kernel,
    Firmware,
}

impl BootMode {
    /// The snake_case name of the value.
    pub open spec fn name(self) -> Seq<char> {
        match self {
            BootMode::Kernel => "kernel"@,
            BootMode::Firmware => "firmware"@,
        }
    }

    /// The snake_case name the value is printed as.
    pub fn as_str(&self) -> (r: &'static str)
        ensures
            r@ == self.name(),
    {
        match self {
            BootMode::Kernel => "kernel",
            BootMode::Firmware => "firmware",
        }
    }

    /// The value whose snake_case name is `s`, if any.
    pub fn parse(s: &str) -> (r: Option<BootMode>)
        ensures
            r matches Some(v) ==> v.name() == s@,
            r is None ==> forall|v: BootMode| v.name() != s@,
    {
        if str_eq(s, "kernel") {
            return Some(BootMode::Kernel);
        }
        if str_eq(s, "firmware") {
            return Some(BootMode::Firmware);
        }
        proof {
            assert forall|v: BootMode| v.name() != s@ by {
                match v {
                    BootMode::Kernel => {},
                    BootMode::Firmware => {},
                }
            }
        }
        None
    }
}

/// Kind of backing store a storage pool uses.
#[derive(Debug, Clone, Copy, PartialEq, Eq, Structural)]
pub enum StoragePoolType {
    Local,
    Nfs,
    OverlayBd,
    Block,
}

impl StoragePoolType {
    /// The snake_case name of the value.
    pub open spec fn name(self) -> Seq<char> {
        match self {
            StoragePoolType::Local => "local"@,
            StoragePoolType::Nfs => "nfs"@,
            StoragePoolType::OverlayBd => "overlay_bd"@,
            StoragePoolType::Block => "block"@,
        }
    }

    /// The snake_case name the value is printed as.
    pub fn as_str(&self) -> (r: &'static str)
        ensures
            r@ == self.name(),
    {
        match self {
            StoragePoolType::Local => "local",
            StoragePoolType::Nfs => "nfs",
            StoragePoolType::OverlayBd => "overlay_bd",
            StoragePoolType::Block => "block",
        }
    }

    /// The value whose snake_case name is `s`, if any.
    pub fn parse(s: &str) -> (r: Option<StoragePoolType>)
        ensures
            r matches Some(v) ==> v.name() == s@,
            r is None ==> forall|v: StoragePoolType| v.name() != s@,
    {
        if str_eq(s, "local") {
            return Some(StoragePoolType::Local);
        }
        if str_eq(s, "nfs") {
            return Some(StoragePoolType::Nfs);
        }
        if str_eq(s, "overlay_bd") {
            return Some(StoragePoolType::OverlayBd);
        }
        if str_eq(s, "block") {
            return Some(StoragePoolType::Block);
        }
        proof {
            assert forall|v: StoragePoolType| v.name() != s@ by {
                match v {
                    StoragePoolType::Local => {},
                    StoragePoolType::Nfs => {},
                    StoragePoolType::OverlayBd => {},
                    StoragePoolType::Block => {},
                }
            }
        }
        None
    }
}

/// State of a storage pool.
#[derive(Debug, Clone, Copy, PartialEq, Eq, Structural)]
pub enum StoragePoolStatus {
    Active,
    Inactive,
    Error,
}

impl StoragePoolStatus {
    /// The snake_case name of the value.
    pub open spec fn name(self) -> Seq<char> {
        match self {
            StoragePoolStatus::Active => "active"@,
            StoragePoolStatus::Inactive => "inactive"@,
            StoragePoolStatus::Error => "error"@,
        }
    }

    /// The snake_case name the value is printed as.
    pub fn as_str(&self) -> (r: &'static str)
        ensures
            r@ == self.name(),
    {
        match self {
            StoragePoolStatus::Active => "active",
            StoragePoolStatus::Inactive => "inactive",
            StoragePoolStatus::Error => "error",
        }
    }

    /// The value whose snake_case name is `s`, if any.
    pub fn parse(s: &str) -> (r: Option<StoragePoolStatus>)
        ensures
            r matches Some(v) ==> v.name() == s@,
            r is None ==> forall|v: StoragePoolStatus| v.name() != s@,
    {
        if str_eq(s, "active") {
            return Some(StoragePoolStatus::Active);
        }
        if str_eq(s, "inactive") {
            return Some(StoragePoolStatus::Inactive);
        }
        if str_eq(s, "error") {
            return Some(StoragePoolStatus::Error);
        }
        proof {
            assert forall|v: StoragePoolStatus| v.name() != s@ by {
                match v {
                    StoragePoolStatus::Active => {},
                    StoragePoolStatus::Inactive => {},
                    StoragePoolStatus::Error => {},
                }
            }
        }
        None
    }
}

/// Kind of object kept in a storage pool.
#[derive(Debug, Clone, Copy, PartialEq, Eq, Structural)]
pub enum StorageObjectType {
    Disk,
    Kernel,
    Initrd,
    Iso,
    Snapshot,
    DatabaseBackup,
    OciImage,
    OverlaybdUpper,
}

impl StorageObjectType {
    /// The snake_case name of the value.
    pub open spec fn name(self) -> Seq<char> {
        match self {
            StorageObjectType::Disk => "disk"@,
            StorageObjectType::Kernel => "kernel"@,
            StorageObjectType::Initrd => "initrd"@,
            StorageObjectType::Iso => "iso"@,
            StorageObjectType::Snapshot => "snapshot"@,
            StorageObjectType::DatabaseBackup => "database_backup"@,
            StorageObjectType::OciImage => "oci_image"@,
            StorageObjectType::OverlaybdUpper => "overlaybd_upper"@,
        }
    }

    /// The snake_case name the value is printed as.
    pub fn as_str(&self) -> (r: &'static str)
        ensures
            r@ == self.name(),
    {
        match self {
            StorageObjectType::Disk => "disk",
            StorageObjectType::Kernel => "kernel",
            StorageObjectType::Initrd => "initrd",
            StorageObjectType::Iso => "iso",
            StorageObjectType::Snapshot => "snapshot",
            StorageObjectType::DatabaseBackup => "database_backup",
            StorageObjectType::OciImage => "oci_image",
            StorageObjectType::OverlaybdUpper => "overlaybd_upper",
        }
    }

    /// The value whose snake_case name is `s`, if any.
    pub fn parse(s: &str) -> (r: Option<StorageObjectType>)
        ensures
            r matches Some(v) ==> v.name() == s@,
            r is None ==> forall|v: StorageObjectType| v.name() != s@,
    {
        if str_eq(s, "disk") {
            return Some(StorageObjectType::Disk);
        }
        if str_eq(s, "kernel") {
            return Some(StorageObjectType::Kernel);
        }
        if str_eq(s, "initrd") {
            return Some(StorageObjectType::Initrd);
        }
        if str_eq(s, "iso") {
            return Some(StorageObjectType::Iso);
        }
        if str_eq(s, "snapshot") {
            return Some(StorageObjectType::Snapshot);
        }
        if str_eq(s, "database_backup") {
            return Some(StorageObjectType::DatabaseBackup);
        }
        if str_eq(s, "oci_image") {
            return Some(StorageObjectType::OciImage);
        }
        if str_eq(s, "overlaybd_upper") {
            return Some(StorageObjectType::OverlaybdUpper);
        }
        proof {
            assert forall|v: StorageObjectType| v.name() != s@ by {
                match v {
                    StorageObjectType::Disk => {},
                    StorageObjectType::Kernel => {},
                    StorageObjectType::Initrd => {},
                    StorageObjectType::Iso => {},
                    StorageObjectType::Snapshot => {},
                    StorageObjectType::DatabaseBackup => {},
                    StorageObjectType::OciImage => {},
                    StorageObjectType::OverlaybdUpper => {},
                }
            }
        }
        None
    }
}

/// Whether legacy storage is host-local or shared.
#[derive(Debug, Clone, Copy, PartialEq, Eq, Structural)]
pub enum StorageType {
    Local,
    Shared,
}

impl StorageType {
    /// The snake_case name of the value.
    pub open spec fn name(self) -> Seq<char> {
        match self {
            StorageType::Local => "local"@,
            StorageType::Shared => "shared"@,
        }
    }

    /// The snake_case name the value is printed as.
    pub fn as_str(&self) -> (r: &'static str)
        ensures
            r@ == self.name(),
    {
        match self {
            StorageType::Local => "local",
            StorageType::Shared => "shared",
        }
    }

    /// The value whose snake_case name is `s`, if any.
    pub fn parse(s: &str) -> (r: Option<StorageType>)
        ensures
            r matches Some(v) ==> v.name() == s@,
            r is None ==> forall|v: StorageType| v.name() != s@,
    {
        if str_eq(s, "local") {
            return Some(StorageType::Local);
        }
        if str_eq(s, "shared") {
            return Some(StorageType::Shared);
        }
        proof {
            assert forall|v: StorageType| v.name() != s@ by {
                match v {
                    StorageType::Local => {},
                    StorageType::Shared => {},
                }
            }
        }
        None
    }
}

/// State of legacy storage.
#[derive(Debug, Clone, Copy, PartialEq, Eq, Structural)]
pub enum StorageStatus {
    Up,
    Down,
}

impl StorageStatus {
    /// The snake_case name of the value.
    pub open spec fn name(self) -> Seq<char> {
        match self {
            StorageStatus::Up => "up"@,
            StorageStatus::Down => "down"@,
        }
    }

    /// The snake_case name the value is printed as.
    pub fn as_str(&self) -> (r: &'static str)
        ensures
            r@ == self.name(),
    {
        match self {
            StorageStatus::Up => "up",
            StorageStatus::Down => "down",
        }
    }

    /// The value whose snake_case name is `s`, if any.
    pub fn parse(s: &str) -> (r: Option<StorageStatus>)
        ensures
            r matches Some(v) ==> v.name() == s@,
            r is None ==> forall|v: StorageStatus| v.name() != s@,
    {
        if str_eq(s, "up") {
            return Some(StorageStatus::Up);
        }
        if str_eq(s, "down") {
            return Some(StorageStatus::Down);
        }
        proof {
            assert forall|v: StorageStatus| v.name() != s@ by {
                match v {
                    StorageStatus::Up => {},
                    StorageStatus::Down => {},
                }
            }
        }
        None
    }
}

/// How a transfer fetches its source.
#[derive(Debug, Clone, Copy, PartialEq, Eq, Structural)]
pub enum TransferType {
    Download,
    LocalCopy,
}

impl TransferType {
    /// The snake_case name of the value.
    pub open spec fn name(self) -> Seq<char> {
        match self {
            TransferType::Download => "download"@,
            TransferType::LocalCopy => "local_copy"@,
        }
    }

    /// The snake_case name the value is printed as.
    pub fn as_str(&self) -> (r: &'static str)
        ensures
            r@ == self.name(),
    {
        match self {
            TransferType::Download => "download",
            TransferType::LocalCopy => "local_copy",
        }
    }

    /// The value whose snake_case name is `s`, if any.
    pub fn parse(s: &str) -> (r: Option<TransferType>)
        ensures
            r matches Some(v) ==> v.name() == s@,
            r is None ==> forall|v: TransferType| v.name() != s@,
    {
        if str_eq(s, "download") {
            return Some(TransferType::Download);
        }
        if str_eq(s, "local_copy") {
            return Some(TransferType::LocalCopy);
        }
        proof {
            assert forall|v: TransferType| v.name() != s@ by {
                match v {
                    TransferType::Download => {},
                    TransferType::LocalCopy => {},
                }
            }
        }
        None
    }
}

/// Progress of a transfer.
#[derive(Debug, Clone, Copy, PartialEq, Eq, Structural)]
pub enum TransferStatus {
    Pending,
    Running,
    Completed,
    Failed,
}

impl TransferStatus {
    /// The snake_case name of the value.
    pub open spec fn name(self) -> Seq<char> {
        match self {
            TransferStatus::Pending => "pending"@,
            TransferStatus::Running => "running"@,
            TransferStatus::Completed => "completed"@,
            TransferStatus::Failed => "failed"@,
        }
    }

    /// The snake_case name the value is printed as.
    pub fn as_str(&self) -> (r: &'static str)
        ensures
            r@ == self.name(),
    {
        match self {
            TransferStatus::Pending => "pending",
            TransferStatus::Running => "running",
            TransferStatus::Completed => "completed",
            TransferStatus::Failed => "failed",
        }
    }

    /// The value whose snake_case name is `s`, if any.
    pub fn parse(s: &str) -> (r: Option<TransferStatus>)
        ensures
            r matches Some(v) ==> v.name() == s@,
            r is None ==> forall|v: TransferStatus| v.name() != s@,
    {
        if str_eq(s, "pending") {
            return Some(TransferStatus::Pending);
        }
        if str_eq(s, "running") {
            return Some(TransferStatus::Running);
        }
        if str_eq(s, "completed") {
            return Some(TransferStatus::Completed);
        }
        if str_eq(s, "failed") {
            return Some(TransferStatus::Failed);
        }
        proof {
            assert forall|v: TransferStatus| v.name() != s@ by {
                match v {
                    TransferStatus::Pending => {},
                    TransferStatus::Running => {},
                    TransferStatus::Completed => {},
                    TransferStatus::Failed => {},
                }
            }
        }
        None
    }
}

/// Kind of background job.
#[derive(Debug, Clone, Copy, PartialEq, Eq, Structural)]
pub enum JobType {
    ImagePull,
    SandboxClaim,
    VmStart,
    VmMigrate,
    DiskCreate,
    VmCommit,
    VmFailover,
    HostEvacuate,
}

impl JobType {
    /// The snake_case name of the value.
    pub open spec fn name(self) -> Seq<char> {
        match self {
            JobType::ImagePull => "image_pull"@,
            JobType::SandboxClaim => "sandbox_claim"@,
            JobType::VmStart => "vm_start"@,
            JobType::VmMigrate => "vm_migrate"@,
            JobType::DiskCreate => "disk_create"@,
            JobType::VmCommit => "vm_commit"@,
            JobType::VmFailover => "vm_failover"@,
            JobType::HostEvacuate => "host_evacuate"@,
        }
    }

    /// The snake_case name the value is printed as.
    pub fn as_str(&self) -> (r: &'static str)
        ensures
            r@ == self.name(),
    {
        match self {
            JobType::ImagePull => "image_pull",
            JobType::SandboxClaim => "sandbox_claim",
            JobType::VmStart => "vm_start",
            JobType::VmMigrate => "vm_migrate",
            JobType::DiskCreate => "disk_create",
            JobType::VmCommit => "vm_commit",
            JobType::VmFailover => "vm_failover",
            JobType::HostEvacuate => "host_evacuate",
        }
    }

    /// The value whose snake_case name is `s`, if any.
    pub fn parse(s: &str) -> (r: Option<JobType>)
        ensures
            r matches Some(v) ==> v.name() == s@,
            r is None ==> forall|v: JobType| v.name() != s@,
    {
        if str_eq(s, "image_pull") {
            return Some(JobType::ImagePull);
        }
        if str_eq(s, "sandbox_claim") {
            return Some(JobType::SandboxClaim);
        }
        if str_eq(s, "vm_start") {
            return Some(JobType::VmStart);
        }
        if str_eq(s, "vm_migrate") {
            return Some(JobType::VmMigrate);
        }
        if str_eq(s, "disk_create") {
            return Some(JobType::DiskCreate);
        }
        if str_eq(s, "vm_commit") {
            return Some(JobType::VmCommit);
        }
        if str_eq(s, "vm_failover") {
            return Some(JobType::VmFailover);
        }
        if str_eq(s, "host_evacuate") {
            return Some(JobType::HostEvacuate);
        }
        proof {
            assert forall|v: JobType| v.name() != s@ by {
                match v {
                    JobType::ImagePull => {},
                    JobType::SandboxClaim => {},
                    JobType::VmStart => {},
                    JobType::VmMigrate => {},
                    JobType::DiskCreate => {},
                    JobType::VmCommit => {},
                    JobType::VmFailover => {},
                    JobType::HostEvacuate => {},
                }
            }
        }
        None
    }
}

/// Progress of a background job.
#[derive(Debug, Clone, Copy, PartialEq, Eq, Structural)]
pub enum JobStatus {
    Pending,
    Running,
    Completed,
    Failed,
}

impl JobStatus {
    /// The snake_case name of the value.
    pub open spec fn name(self) -> Seq<char> {
        match self {
            JobStatus::Pending => "pending"@,
            JobStatus::Running => "running"@,
            JobStatus::Completed => "completed"@,
            JobStatus::Failed => "failed"@,
        }
    }

    /// The snake_case name the value is printed as.
    pub fn as_str(&self) -> (r: &'static str)
        ensures
            r@ == self.name(),
    {
        match self {
            JobStatus::Pending => "pending",
            JobStatus::Running => "running",
            JobStatus::Completed => "completed",
            JobStatus::Failed => "failed",
        }
    }

    /// The value whose snake_case name is `s`, if any.
    pub fn parse(s: &str) -> (r: Option<JobStatus>)
        ensures
            r matches Some(v) ==> v.name() == s@,
            r is None ==> forall|v: JobStatus| v.name() != s@,
    {
        if str_eq(s, "pending") {
            return Some(JobStatus::Pending);
        }
        if str_eq(s, "running") {
            return Some(JobStatus::Running);
        }
        if str_eq(s, "completed") {
            return Some(JobStatus::Completed);
        }
        if str_eq(s, "failed") {
            return Some(JobStatus::Failed);
        }
        proof {
            assert forall|v: JobStatus| v.name() != s@ by {
                match v {
                    JobStatus::Pending => {},
                    JobStatus::Running => {},
                    JobStatus::Completed => {},
                    JobStatus::Failed => {},
                }
            }
        }
        None
    }
}

/// State of a managed network.
#[derive(Debug, Clone, Copy, PartialEq, Eq, Structural)]
pub enum NetworkStatus {
    Active,
    Inactive,
}

impl NetworkStatus {
    /// The snake_case name of the value.
    pub open spec fn name(self) -> Seq<char> {
        match self {
            NetworkStatus::Active => "active"@,
            NetworkStatus::Inactive => "inactive"@,
        }
    }

    /// The snake_case name the value is printed as.
    pub fn as_str(&self) -> (r: &'static str)
        ensures
            r@ == self.name(),
    {
        match self {
            NetworkStatus::Active => "active",
            NetworkStatus::Inactive => "inactive",
        }
    }

    /// The value whose snake_case name is `s`, if any.
    pub fn parse(s: &str) -> (r: Option<NetworkStatus>)
        ensures
            r matches Some(v) ==> v.name() == s@,
            r is None ==> forall|v: NetworkStatus| v.name() != s@,
    {
        if str_eq(s, "active") {
            return Some(NetworkStatus::Active);
        }
        if str_eq(s, "inactive") {
            return Some(NetworkStatus::Inactive);
        }
        proof {
            assert forall|v: NetworkStatus| v.name() != s@ by {
                match v {
                    NetworkStatus::Active => {},
                    NetworkStatus::Inactive => {},
                }
            }
        }
        None
    }
}

/// Kind of VM network interface.
#[derive(Debug, Clone, Copy, PartialEq, Eq, Structural)]
pub enum InterfaceType {
    Macvtap,
    Tap,
    VhostUser,
}

impl InterfaceType {
    /// The snake_case name of the value.
    pub open spec fn name(self) -> Seq<char> {
        match self {
            InterfaceType::Macvtap => "macvtap"@,
            InterfaceType::Tap => "tap"@,
            InterfaceType::VhostUser => "vhost_user"@,
        }
    }

    /// The snake_case name the value is printed as.
    pub fn as_str(&self) -> (r: &'static str)
        ensures
            r@ == self.name(),
    {
        match self {
            InterfaceType::Macvtap => "macvtap",
            InterfaceType::Tap => "tap",
            InterfaceType::VhostUser => "vhost_user",
        }
    }

    /// The value whose snake_case name is `s`, if any.
    pub fn parse(s: &str) -> (r: Option<InterfaceType>)
        ensures
            r matches Some(v) ==> v.name() == s@,
            r is None ==> forall|v: InterfaceType| v.name() != s@,
    {
        if str_eq(s, "macvtap") {
            return Some(InterfaceType::Macvtap);
        }
        if str_eq(s, "tap") {
            return Some(InterfaceType::Tap);
        }
        if str_eq(s, "vhost_user") {
            return Some(InterfaceType::VhostUser);
        }
        proof {
            assert forall|v: InterfaceType| v.name() != s@ by {
                match v {
                    InterfaceType::Macvtap => {},
                    InterfaceType::Tap => {},
                    InterfaceType::VhostUser => {},
                }
            }
        }
        None
    }
}

/// State of a sandbox.
#[derive(Debug, Clone, Copy, PartialEq, Eq, Structural)]
pub enum SandboxStatus {
    Provisioning,
    Ready,
    Error,
    Destroying,
}

impl SandboxStatus {
    /// The snake_case name of the value.
    pub open spec fn name(self) -> Seq<char> {
        match self {
            SandboxStatus::Provisioning => "provisioning"@,
            SandboxStatus::Ready => "ready"@,
            SandboxStatus::Error => "error"@,
            SandboxStatus::Destroying => "destroying"@,
        }
    }

    /// The snake_case name the value is printed as.
    pub fn as_str(&self) -> (r: &'static str)
        ensures
            r@ == self.name(),
    {
        match self {
            SandboxStatus::Provisioning => "provisioning",
            SandboxStatus::Ready => "ready",
            SandboxStatus::Error => "error",
            SandboxStatus::Destroying => "destroying",
        }
    }

    /// The value whose snake_case name is `s`, if any.
    pub fn parse(s: &str) -> (r: Option<SandboxStatus>)
        ensures
            r matches Some(v) ==> v.name() == s@,
            r is None ==> forall|v: SandboxStatus| v.name() != s@,
    {
        if str_eq(s, "provisioning") {
            return Some(SandboxStatus::Provisioning);
        }
        if str_eq(s, "ready") {
            return Some(SandboxStatus::Ready);
        }
        if str_eq(s, "error") {
            return Some(SandboxStatus::Error);
        }
        if str_eq(s, "destroying") {
            return Some(SandboxStatus::Destroying);
        }
        proof {
            assert forall|v: SandboxStatus| v.name() != s@ by {
                match v {
                    SandboxStatus::Provisioning => {},
                    SandboxStatus::Ready => {},
                    SandboxStatus::Error => {},
                    SandboxStatus::Destroying => {},
                }
            }
        }
        None
    }
}

/// State of a pre-warmed sandbox pool member.
#[derive(Debug, Clone, Copy, PartialEq, Eq, Structural)]
pub enum SandboxPoolMemberStatus {
    Provisioning,
    Ready,
    Error,
    Destroying,
}

impl SandboxPoolMemberStatus {
    /// The snake_case name of the value.
    pub open spec fn name(self) -> Seq<char> {
        match self {
            SandboxPoolMemberStatus::Provisioning => "provisioning"@,
            SandboxPoolMemberStatus::Ready => "ready"@,
            SandboxPoolMemberStatus::Error => "error"@,
            SandboxPoolMemberStatus::Destroying => "destroying"@,
        }
    }

    /// The snake_case name the value is printed as.
    pub fn as_str(&self) -> (r: &'static str)
        ensures
            r@ == self.name(),
    {
        match self {
            SandboxPoolMemberStatus::Provisioning => "provisioning",
            SandboxPoolMemberStatus::Ready => "ready",
            SandboxPoolMemberStatus::Error => "error",
            SandboxPoolMemberStatus::Destroying => "destroying",
        }
    }

    /// The value whose snake_case name is `s`, if any.
    pub fn parse(s: &str) -> (r: Option<SandboxPoolMemberStatus>)
        ensures
            r matches Some(v) ==> v.name() == s@,
            r is None ==> forall|v: SandboxPoolMemberStatus| v.name() != s@,
    {
        if str_eq(s, "provisioning") {
            return Some(SandboxPoolMemberStatus::Provisioning);
        }
        if str_eq(s, "ready") {
            return Some(SandboxPoolMemberStatus::Ready);
        }
        if str_eq(s, "error") {
            return Some(SandboxPoolMemberStatus::Error);
        }
        if str_eq(s, "destroying") {
            return Some(SandboxPoolMemberStatus::Destroying);
        }
        proof {
            assert forall|v: SandboxPoolMemberStatus| v.name() != s@ by {
                match v {
                    SandboxPoolMemberStatus::Provisioning => {},
                    SandboxPoolMemberStatus::Ready => {},
                    SandboxPoolMemberStatus::Error => {},
                    SandboxPoolMemberStatus::Destroying => {},
                }
            }
        }
        None
    }
}

/// Direction a security group rule applies to.
#[derive(Debug, Clone, Copy, PartialEq, Eq, Structural)]
pub enum SecurityGroupDirection {
    Ingress,
    Egress,
}

impl SecurityGroupDirection {
    /// The snake_case name of the value.
    pub open spec fn name(self) -> Seq<char> {
        match self {
            SecurityGroupDirection::Ingress => "ingress"@,
            SecurityGroupDirection::Egress => "egress"@,
        }
    }

    /// The snake_case name the value is printed as.
    pub fn as_str(&self) -> (r: &'static str)
        ensures
            r@ == self.name(),
    {
        match self {
            SecurityGroupDirection::Ingress => "ingress",
            SecurityGroupDirection::Egress => "egress",
        }
    }

    /// The value whose snake_case name is `s`, if any.
    pub fn parse(s: &str) -> (r: Option<SecurityGroupDirection>)
        ensures
            r matches Some(v) ==> v.name() == s@,
            r is None ==> forall|v: SecurityGroupDirection| v.name() != s@,
    {
        if str_eq(s, "ingress") {
            return Some(SecurityGroupDirection::Ingress);
        }
        if str_eq(s, "egress") {
            return Some(SecurityGroupDirection::Egress);
        }
        proof {
            assert forall|v: SecurityGroupDirection| v.name() != s@ by {
                match v {
                    SecurityGroupDirection::Ingress => {},
                    SecurityGroupDirection::Egress => {},
                }
            }
        }
        None
    }
}

/// Protocol a security group rule matches.
#[derive(Debug, Clone, Copy, PartialEq, Eq, Structural)]
pub enum SecurityGroupProtocol {
    Any,
    Tcp,
    Udp,
    Icmp,
}

impl SecurityGroupProtocol {
    /// The snake_case name of the value.
    pub open spec fn name(self) -> Seq<char> {
        match self {
            SecurityGroupProtocol::Any => "any"@,
            SecurityGroupProtocol::Tcp => "tcp"@,
            SecurityGroupProtocol::Udp => "udp"@,
            SecurityGroupProtocol::Icmp => "icmp"@,
        }
    }

    /// The snake_case name the value is printed as.
    pub fn as_str(&self) -> (r: &'static str)
        ensures
            r@ == self.name(),
    {
        match self {
            SecurityGroupProtocol::Any => "any",
            SecurityGroupProtocol::Tcp => "tcp",
            SecurityGroupProtocol::Udp => "udp",
            SecurityGroupProtocol::Icmp => "icmp",
        }
    }

    /// The value whose snake_case name is `s`, if any.
    pub fn parse(s: &str) -> (r: Option<SecurityGroupProtocol>)
        ensures
            r matches Some(v) ==> v.name() == s@,
            r is None ==> forall|v: SecurityGroupProtocol| v.name() != s@,
    {
        if str_eq(s, "any") {
            return Some(SecurityGroupProtocol::Any);
        }
        if str_eq(s, "tcp") {
            return Some(SecurityGroupProtocol::Tcp);
        }
        if str_eq(s, "udp") {
            return Some(SecurityGroupProtocol::Udp);
        }
        if str_eq(s, "icmp") {
            return Some(SecurityGroupProtocol::Icmp);
        }
        proof {
            assert forall|v: SecurityGroupProtocol| v.name() != s@ by {
                match v {
                    SecurityGroupProtocol::Any => {},
                    SecurityGroupProtocol::Tcp => {},
                    SecurityGroupProtocol::Udp => {},
                    SecurityGroupProtocol::Icmp => {},
                }
            }
        }
        None
    }
}

/// Progress of a VM snapshot.
#[derive(Debug, Clone, Copy, PartialEq, Eq, Structural)]
pub enum SnapshotStatus {
    Creating,
    Ready,
    Failed,
}

impl SnapshotStatus {
    /// The snake_case name of the value.
    pub open spec fn name(self) -> Seq<char> {
        match self {
            SnapshotStatus::Creating => "creating"@,
            SnapshotStatus::Ready => "ready"@,
            SnapshotStatus::Failed => "failed"@,
        }
    }

    /// The snake_case name the value is printed as.
    pub fn as_str(&self) -> (r: &'static str)
        ensures
            r@ == self.name(),
    {
        match self {
            SnapshotStatus::Creating => "creating",
            SnapshotStatus::Ready => "ready",
            SnapshotStatus::Failed => "failed",
        }
    }

    /// The value whose snake_case name is `s`, if any.
    pub fn parse(s: &str) -> (r: Option<SnapshotStatus>)
        ensures
            r matches Some(v) ==> v.name() == s@,
            r is None ==> forall|v: SnapshotStatus| v.name() != s@,
    {
        if str_eq(s, "creating") {
            return Some(SnapshotStatus::Creating);
        }
        if str_eq(s, "ready") {
            return Some(SnapshotStatus::Ready);
        }
        if str_eq(s, "failed") {
            return Some(SnapshotStatus::Failed);
        }
        proof {
            assert forall|v: SnapshotStatus| v.name() != s@ by {
                match v {
                    SnapshotStatus::Creating => {},
                    SnapshotStatus::Ready => {},
                    SnapshotStatus::Failed => {},
                }
            }
        }
        None
    }
}

/// What a backup holds.
#[derive(Debug, Clone, Copy, PartialEq, Eq, Structural)]
pub enum BackupType {
    Vm,
    Database,
}

impl BackupType {
    /// The snake_case name of the value.
    pub open spec fn name(self) -> Seq<char> {
        match self {
            BackupType::Vm => "vm"@,
            BackupType::Database => "database"@,
        }
    }

    /// The snake_case name the value is printed as.
    pub fn as_str(&self) -> (r: &'static str)
        ensures
            r@ == self.name(),
    {
        match self {
            BackupType::Vm => "vm",
            BackupType::Database => "database",
        }
    }

    /// The value whose snake_case name is `s`, if any.
    pub fn parse(s: &str) -> (r: Option<BackupType>)
        ensures
            r matches Some(v) ==> v.name() == s@,
            r is None ==> forall|v: BackupType| v.name() != s@,
    {
        if str_eq(s, "vm") {
            return Some(BackupType::Vm);
        }
        if str_eq(s, "database") {
            return Some(BackupType::Database);
        }
        proof {
            assert forall|v: BackupType| v.name() != s@ by {
                match v {
                    BackupType::Vm => {},
                    BackupType::Database => {},
                }
            }
        }
        None
    }
}

/// Progress of a backup.
#[derive(Debug, Clone, Copy, PartialEq, Eq, Structural)]
pub enum BackupStatus {
    Creating,
    Ready,
    Failed,
}

impl BackupStatus {
    /// The snake_case name of the value.
    pub open spec fn name(self) -> Seq<char> {
        match self {
            BackupStatus::Creating => "creating"@,
            BackupStatus::Ready => "ready"@,
            BackupStatus::Failed => "failed"@,
        }
    }

    /// The snake_case name the value is printed as.
    pub fn as_str(&self) -> (r: &'static str)
        ensures
            r@ == self.name(),
    {
        match self {
            BackupStatus::Creating => "creating",
            BackupStatus::Ready => "ready",
            BackupStatus::Failed => "failed",
        }
    }

    /// The value whose snake_case name is `s`, if any.
    pub fn parse(s: &str) -> (r: Option<BackupStatus>)
        ensures
            r matches Some(v) ==> v.name() == s@,
            r is None ==> forall|v: BackupStatus| v.name() != s@,
    {
        if str_eq(s, "creating") {
            return Some(BackupStatus::Creating);
        }
        if str_eq(s, "ready") {
            return Some(BackupStatus::Ready);
        }
        if str_eq(s, "failed") {
            return Some(BackupStatus::Failed);
        }
        proof {
            assert forall|v: BackupStatus| v.name() != s@ by {
                match v {
                    BackupStatus::Creating => {},
                    BackupStatus::Ready => {},
                    BackupStatus::Failed => {},
                }
            }
        }
        None
    }
}

/// Which VMs a lifecycle hook applies to.
#[derive(Debug, Clone, Copy, PartialEq, Eq, Structural)]
pub enum HookScope {
    Global,
    Vm,
    Tag,
}

impl HookScope {
    /// The snake_case name of the value.
    pub open spec fn name(self) -> Seq<char> {
        match self {
            HookScope::Global => "global"@,
            HookScope::Vm => "vm"@,
            HookScope::Tag => "tag"@,
        }
    }

    /// The snake_case name the value is printed as.
    pub fn as_str(&self) -> (r: &'static str)
        ensures
            r@ == self.name(),
    {
        match self {
            HookScope::Global => "global",
            HookScope::Vm => "vm",
            HookScope::Tag => "tag",
        }
    }

    /// The value whose snake_case name is `s`, if any.
    pub fn parse(s: &str) -> (r: Option<HookScope>)
        ensures
            r matches Some(v) ==> v.name() == s@,
            r is None ==> forall|v: HookScope| v.name() != s@,
    {
        if str_eq(s, "global") {
            return Some(HookScope::Global);
        }
        if str_eq(s, "vm") {
            return Some(HookScope::Vm);
        }
        if str_eq(s, "tag") {
            return Some(HookScope::Tag);
        }
        proof {
            assert forall|v: HookScope| v.name() != s@ by {
                match v {
                    HookScope::Global => {},
                    HookScope::Vm => {},
                    HookScope::Tag => {},
                }
            }
        }
        None
    }
}

/// Delivery state of a hook execution.
#[derive(Debug, Clone, Copy, PartialEq, Eq, Structural)]
pub enum HookExecutionStatus {
    Pending,
    Delivered,
    Failed,
}

impl HookExecutionStatus {
    /// The snake_case name of the value.
    pub open spec fn name(self) -> Seq<char> {
        match self {
            HookExecutionStatus::Pending => "pending"@,
            HookExecutionStatus::Delivered => "delivered"@,
            HookExecutionStatus::Failed => "failed"@,
        }
    }

    /// The snake_case name the value is printed as.
    pub fn as_str(&self) -> (r: &'static str)
        ensures
            r@ == self.name(),
    {
        match self {
            HookExecutionStatus::Pending => "pending",
            HookExecutionStatus::Delivered => "delivered",
            HookExecutionStatus::Failed => "failed",
        }
    }

    /// The value whose snake_case name is `s`, if any.
    pub fn parse(s: &str) -> (r: Option<HookExecutionStatus>)
        ensures
            r matches Some(v) ==> v.name() == s@,
            r is None ==> forall|v: HookExecutionStatus| v.name() != s@,
    {
        if str_eq(s, "pending") {
            return Some(HookExecutionStatus::Pending);
        }
        if str_eq(s, "delivered") {
            return Some(HookExecutionStatus::Delivered);
        }
        if str_eq(s, "failed") {
            return Some(HookExecutionStatus::Failed);
        }
        proof {
            assert forall|v: HookExecutionStatus| v.name() != s@ by {
                match v {
                    HookExecutionStatus::Pending => {},
                    HookExecutionStatus::Delivered => {},
                    HookExecutionStatus::Failed => {},
                }
            }
        }
        None
    }
}

/// How a VM console is exposed.
#[derive(Debug, Clone, Copy, PartialEq, Eq, Structural)]
pub enum ConsoleMode {
    Off,
    Pty,
    Tty,
    File,
    Socket,
    Null,
}

impl ConsoleMode {
    /// The snake_case name of the value.
    pub open spec fn name(self) -> Seq<char> {
        match self {
            ConsoleMode::Off => "off"@,
            ConsoleMode::Pty => "pty"@,
            ConsoleMode::Tty => "tty"@,
            ConsoleMode::File => "file"@,
            ConsoleMode::Socket => "socket"@,
            ConsoleMode::Null => "null"@,
        }
    }

    /// The snake_case name the value is printed as.
    pub fn as_str(&self) -> (r: &'static str)
        ensures
            r@ == self.name(),
    {
        match self {
            ConsoleMode::Off => "off",
            ConsoleMode::Pty => "pty",
            ConsoleMode::Tty => "tty",
            ConsoleMode::File => "file",
            ConsoleMode::Socket => "socket",
            ConsoleMode::Null => "null",
        }
    }

    /// The value whose snake_case name is `s`, if any.
    pub fn parse(s: &str) -> (r: Option<ConsoleMode>)
        ensures
            r matches Some(v) ==> v.name() == s@,
            r is None ==> forall|v: ConsoleMode| v.name() != s@,
    {
        if str_eq(s, "off") {
            return Some(ConsoleMode::Off);
        }
        if str_eq(s, "pty") {
            return Some(ConsoleMode::Pty);
        }
        if str_eq(s, "tty") {
            return Some(ConsoleMode::Tty);
        }
        if str_eq(s, "file") {
            return Some(ConsoleMode::File);
        }
        if str_eq(s, "socket") {
            return Some(ConsoleMode::Socket);
        }
        if str_eq(s, "null") {
            return Some(ConsoleMode::Null);
        }
        proof {
            assert forall|v: ConsoleMode| v.name() != s@ by {
                match v {
                    ConsoleMode::Off => {},
                    ConsoleMode::Pty => {},
                    ConsoleMode::Tty => {},
                    ConsoleMode::File => {},
                    ConsoleMode::Socket => {},
                    ConsoleMode::Null => {},
                }
            }
        }
        None
    }
}

/// Action recorded in the audit log.
#[derive(Debug, Clone, Copy, PartialEq, Eq, Structural)]
pub enum AuditAction {
    Create,
    Update,
    Delete,
    Start,
    Stop,
    ForceStop,
    Pause,
    Resume,
    Deploy,
    Init,
    Migrate,
    Restore,
    AttachDisk,
    RemoveDisk,
    AddNic,
    RemoveNic,
    Resize,
    Commit,
    CreateSnapshot,
    RestoreSnapshot,
    CreateTemplate,
    NodeUpgrade,
    Evacuate,
}

impl AuditAction {
    /// The snake_case name of the value.
    pub open spec fn name(self) -> Seq<char> {
        match self {
            AuditAction::Create => "create"@,
            AuditAction::Update => "update"@,
            AuditAction::Delete => "delete"@,
            AuditAction::Start => "start"@,
            AuditAction::Stop => "stop"@,
            AuditAction::ForceStop => "force_stop"@,
            AuditAction::Pause => "pause"@,
            AuditAction::Resume => "resume"@,
            AuditAction::Deploy => "deploy"@,
            AuditAction::Init => "init"@,
            AuditAction::Migrate => "migrate"@,
            AuditAction::Restore => "restore"@,
            AuditAction::AttachDisk => "attach_disk"@,
            AuditAction::RemoveDisk => "remove_disk"@,
            AuditAction::AddNic => "add_nic"@,
            AuditAction::RemoveNic => "remove_nic"@,
            AuditAction::Resize => "resize"@,
            AuditAction::Commit => "commit"@,
            AuditAction::CreateSnapshot => "create_snapshot"@,
            AuditAction::RestoreSnapshot => "restore_snapshot"@,
            AuditAction::CreateTemplate => "create_template"@,
            AuditAction::NodeUpgrade => "node_upgrade"@,
            AuditAction::Evacuate => "evacuate"@,
        }
    }

    /// The snake_case name the value is printed as.
    pub fn as_str(&self) -> (r: &'static str)
        ensures
            r@ == self.name(),
    {
        match self {
            AuditAction::Create => "create",
            AuditAction::Update => "update",
            AuditAction::Delete => "delete",
            AuditAction::Start => "start",
            AuditAction::Stop => "stop",
            AuditAction::ForceStop => "force_stop",
            AuditAction::Pause => "pause",
            AuditAction::Resume => "resume",
            AuditAction::Deploy => "deploy",
            AuditAction::Init => "init",
            AuditAction::Migrate => "migrate",
            AuditAction::Restore => "restore",
            AuditAction::AttachDisk => "attach_disk",
            AuditAction::RemoveDisk => "remove_disk",
            AuditAction::AddNic => "add_nic",
            AuditAction::RemoveNic => "remove_nic",
            AuditAction::Resize => "resize",
            AuditAction::Commit => "commit",
            AuditAction::CreateSnapshot => "create_snapshot",
            AuditAction::RestoreSnapshot => "restore_snapshot",
            AuditAction::CreateTemplate => "create_template",
            AuditAction::NodeUpgrade => "node_upgrade",
            AuditAction::Evacuate => "evacuate",
        }
    }

    /// The value whose snake_case name is `s`, if any.
    pub fn parse(s: &str) -> (r: Option<AuditAction>)
        ensures
            r matches Some(v) ==> v.name() == s@,
            r is None ==> forall|v: AuditAction| v.name() != s@,
    {
        if str_eq(s, "create") {
            return Some(AuditAction::Create);
        }
        if str_eq(s, "update") {
            return Some(AuditAction::Update);
        }
        if str_eq(s, "delete") {
            return Some(AuditAction::Delete);
        }
        if str_eq(s, "start") {
            return Some(AuditAction::Start);
        }
        if str_eq(s, "stop") {
            return Some(AuditAction::Stop);
        }
        if str_eq(s, "force_stop") {
            return Some(AuditAction::ForceStop);
        }
        if str_eq(s, "pause") {
            return Some(AuditAction::Pause);
        }
        if str_eq(s, "resume") {
            return Some(AuditAction::Resume);
        }
        if str_eq(s, "deploy") {
            return Some(AuditAction::Deploy);
        }
        if str_eq(s, "init") {
            return Some(AuditAction::Init);
        }
        if str_eq(s, "migrate") {
            return Some(AuditAction::Migrate);
        }
        if str_eq(s, "restore") {
            return Some(AuditAction::Restore);
        }
        if str_eq(s, "attach_disk") {
            return Some(AuditAction::AttachDisk);
        }
        if str_eq(s, "remove_disk") {
            return Some(AuditAction::RemoveDisk);
        }
        if str_eq(s, "add_nic") {
            return Some(AuditAction::AddNic);
        }
        if str_eq(s, "remove_nic") {
            return Some(AuditAction::RemoveNic);
        }
        if str_eq(s, "resize") {
            return Some(AuditAction::Resize);
        }
        if str_eq(s, "commit") {
            return Some(AuditAction::Commit);
        }
        if str_eq(s, "create_snapshot") {
            return Some(AuditAction::CreateSnapshot);
        }
        if str_eq(s, "restore_snapshot") {
            return Some(AuditAction::RestoreSnapshot);
        }
        if str_eq(s, "create_template") {
            return Some(AuditAction::CreateTemplate);
        }
        if str_eq(s, "node_upgrade") {
            return Some(AuditAction::NodeUpgrade);
        }
        if str_eq(s, "evacuate") {
            return Some(AuditAction::Evacuate);
        }
        proof {
            assert forall|v: AuditAction| v.name() != s@ by {
                match v {
                    AuditAction::Create => {},
                    AuditAction::Update => {},
                    AuditAction::Delete => {},
                    AuditAction::Start => {},
                    AuditAction::Stop => {},
                    AuditAction::ForceStop => {},
                    AuditAction::Pause => {},
                    AuditAction::Resume => {},
                    AuditAction::Deploy => {},
                    AuditAction::Init => {},
                    AuditAction::Migrate => {},
                    AuditAction::Restore => {},
                    AuditAction::AttachDisk => {},
                    AuditAction::RemoveDisk => {},
                    AuditAction::AddNic => {},
                    AuditAction::RemoveNic => {},
                    AuditAction::Resize => {},
                    AuditAction::Commit => {},
                    AuditAction::CreateSnapshot => {},
                    AuditAction::RestoreSnapshot => {},
                    AuditAction::CreateTemplate => {},
                    AuditAction::NodeUpgrade => {},
                    AuditAction::Evacuate => {},
                }
            }
        }
        None
    }
}

/// Kind of resource an audit entry concerns.
#[derive(Debug, Clone, Copy, PartialEq, Eq, Structural)]
pub enum AuditResourceType {
    Vm,
    Host,
    StoragePool,
    StorageObject,
    Network,
    BootSource,
    VmTemplate,
    InstanceType,
    LifecycleHook,
    Transfer,
    Sandbox,
}

impl AuditResourceType {
    /// The snake_case name of the value.
    pub open spec fn name(self) -> Seq<char> {
        match self {
            AuditResourceType::Vm => "vm"@,
            AuditResourceType::Host => "host"@,
            AuditResourceType::StoragePool => "storage_pool"@,
            AuditResourceType::StorageObject => "storage_object"@,
            AuditResourceType::Network => "network"@,
            AuditResourceType::BootSource => "boot_source"@,
            AuditResourceType::VmTemplate => "vm_template"@,
            AuditResourceType::InstanceType => "instance_type"@,
            AuditResourceType::LifecycleHook => "lifecycle_hook"@,
            AuditResourceType::Transfer => "transfer"@,
            AuditResourceType::Sandbox => "sandbox"@,
        }
    }

    /// The snake_case name the value is printed as.
    pub fn as_str(&self) -> (r: &'static str)
        ensures
            r@ == self.name(),
    {
        match self {
            AuditResourceType::Vm => "vm",
            AuditResourceType::Host => "host",
            AuditResourceType::StoragePool => "storage_pool",
            AuditResourceType::StorageObject => "storage_object",
            AuditResourceType::Network => "network",
            AuditResourceType::BootSource => "boot_source",
            AuditResourceType::VmTemplate => "vm_template",
            AuditResourceType::InstanceType => "instance_type",
            AuditResourceType::LifecycleHook => "lifecycle_hook",
            AuditResourceType::Transfer => "transfer",
            AuditResourceType::Sandbox => "sandbox",
        }
    }

    /// The value whose snake_case name is `s`, if any.
    pub fn parse(s: &str) -> (r: Option<AuditResourceType>)
        ensures
            r matches Some(v) ==> v.name() == s@,
            r is None ==> forall|v: AuditResourceType| v.name() != s@,
    {
        if str_eq(s, "vm") {
            return Some(AuditResourceType::Vm);
        }
        if str_eq(s, "host") {
            return Some(AuditResourceType::Host);
        }
        if str_eq(s, "storage_pool") {
            return Some(AuditResourceType::StoragePool);
        }
        if str_eq(s, "storage_object") {
            return Some(AuditResourceType::StorageObject);
        }
        if str_eq(s, "network") {
            return Some(AuditResourceType::Network);
        }
        if str_eq(s, "boot_source") {
            return Some(AuditResourceType::BootSource);
        }
        if str_eq(s, "vm_template") {
            return Some(AuditResourceType::VmTemplate);
        }
        if str_eq(s, "instance_type") {
            return Some(AuditResourceType::InstanceType);
        }
        if str_eq(s, "lifecycle_hook") {
            return Some(AuditResourceType::LifecycleHook);
        }
        if str_eq(s, "transfer") {
            return Some(AuditResourceType::Transfer);
        }
        if str_eq(s, "sandbox") {
            return Some(AuditResourceType::Sandbox);
        }
        proof {
            assert forall|v: AuditResourceType| v.name() != s@ by {
                match v {
                    AuditResourceType::Vm => {},
                    AuditResourceType::Host => {},
                    AuditResourceType::StoragePool => {},
                    AuditResourceType::StorageObject => {},
                    AuditResourceType::Network => {},
                    AuditResourceType::BootSource => {},
                    AuditResourceType::VmTemplate => {},
                    AuditResourceType::InstanceType => {},
                    AuditResourceType::LifecycleHook => {},
                    AuditResourceType::Transfer => {},
                    AuditResourceType::Sandbox => {},
                }
            }
        }
        None
    }
}

} // verus!
