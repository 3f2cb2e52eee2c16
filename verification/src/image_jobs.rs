//! The background job that prepares a VM created from an OCI image, as a
//! state machine.
//!
//! Without an OverlayBD pool on the VM's host the image is pulled and its
//! root filesystem recorded for virtiofs. With one, the image is imported
//! into the pool's registry, a storage object is made for it (and, when asked
//! for, one more for a persistent upper layer on another pool), and a disk of
//! the VM is recorded on it. The caller performs the action of the current
//! step, hands its outcome to `advance`, and performs the returned effects in
//! order.
use vstd::prelude::*;

use crate::devices::{disk_names, indexed_name, is_least_free, next_disk_id, opt_view, VmDisk};
use crate::ids::{uuid_string, uuid_text};
use crate::jobs::{count, lemma_count_concat};
use crate::model::{StorageObjectType, VmStatus};
use crate::storage::{config_text, config_wf, ConfigField, JsonConfig, NewStorageObject, OverlayBdPoolConfig};
use crate::text::{owned, push_str};

verus! {

/// Where an image job is.
#[derive(Debug, PartialEq, Eq, Structural)]
pub enum ImageStage {
    MarkRunning,
    /// Virtiofs: pull the image on the node.
    Pull,
    /// Virtiofs: record the VM's root filesystem.
    PersistFilesystem,
    /// OverlayBD: import the image into the pool's registry.
    Import,
    /// OverlayBD: create the storage object of the imported image.
    CreateImageObject,
    /// OverlayBD: read the VM's disks, to name the new one.
    ListDisks,
    /// OverlayBD: create the object of the persistent upper layer.
    CreateUpper,
    /// OverlayBD: record the VM's disk.
    CreateDisk,
    Finished,
}

/// The virtiofs filesystem record of a VM booted from an image.
#[derive(Debug)]
pub struct NewVmFilesystem {
    pub vm_id: u128,
    pub tag: String,
    pub num_queues: Option<i32>,
    pub queue_size: Option<i32>,
    pub pci_segment: Option<i32>,
    pub image_ref: Option<String>,
    pub image_digest: Option<String>,
}

/// The disk record of a VM booted from an OverlayBD image; the fields not
/// named here take their defaults.
#[derive(Debug)]
pub struct NewOverlayBdDisk {
    pub vm_id: u128,
    pub storage_object_id: u128,
    pub logical_name: String,
    pub device_path: String,
    pub boot_order: i32,
    pub read_only: bool,
    pub upper_storage_object_id: Option<u128>,
}

/// The action of an image-job step.
#[derive(Debug)]
pub enum ImageAction {
    MarkJobRunning,
    PullImage(String),
    PersistFilesystem(NewVmFilesystem),
    ImportImage { image_ref: String, registry_url: String },
    CreateObject(NewStorageObject),
    ListDisks,
    CreateDisk(NewOverlayBdDisk),
}

/// The outcome of an image-job action.
#[derive(Debug)]
pub enum ImageOutcome {
    /// The action succeeded and returns nothing the job reads.
    Done,
    /// The image was pulled; its digest.
    Pulled(String),
    /// The image was imported; the reference it has in the registry, and its
    /// digest.
    Imported { image_ref: String, digest: String },
    /// A storage object was created with this id.
    ObjectCreated(u128),
    /// The VM's disks.
    DisksListed(Vec<VmDisk>),
    /// The action failed with this error text.
    Failed(String),
}

/// A follow-up effect of an image-job step, performed by the caller.
#[derive(Debug)]
pub enum ImageEffect {
    MarkFailed(String),
    SetVmStatus(VmStatus),
    SetProgress(i32),
    DeleteObject(u128),
    /// Mark the job completed with this image digest as its result.
    MarkCompleted(String),
}

/// A job preparing the VM `vm_id` from the image `image_ref`; `overlaybd`
/// when the host has an OverlayBD pool (`pool_id`, whose registry is
/// `registry_url` when its configuration names one), with the upper layer
/// kept on `upper_pool_id` when that is given. The other fields are filled
/// as the job goes.
#[derive(Debug)]
pub struct ImageJob {
    pub stage: ImageStage,
    pub vm_id: u128,
    pub image_ref: String,
    pub overlaybd: bool,
    pub pool_id: u128,
    pub registry_url: Option<String>,
    pub upper_pool_id: Option<u128>,
    pub digest: String,
    pub imported_ref: String,
    pub image_object: Option<u128>,
    pub logical_name: String,
    pub upper_object: Option<u128>,
}

/// The mathematical value of an image job.
pub struct ImageJobView {
    pub stage: ImageStage,
    pub vm_id: u128,
    pub image_ref: Seq<char>,
    pub overlaybd: bool,
    pub pool_id: u128,
    pub registry_url: Option<Seq<char>>,
    pub upper_pool_id: Option<u128>,
    pub digest: Seq<char>,
    pub imported_ref: Seq<char>,
    pub image_object: Option<u128>,
    pub logical_name: Seq<char>,
    pub upper_object: Option<u128>,
}

pub enum ImageOutcomeView {
    Done,
    Pulled(Seq<char>),
    Imported(Seq<char>, Seq<char>),
    ObjectCreated(u128),
    DisksListed(Seq<Seq<char>>),
    Failed(Seq<char>),
}

pub enum ImageEffectView {
    MarkFailed(Seq<char>),
    SetVmStatus(VmStatus),
    SetProgress(int),
    DeleteObject(u128),
    MarkCompleted(Seq<char>),
}

impl ImageJob {
    pub open spec fn view(self) -> ImageJobView {
        ImageJobView {
            stage: self.stage,
            vm_id: self.vm_id,
            image_ref: self.image_ref@,
            overlaybd: self.overlaybd,
            pool_id: self.pool_id,
            registry_url: opt_view(self.registry_url),
            upper_pool_id: self.upper_pool_id,
            digest: self.digest@,
            imported_ref: self.imported_ref@,
            image_object: self.image_object,
            logical_name: self.logical_name@,
            upper_object: self.upper_object,
        }
    }
}

impl ImageOutcome {
    pub open spec fn view(self) -> ImageOutcomeView {
        match self {
            ImageOutcome::Done => ImageOutcomeView::Done,
            ImageOutcome::Pulled(d) => ImageOutcomeView::Pulled(d@),
            ImageOutcome::Imported { image_ref, digest } => ImageOutcomeView::Imported(image_ref@, digest@),
            ImageOutcome::ObjectCreated(id) => ImageOutcomeView::ObjectCreated(id),
            ImageOutcome::DisksListed(v) => ImageOutcomeView::DisksListed(disk_names(v@)),
            ImageOutcome::Failed(e) => ImageOutcomeView::Failed(e@),
        }
    }
}

impl ImageEffect {
    pub open spec fn view(self) -> ImageEffectView {
        match self {
            ImageEffect::MarkFailed(m) => ImageEffectView::MarkFailed(m@),
            ImageEffect::SetVmStatus(s) => ImageEffectView::SetVmStatus(s),
            ImageEffect::SetProgress(p) => ImageEffectView::SetProgress(p as int),
            ImageEffect::DeleteObject(id) => ImageEffectView::DeleteObject(id),
            ImageEffect::MarkCompleted(d) => ImageEffectView::MarkCompleted(d@),
        }
    }
}

pub open spec fn image_effects(v: Seq<ImageEffect>) -> Seq<ImageEffectView> {
    v.map_values(|e: ImageEffect| e.view())
}

/// What an image job holds at each stage.
pub open spec fn image_job_wf(j: ImageJobView) -> bool {
    &&& (j.stage is Pull || j.stage is PersistFilesystem) ==> !j.overlaybd
    &&& (j.stage is Import || j.stage is CreateImageObject || j.stage is ListDisks || j.stage is CreateUpper
        || j.stage is CreateDisk) ==> (j.overlaybd && j.registry_url is Some)
    &&& (j.stage is ListDisks || j.stage is CreateUpper || j.stage is CreateDisk) ==> j.image_object is Some
    &&& j.stage is CreateUpper ==> j.upper_pool_id is Some
}

/// The name `disk<N>` with the least `N` that `used` does not hold.
pub open spec fn least_free_disk_name(used: Seq<Seq<char>>) -> Seq<char> {
    indexed_name("disk"@, choose|i: nat| is_least_free("disk"@, used, i))
}

proof fn lemma_least_free_unique(used: Seq<Seq<char>>, i: nat, k: nat)
    requires
        is_least_free("disk"@, used, i),
        is_least_free("disk"@, used, k),
    ensures
        i == k,
{
    if i < k {
        assert(used.contains(indexed_name("disk"@, i)));
    } else if k < i {
        assert(used.contains(indexed_name("disk"@, k)));
    }
}

/// A failed job: its message recorded and the VM left in Unknown.
pub open spec fn image_failed(m: Seq<char>) -> Seq<ImageEffectView> {
    seq![ImageEffectView::MarkFailed(m), ImageEffectView::SetVmStatus(VmStatus::Unknown)]
}

/// A completed job: the VM is Created and the job done with the digest.
pub open spec fn image_completed(digest: Seq<char>) -> Seq<ImageEffectView> {
    seq![ImageEffectView::SetVmStatus(VmStatus::Created), ImageEffectView::MarkCompleted(digest)]
}

/// The objects made so far, deleted in the order they were made.
pub open spec fn cleanup(image_object: Option<u128>, upper_object: Option<u128>) -> Seq<ImageEffectView> {
    (match image_object {
        Some(id) => seq![ImageEffectView::DeleteObject(id)],
        None => seq![],
    }) + (match upper_object {
        Some(id) => seq![ImageEffectView::DeleteObject(id)],
        None => seq![],
    })
}

pub open spec fn at(j: ImageJobView, s: ImageStage) -> ImageJobView {
    ImageJobView { stage: s, ..j }
}

/// What follows an image-job step given the outcome of its action. An
/// outcome of a kind the step does not expect leaves the job as it is.
pub open spec fn image_transition(j: ImageJobView, o: ImageOutcomeView) -> (ImageJobView, Seq<ImageEffectView>) {
    let done = at(j, ImageStage::Finished);
    match j.stage {
        ImageStage::MarkRunning => match o {
            ImageOutcomeView::Done => if !j.overlaybd {
                (at(j, ImageStage::Pull), seq![])
            } else if j.registry_url is None {
                (done, image_failed("OverlayBD pool config missing 'url' field"@))
            } else {
                (at(j, ImageStage::Import), seq![])
            },
            ImageOutcomeView::Failed(_) => (done, seq![]),
            _ => (j, seq![]),
        },
        ImageStage::Pull => match o {
            ImageOutcomeView::Pulled(d) => (
                ImageJobView { stage: ImageStage::PersistFilesystem, digest: d, ..j },
                seq![ImageEffectView::SetProgress(50)],
            ),
            ImageOutcomeView::Failed(e) => (done, image_failed("Failed to pull OCI image: "@ + e)),
            _ => (j, seq![]),
        },
        ImageStage::PersistFilesystem => match o {
            ImageOutcomeView::Done | ImageOutcomeView::Failed(_) => (done, image_completed(j.digest)),
            _ => (j, seq![]),
        },
        ImageStage::Import => match o {
            ImageOutcomeView::Imported(r, d) => (
                ImageJobView { stage: ImageStage::CreateImageObject, imported_ref: r, digest: d, ..j },
                seq![ImageEffectView::SetProgress(50)],
            ),
            ImageOutcomeView::Failed(e) => (done, image_failed("Failed to import OverlayBD image: "@ + e)),
            _ => (j, seq![]),
        },
        ImageStage::CreateImageObject => match o {
            ImageOutcomeView::ObjectCreated(id) => (
                ImageJobView { stage: ImageStage::ListDisks, image_object: Some(id), ..j },
                seq![],
            ),
            ImageOutcomeView::Failed(e) => (
                done,
                image_failed("Failed to create storage object for OverlayBD disk: "@ + e),
            ),
            _ => (j, seq![]),
        },
        ImageStage::ListDisks => match o {
            ImageOutcomeView::DisksListed(names) => (
                ImageJobView {
                    stage: if j.upper_pool_id is Some {
                        ImageStage::CreateUpper
                    } else {
                        ImageStage::CreateDisk
                    },
                    logical_name: least_free_disk_name(names),
                    ..j
                },
                seq![],
            ),
            ImageOutcomeView::Failed(e) => (done, image_failed("Failed to list existing disks: "@ + e)),
            _ => (j, seq![]),
        },
        ImageStage::CreateUpper => match o {
            ImageOutcomeView::ObjectCreated(id) => (
                ImageJobView { stage: ImageStage::CreateDisk, upper_object: Some(id), ..j },
                seq![],
            ),
            ImageOutcomeView::Failed(e) => (
                done,
                cleanup(j.image_object, None) + image_failed(
                    "Failed to create OverlaybdUpper storage object: "@ + e,
                ),
            ),
            _ => (j, seq![]),
        },
        ImageStage::CreateDisk => match o {
            ImageOutcomeView::Done => (done, image_completed(j.digest)),
            ImageOutcomeView::Failed(e) => (
                done,
                cleanup(j.image_object, j.upper_object) + image_failed(
                    "Failed to persist OverlayBD disk record: "@ + e,
                ),
            ),
            _ => (j, seq![]),
        },
        ImageStage::Finished => (j, seq![]),
    }
}

/// A configuration field holding `text` as a JSON string, or JSON null
/// when `text` is none.
pub open spec fn field_is(f: ConfigField, key: Seq<char>, text: Option<Seq<char>>) -> bool {
    &&& f.key@ == key
    &&& opt_view(f.text) == text
    &&& f.number is None
}

/// The storage object of an imported OverlayBD image:
/// `{"image_ref": .., "registry_url": .., "digest": ..}`, the digest null
/// when the import gave none.
pub open spec fn image_object_is(o: NewStorageObject, j: ImageJobView) -> bool {
    &&& o.name@ == "overlaybd-"@ + uuid_text(j.vm_id)
    &&& o.storage_pool_id == Some(j.pool_id)
    &&& o.object_type is OciImage
    &&& o.size_bytes == 0
    &&& o.parent_id is None
    &&& o.config.is_object
    &&& o.config.fields.len() == 3
    &&& field_is(o.config.fields@[0], "image_ref"@, Some(j.imported_ref))
    &&& field_is(o.config.fields@[1], "registry_url"@, j.registry_url)
    &&& field_is(
        o.config.fields@[2],
        "digest"@,
        if j.digest.len() == 0 {
            None
        } else {
            Some(j.digest)
        },
    )
}

/// The storage object of the persistent upper layer: an empty JSON object
/// as its configuration.
pub open spec fn upper_object_is(o: NewStorageObject, j: ImageJobView) -> bool {
    &&& o.name@ == "overlaybd-upper-"@ + uuid_text(j.vm_id)
    &&& o.storage_pool_id == j.upper_pool_id
    &&& o.object_type is OverlaybdUpper
    &&& o.size_bytes == 0
    &&& o.parent_id is None
    &&& o.config.is_object
    &&& o.config.fields.len() == 0
}

/// The action of the job's current step.
pub open spec fn image_action_is(j: ImageJobView, a: Option<ImageAction>) -> bool {
    match j.stage {
        ImageStage::MarkRunning => a matches Some(ImageAction::MarkJobRunning),
        ImageStage::Pull => a matches Some(ImageAction::PullImage(r)) && r@ == j.image_ref,
        ImageStage::PersistFilesystem => a matches Some(ImageAction::PersistFilesystem(f)) && {
            &&& f.vm_id == j.vm_id
            &&& f.tag@ == "rootfs"@
            &&& f.num_queues == Some(1i32)
            &&& f.queue_size == Some(1024i32)
            &&& f.pci_segment is None
            &&& opt_view(f.image_ref) == Some(j.image_ref)
            &&& opt_view(f.image_digest) == Some(j.digest)
        },
        ImageStage::Import => a matches Some(ImageAction::ImportImage { image_ref, registry_url }) && image_ref@
            == j.image_ref && Some(registry_url@) == j.registry_url,
        ImageStage::CreateImageObject => a matches Some(ImageAction::CreateObject(o)) && image_object_is(o, j),
        ImageStage::ListDisks => a matches Some(ImageAction::ListDisks),
        ImageStage::CreateUpper => a matches Some(ImageAction::CreateObject(o)) && upper_object_is(o, j),
        ImageStage::CreateDisk => a matches Some(ImageAction::CreateDisk(d)) && {
            &&& d.vm_id == j.vm_id
            &&& Some(d.storage_object_id) == j.image_object
            &&& d.logical_name@ == j.logical_name
            &&& d.device_path@ == "/dev/"@ + j.logical_name
            &&& d.boot_order == 0
            &&& !d.read_only
            &&& d.upper_storage_object_id == j.upper_object
        },
        ImageStage::Finished => a is None,
    }
}

fn clone_opt(o: &Option<String>) -> (r: Option<String>)
    ensures
        opt_view(r) == opt_view(*o),
{
    match o {
        Some(s) => Some(s.clone()),
        None => None,
    }
}

fn failure(prefix: &str, e: &str) -> (r: Vec<ImageEffect>)
    ensures
        image_effects(r@) == image_failed(prefix@ + e@),
{
    let mut m = owned(prefix);
    push_str(&mut m, e);
    failed_with(m)
}

fn failed_with(m: String) -> (r: Vec<ImageEffect>)
    ensures
        image_effects(r@) == image_failed(m@),
{
    let ghost t = m@;
    let r = vec![ImageEffect::MarkFailed(m), ImageEffect::SetVmStatus(VmStatus::Unknown)];
    assert(image_effects(r@) =~= image_failed(t));
    r
}

fn completion(digest: &String) -> (r: Vec<ImageEffect>)
    ensures
        image_effects(r@) == image_completed(digest@),
{
    let r = vec![ImageEffect::SetVmStatus(VmStatus::Created), ImageEffect::MarkCompleted(digest.clone())];
    assert(image_effects(r@) =~= image_completed(digest@));
    r
}

impl ImageJob {
    /// A new job for the VM `vm_id` and the image `image_ref`; `overlaybd_pool`
    /// is the host's OverlayBD pool, if it has one.
    pub fn new(
        vm_id: u128,
        image_ref: String,
        overlaybd_pool: Option<&crate::storage::StoragePool>,
        upper_pool_id: Option<u128>,
    ) -> (j: ImageJob)
        requires
            overlaybd_pool matches Some(p) ==> config_wf(p.config),
        ensures
            image_job_wf(j@),
            j@ == (ImageJobView {
                stage: ImageStage::MarkRunning,
                vm_id,
                image_ref: image_ref@,
                overlaybd: overlaybd_pool is Some,
                pool_id: match overlaybd_pool {
                    Some(p) => p.id,
                    None => 0,
                },
                registry_url: match overlaybd_pool {
                    Some(p) => config_text(p.config, "url"@),
                    None => None,
                },
                upper_pool_id,
                digest: Seq::empty(),
                imported_ref: Seq::empty(),
                image_object: None,
                logical_name: Seq::empty(),
                upper_object: None,
            }),
    {
        let (overlaybd, pool_id, registry_url) = match overlaybd_pool {
            Some(p) => (
                true,
                p.id,
                match OverlayBdPoolConfig::from_value(&p.config) {
                    Some(c) => Some(c.url),
                    None => None,
                },
            ),
            None => (false, 0, None),
        };
        let j = ImageJob {
            stage: ImageStage::MarkRunning,
            vm_id,
            image_ref,
            overlaybd,
            pool_id,
            registry_url,
            upper_pool_id,
            digest: String::new(),
            imported_ref: String::new(),
            image_object: None,
            logical_name: String::new(),
            upper_object: None,
        };
        assert(j@.digest =~= Seq::<char>::empty());
        assert(j@.imported_ref =~= Seq::<char>::empty());
        assert(j@.logical_name =~= Seq::<char>::empty());
        j
    }

    /// The action to perform now, none once the job is finished.
    pub fn action(&self) -> (r: Option<ImageAction>)
        requires
            image_job_wf(self@),
        ensures
            image_action_is(self@, r),
    {
        match self.stage {
            ImageStage::MarkRunning => Some(ImageAction::MarkJobRunning),
            ImageStage::Pull => Some(ImageAction::PullImage(self.image_ref.clone())),
            ImageStage::PersistFilesystem => Some(
                ImageAction::PersistFilesystem(
                    NewVmFilesystem {
                        vm_id: self.vm_id,
                        tag: owned("rootfs"),
                        num_queues: Some(1),
                        queue_size: Some(1024),
                        pci_segment: None,
                        image_ref: Some(self.image_ref.clone()),
                        image_digest: Some(self.digest.clone()),
                    },
                ),
            ),
            ImageStage::Import => {
                let registry_url = match &self.registry_url {
                    Some(u) => u.clone(),
                    None => String::new(),
                };
                Some(ImageAction::ImportImage { image_ref: self.image_ref.clone(), registry_url })
            },
            ImageStage::CreateImageObject => {
                let mut name = owned("overlaybd-");
                let id = uuid_string(self.vm_id);
                push_str(&mut name, id.as_str());
                let digest = if self.digest.unicode_len() == 0 {
                    None
                } else {
                    Some(self.digest.clone())
                };
                let fields = vec![
                    ConfigField { key: owned("image_ref"), text: Some(self.imported_ref.clone()), number: None },
                    ConfigField { key: owned("registry_url"), text: clone_opt(&self.registry_url), number: None },
                    ConfigField { key: owned("digest"), text: digest, number: None },
                ];
                Some(
                    ImageAction::CreateObject(
                        NewStorageObject {
                            name,
                            storage_pool_id: Some(self.pool_id),
                            object_type: StorageObjectType::OciImage,
                            size_bytes: 0,
                            config: JsonConfig { is_object: true, fields },
                            parent_id: None,
                        },
                    ),
                )
            },
            ImageStage::ListDisks => Some(ImageAction::ListDisks),
            ImageStage::CreateUpper => {
                let mut name = owned("overlaybd-upper-");
                let id = uuid_string(self.vm_id);
                push_str(&mut name, id.as_str());
                Some(
                    ImageAction::CreateObject(
                        NewStorageObject {
                            name,
                            storage_pool_id: self.upper_pool_id,
                            object_type: StorageObjectType::OverlaybdUpper,
                            size_bytes: 0,
                            config: JsonConfig { is_object: true, fields: Vec::new() },
                            parent_id: None,
                        },
                    ),
                )
            },
            ImageStage::CreateDisk => {
                let mut device_path = owned("/dev/");
                push_str(&mut device_path, self.logical_name.as_str());
                let so = match self.image_object {
                    Some(id) => id,
                    None => 0,
                };
                Some(
                    ImageAction::CreateDisk(
                        NewOverlayBdDisk {
                            vm_id: self.vm_id,
                            storage_object_id: so,
                            logical_name: self.logical_name.clone(),
                            device_path,
                            boot_order: 0,
                            read_only: false,
                            upper_storage_object_id: self.upper_object,
                        },
                    ),
                )
            },
            ImageStage::Finished => None,
        }
    }
    /// Moves the job past its current step given the outcome of its action,
    /// and gives the effects to perform.
    pub fn advance(&mut self, outcome: ImageOutcome) -> (r: Vec<ImageEffect>)
        requires
            image_job_wf(old(self)@),
        ensures
            image_job_wf(final(self)@),
            (final(self)@, image_effects(r@)) == image_transition(old(self)@, outcome@),
    {
        let ghost j0 = self@;
        let ghost o = outcome@;
        let ghost expected = image_transition(j0, o);
        let mut out: Vec<ImageEffect> = Vec::new();
        match self.stage {
            ImageStage::MarkRunning => match outcome {
                ImageOutcome::Done => {
                    if !self.overlaybd {
                        self.stage = ImageStage::Pull;
                    } else if self.registry_url.is_none() {
                        self.stage = ImageStage::Finished;
                        out = failed_with(owned("OverlayBD pool config missing 'url' field"));
                    } else {
                        self.stage = ImageStage::Import;
                    }
                },
                ImageOutcome::Failed(_) => {
                    self.stage = ImageStage::Finished;
                },
                _ => {},
            },
            ImageStage::Pull => match outcome {
                ImageOutcome::Pulled(d) => {
                    self.stage = ImageStage::PersistFilesystem;
                    self.digest = d;
                    out.push(ImageEffect::SetProgress(50));
                },
                ImageOutcome::Failed(e) => {
                    self.stage = ImageStage::Finished;
                    out = failure("Failed to pull OCI image: ", e.as_str());
                },
                _ => {},
            },
            ImageStage::PersistFilesystem => match outcome {
                ImageOutcome::Done | ImageOutcome::Failed(_) => {
                    self.stage = ImageStage::Finished;
                    out = completion(&self.digest);
                },
                _ => {},
            },
            ImageStage::Import => match outcome {
                ImageOutcome::Imported { image_ref, digest } => {
                    self.stage = ImageStage::CreateImageObject;
                    self.imported_ref = image_ref;
                    self.digest = digest;
                    out.push(ImageEffect::SetProgress(50));
                },
                ImageOutcome::Failed(e) => {
                    self.stage = ImageStage::Finished;
                    out = failure("Failed to import OverlayBD image: ", e.as_str());
                },
                _ => {},
            },
            ImageStage::CreateImageObject => match outcome {
                ImageOutcome::ObjectCreated(id) => {
                    self.stage = ImageStage::ListDisks;
                    self.image_object = Some(id);
                },
                ImageOutcome::Failed(e) => {
                    self.stage = ImageStage::Finished;
                    out = failure("Failed to create storage object for OverlayBD disk: ", e.as_str());
                },
                _ => {},
            },
            ImageStage::ListDisks => match outcome {
                ImageOutcome::DisksListed(disks) => {
                    let name = next_disk_id(disks.as_slice());
                    proof {
                        let used = disk_names(disks@);
                        let i = choose|i: nat| name@ == indexed_name("disk"@, i) && is_least_free("disk"@, used, i);
                        let k = choose|k: nat| is_least_free("disk"@, used, k);
                        lemma_least_free_unique(used, i, k);
                    }
                    self.logical_name = name;
                    self.stage = if self.upper_pool_id.is_some() {
                        ImageStage::CreateUpper
                    } else {
                        ImageStage::CreateDisk
                    };
                },
                ImageOutcome::Failed(e) => {
                    self.stage = ImageStage::Finished;
                    out = failure("Failed to list existing disks: ", e.as_str());
                },
                _ => {},
            },
            ImageStage::CreateUpper => match outcome {
                ImageOutcome::ObjectCreated(id) => {
                    self.stage = ImageStage::CreateDisk;
                    self.upper_object = Some(id);
                },
                ImageOutcome::Failed(e) => {
                    self.stage = ImageStage::Finished;
                    let mut f = failure("Failed to create OverlaybdUpper storage object: ", e.as_str());
                    if let Some(id) = self.image_object {
                        out.push(ImageEffect::DeleteObject(id));
                    }
                    out.append(&mut f);
                    assert(image_effects(out@) =~= cleanup(j0.image_object, None) + image_failed(
                        "Failed to create OverlaybdUpper storage object: "@ + e@,
                    ));
                },
                _ => {},
            },
            ImageStage::CreateDisk => match outcome {
                ImageOutcome::Done => {
                    self.stage = ImageStage::Finished;
                    out = completion(&self.digest);
                },
                ImageOutcome::Failed(e) => {
                    self.stage = ImageStage::Finished;
                    let mut f = failure("Failed to persist OverlayBD disk record: ", e.as_str());
                    if let Some(id) = self.image_object {
                        out.push(ImageEffect::DeleteObject(id));
                    }
                    if let Some(id) = self.upper_object {
                        out.push(ImageEffect::DeleteObject(id));
                    }
                    out.append(&mut f);
                    assert(image_effects(out@) =~= cleanup(j0.image_object, j0.upper_object) + image_failed(
                        "Failed to persist OverlayBD disk record: "@ + e@,
                    ));
                },
                _ => {},
            },
            ImageStage::Finished => {},
        }
        assert(self@ == expected.0);
        assert(image_effects(out@) =~= expected.1);
        out
    }
}

/// Rank of an image stage: a step that the outcome moves on lowers it.
pub open spec fn image_rank(s: ImageStage) -> nat {
    match s {
        ImageStage::MarkRunning => 7,
        ImageStage::Pull => 6,
        ImageStage::PersistFilesystem => 5,
        ImageStage::Import => 6,
        ImageStage::CreateImageObject => 5,
        ImageStage::ListDisks => 4,
        ImageStage::CreateUpper => 3,
        ImageStage::CreateDisk => 2,
        ImageStage::Finished => 0,
    }
}

/// A step either leaves the job exactly as it was, with no effect (an
/// outcome of a kind the step does not expect), or moves it to a lower
/// rank; and a failed action always ends a job that was not finished.
pub proof fn lemma_image_job_progresses(j: ImageJobView, o: ImageOutcomeView)
    ensures
        ({
            let (next, eff) = image_transition(j, o);
            (next == j && eff.len() == 0) || image_rank(next.stage) < image_rank(j.stage)
        }),
        o is Failed ==> image_transition(j, o).0.stage is Finished,
{
}

/// The effects of running an image job to its end, its actions' outcomes
/// taken in order from `outcomes`.
pub open spec fn image_run(j: ImageJobView, outcomes: Seq<ImageOutcomeView>) -> (ImageJobView, Seq<ImageEffectView>)
    decreases outcomes.len(),
{
    if j.stage is Finished || outcomes.len() == 0 {
        (j, seq![])
    } else {
        let (next, now) = image_transition(j, outcomes[0]);
        let (last, later) = image_run(next, outcomes.drop_first());
        (last, now + later)
    }
}

pub open spec fn is_status(e: ImageEffectView) -> bool {
    e is SetVmStatus
}

pub open spec fn is_image_verdict(e: ImageEffectView) -> bool {
    e is MarkFailed || e is MarkCompleted
}

pub open spec fn is_created(e: ImageEffectView) -> bool {
    e matches ImageEffectView::SetVmStatus(s) && s is Created
}

pub open spec fn is_delete(e: ImageEffectView) -> bool {
    e is DeleteObject
}

proof fn lemma_image_step_counts(j: ImageJobView, o: ImageOutcomeView)
    ensures
        ({
            let (next, now) = image_transition(j, o);
            &&& next.stage is Finished ==> {
                &&& count(now, |e: ImageEffectView| is_image_verdict(e)) <= 1
                &&& count(now, |e: ImageEffectView| is_status(e)) <= 1
                &&& count(now, |e: ImageEffectView| is_created(e)) == count(
                    now,
                    |e: ImageEffectView| e is MarkCompleted,
                )
                &&& count(now, |e: ImageEffectView| is_delete(e)) <= 2
            }
            &&& !(next.stage is Finished) ==> {
                &&& count(now, |e: ImageEffectView| is_image_verdict(e)) == 0
                &&& count(now, |e: ImageEffectView| is_status(e)) == 0
                &&& count(now, |e: ImageEffectView| is_created(e)) == 0
                &&& count(now, |e: ImageEffectView| e is MarkCompleted) == 0
                &&& count(now, |e: ImageEffectView| is_delete(e)) == 0
            }
        }),
{
    reveal_with_fuel(count, 5);
}

/// In any run of an image job, the job gets at most one verdict and the VM
/// at most one status; the VM is made Created exactly as often as the job
/// is completed; and at most two objects are deleted.
pub proof fn lemma_image_run_verdict(j: ImageJobView, outcomes: Seq<ImageOutcomeView>)
    ensures
        count(image_run(j, outcomes).1, |e: ImageEffectView| is_image_verdict(e)) <= 1,
        count(image_run(j, outcomes).1, |e: ImageEffectView| is_status(e)) <= 1,
        count(image_run(j, outcomes).1, |e: ImageEffectView| is_created(e)) == count(
            image_run(j, outcomes).1,
            |e: ImageEffectView| e is MarkCompleted,
        ),
        count(image_run(j, outcomes).1, |e: ImageEffectView| is_delete(e)) <= 2,
    decreases outcomes.len(),
{
    let v = |e: ImageEffectView| is_image_verdict(e);
    let st = |e: ImageEffectView| is_status(e);
    let cr = |e: ImageEffectView| is_created(e);
    let co = |e: ImageEffectView| e is MarkCompleted;
    let de = |e: ImageEffectView| is_delete(e);
    if j.stage is Finished || outcomes.len() == 0 {
        assert(image_run(j, outcomes).1 =~= Seq::<ImageEffectView>::empty());
        reveal_with_fuel(count, 1);
    } else {
        let (next, now) = image_transition(j, outcomes[0]);
        let (last, later) = image_run(next, outcomes.drop_first());
        lemma_image_step_counts(j, outcomes[0]);
        lemma_image_run_verdict(next, outcomes.drop_first());
        lemma_count_concat(now, later, v);
        lemma_count_concat(now, later, st);
        lemma_count_concat(now, later, cr);
        lemma_count_concat(now, later, co);
        lemma_count_concat(now, later, de);
        if next.stage is Finished {
            assert(later =~= Seq::<ImageEffectView>::empty());
            reveal_with_fuel(count, 1);
        }
    }
}

// ---------------------------------------------------------------------------
// Importing an image into an OverlayBD pool
// ---------------------------------------------------------------------------

/// The description of the job that prepares a VM from an image.
pub fn pull_description(image_ref: &str) -> (r: String)
    ensures
        r@ == "Pulling image "@ + image_ref@,
{
    let mut r = owned("Pulling image ");
    push_str(&mut r, image_ref);
    r
}

/// The description of the job that imports an image into a pool.
pub fn import_description(image_ref: &str, pool_id: u128) -> (r: String)
    ensures
        r@ == "Importing "@ + image_ref@ + " into pool "@ + uuid_text(pool_id),
{
    let mut r = owned("Importing ");
    push_str(&mut r, image_ref);
    push_str(&mut r, " into pool ");
    let t = uuid_string(pool_id);
    push_str(&mut r, t.as_str());
    r
}

/// A request to import an OCI image into an OverlayBD pool.
#[derive(Debug)]
pub struct ImportToPoolRequest {
    /// Human-readable name for the resulting storage object.
    pub name: String,
    /// OCI image reference.
    pub image_ref: String,
}

/// The storage object recorded before an image is imported into a pool:
/// `{"image_ref": ..}` as its configuration.
pub fn import_object(req: ImportToPoolRequest, pool_id: u128) -> (o: NewStorageObject)
    ensures
        o.name@ == req.name@,
        o.storage_pool_id == Some(pool_id),
        o.object_type is OciImage,
        o.size_bytes == 0,
        o.parent_id is None,
        o.config.is_object,
        o.config.fields.len() == 1,
        field_is(o.config.fields@[0], "image_ref"@, Some(req.image_ref@)),
{
    let ImportToPoolRequest { name, image_ref } = req;
    NewStorageObject {
        name,
        storage_pool_id: Some(pool_id),
        object_type: StorageObjectType::OciImage,
        size_bytes: 0,
        config: JsonConfig {
            is_object: true,
            fields: vec![ConfigField { key: owned("image_ref"), text: Some(image_ref), number: None }],
        },
        parent_id: None,
    }
}

/// A pool's work goes to a host attached to it (`host_status`: that host's
/// status, none when no host is attached), which must be up.
pub fn check_pool_host(host_status: Option<crate::model::HostStatus>) -> (r: Result<(), crate::errors::Error>)
    ensures
        host_status is None ==> (r matches Err(e) && crate::errors::is_unprocessable(
            e,
            "No host attached to this storage pool"@,
        )),
        host_status matches Some(s) && !(s is Up) ==> (r matches Err(e) && crate::errors::is_unprocessable(
            e,
            "No UP host attached to this storage pool"@,
        )),
        host_status matches Some(s) && s is Up ==> r is Ok,
{
    match host_status {
        None => Err(crate::errors::unprocessable("No host attached to this storage pool")),
        Some(crate::model::HostStatus::Up) => Ok(()),
        Some(_) => Err(crate::errors::unprocessable("No UP host attached to this storage pool")),
    }
}

/// Where a pool import is.
#[derive(Debug, PartialEq, Eq, Structural)]
pub enum PoolImportStage {
    MarkRunning,
    Import,
    Finished,
}

/// The action of a pool-import step.
#[derive(Debug)]
pub enum PoolImportAction {
    MarkJobRunning,
    ImportImage { image_ref: String, registry_url: String },
}

/// A follow-up effect of a pool-import step.
#[derive(Debug)]
pub enum PoolImportEffect {
    MarkFailed(String),
    /// Replace the object's configuration.
    UpdateObjectConfig(JsonConfig),
    /// Mark the job completed with `{"image_ref", "digest",
    /// "storage_object_id"}` as its result.
    MarkCompleted { image_ref: String, digest: String, storage_object_id: u128 },
    DeleteObject(u128),
}

/// A job importing `image_ref` into an OverlayBD pool whose registry is
/// `registry_url` (when its configuration names one), for the recorded
/// object `object_id`.
#[derive(Debug)]
pub struct PoolImportJob {
    pub stage: PoolImportStage,
    pub object_id: u128,
    pub image_ref: String,
    pub registry_url: Option<String>,
}

impl PoolImportJob {
    pub fn new(object_id: u128, image_ref: String, pool_config: &JsonConfig) -> (j: PoolImportJob)
        requires
            config_wf(*pool_config),
        ensures
            j.stage == PoolImportStage::MarkRunning,
            j.object_id == object_id,
            j.image_ref@ == image_ref@,
            opt_view(j.registry_url) == config_text(*pool_config, "url"@),
    {
        PoolImportJob {
            stage: PoolImportStage::MarkRunning,
            object_id,
            image_ref,
            registry_url: match OverlayBdPoolConfig::from_value(pool_config) {
                Some(c) => Some(c.url),
                None => None,
            },
        }
    }

    /// The action to perform now, none once the job is finished.
    pub fn action(&self) -> (r: Option<PoolImportAction>)
        requires
            self.stage is Import ==> self.registry_url is Some,
        ensures
            self.stage is MarkRunning ==> r matches Some(PoolImportAction::MarkJobRunning),
            self.stage is Import ==> (r matches Some(PoolImportAction::ImportImage { image_ref, registry_url })
                && image_ref@ == self.image_ref@ && opt_view(self.registry_url) == Some(registry_url@)),
            self.stage is Finished ==> r is None,
    {
        match self.stage {
            PoolImportStage::MarkRunning => Some(PoolImportAction::MarkJobRunning),
            PoolImportStage::Import => {
                let registry_url = match &self.registry_url {
                    Some(u) => u.clone(),
                    None => String::new(),
                };
                Some(PoolImportAction::ImportImage { image_ref: self.image_ref.clone(), registry_url })
            },
            PoolImportStage::Finished => None,
        }
    }

    /// Moves the job past its current step given the outcome of its action.
    /// When the job could not be marked running it ends silently; without a
    /// registry it fails; an import that fails deletes the object after the
    /// failure is recorded; one that succeeds records the imported
    /// reference, digest and registry on the object, then completes the job.
    /// An outcome of a kind the step does not expect changes nothing.
    pub fn advance(&mut self, outcome: ImageOutcome) -> (r: Vec<PoolImportEffect>)
        requires
            old(self).stage is Import ==> old(self).registry_url is Some,
        ensures
            final(self).object_id == old(self).object_id,
            final(self).image_ref@ == old(self).image_ref@,
            opt_view(final(self).registry_url) == opt_view(old(self).registry_url),
            final(self).stage is Import ==> final(self).registry_url is Some,
            match (old(self).stage, outcome) {
                (PoolImportStage::MarkRunning, ImageOutcome::Done) => match old(self).registry_url {
                    Some(_) => final(self).stage is Import && r.len() == 0,
                    None => final(self).stage is Finished && r.len() == 1 && (r@[0] matches PoolImportEffect::MarkFailed(m)
                        && m@ == "OverlayBD pool config missing 'url' field"@),
                },
                (PoolImportStage::MarkRunning, ImageOutcome::Failed(_)) => final(self).stage is Finished && r.len() == 0,
                (PoolImportStage::Import, ImageOutcome::Imported { image_ref, digest }) => {
                    &&& final(self).stage is Finished
                    &&& r.len() == 2
                    &&& r@[0] matches PoolImportEffect::UpdateObjectConfig(c) && {
                        &&& c.is_object
                        &&& c.fields.len() == 3
                        &&& field_is(c.fields@[0], "image_ref"@, Some(image_ref@))
                        &&& field_is(c.fields@[1], "digest"@, Some(digest@))
                        &&& field_is(c.fields@[2], "registry_url"@, opt_view(old(self).registry_url))
                    }
                    &&& r@[1] matches PoolImportEffect::MarkCompleted { image_ref: ir, digest: d, storage_object_id }
                        && ir@ == image_ref@ && d@ == digest@ && storage_object_id == old(self).object_id
                },
                (PoolImportStage::Import, ImageOutcome::Failed(e)) => {
                    &&& final(self).stage is Finished
                    &&& r.len() == 2
                    &&& r@[0] matches PoolImportEffect::MarkFailed(m) && m@ == "Failed to import OverlayBD image: "@ + e@
                    &&& r@[1] matches PoolImportEffect::DeleteObject(id) && id == old(self).object_id
                },
                _ => final(self).stage == old(self).stage && r.len() == 0,
            },
    {
        let mut out: Vec<PoolImportEffect> = Vec::new();
        match self.stage {
            PoolImportStage::MarkRunning => match outcome {
                ImageOutcome::Done => {
                    if self.registry_url.is_some() {
                        self.stage = PoolImportStage::Import;
                    } else {
                        self.stage = PoolImportStage::Finished;
                        out.push(PoolImportEffect::MarkFailed(owned("OverlayBD pool config missing 'url' field")));
                    }
                },
                ImageOutcome::Failed(_) => {
                    self.stage = PoolImportStage::Finished;
                },
                _ => {},
            },
            PoolImportStage::Import => match outcome {
                ImageOutcome::Imported { image_ref, digest } => {
                    self.stage = PoolImportStage::Finished;
                    let fields = vec![
                        ConfigField { key: owned("image_ref"), text: Some(image_ref.clone()), number: None },
                        ConfigField { key: owned("digest"), text: Some(digest.clone()), number: None },
                        ConfigField { key: owned("registry_url"), text: clone_opt(&self.registry_url), number: None },
                    ];
                    out.push(PoolImportEffect::UpdateObjectConfig(JsonConfig { is_object: true, fields }));
                    out.push(PoolImportEffect::MarkCompleted { image_ref, digest, storage_object_id: self.object_id });
                },
                ImageOutcome::Failed(e) => {
                    self.stage = PoolImportStage::Finished;
                    let mut m = owned("Failed to import OverlayBD image: ");
                    push_str(&mut m, e.as_str());
                    out.push(PoolImportEffect::MarkFailed(m));
                    out.push(PoolImportEffect::DeleteObject(self.object_id));
                },
                _ => {},
            },
            PoolImportStage::Finished => {},
        }
        out
    }
}

} // verus!
