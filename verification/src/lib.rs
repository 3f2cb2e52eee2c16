//! The decisions of the qarax control plane, which manages virtual machines
//! on Cloud Hypervisor hosts: which requests are accepted and with what
//! answer, how VMs are placed, configured and moved, and the background
//! jobs (starting, migrating, evacuating, failing over, preparing images)
//! as state machines whose steps the caller carries out.
use vstd::prelude::*;

pub mod ansible;
pub mod auth;
pub mod backup;
pub mod config;
pub mod cpu_list;
pub mod deploy;
pub mod devices;
pub mod errors;
pub mod evacuation;
pub mod ha;
pub mod hooks;
pub mod host_init;
pub mod ids;
pub mod image_jobs;
pub mod ipv4;
pub mod jobs;
pub mod model;
pub mod sandbox;
pub mod scheduling;
pub mod storage;
pub mod text;
pub mod vm_create;
pub mod vm_ops;
pub mod vm_request;

verus! {

} // verus!
