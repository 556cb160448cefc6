//! The lifecycle operations, each a fixed sequence of requests.
//!
//! A [`Session`] runs one operation. It names the next request for the caller
//! to perform, takes the reply and either names the next request or ends with
//! the operation's result. Nothing is retried: the first failure ends the
//! operation. Every operation on a VM, a disk or a container first loads the
//! VM component and starts the VM service.

use vstd::prelude::*;

use crate::disk::{disk_size_for, disk_size_spec, lemma_disk_size_aligned};
use crate::error::{BusError, ChromeOSError};
use crate::export::{
    confined_to_spec, export_parts_valid, export_parts_valid_spec, export_path, export_path_spec,
    export_root_spec, has_parent_component, has_parent_component_spec, lemma_export_path_under_root,
};
use crate::status::{
    ContainerCreatedStatus, CreateContainerStatus, DiskImageStatus, SetupUserStatus,
    StartContainerStatus, VmStatus,
};
use crate::replies::{
    component_load_result, concierge_start_result, container_created_signal_result,
    create_container_result, create_disk_result, destroy_disk_result, export_disk_result,
    free_space_result, list_disks_result, narrow_handle, setup_user_result, share_path_result,
    shared_path_spec, start_container_result, start_vm_result, stop_vm_result, vm_info_result,
    Progress,
};

verus! {

/// The platform component that holds the VM images.
pub const TERMINA_COMPONENT: &'static str = "cros-termina";

/// Default budget for a reply or a signal, in milliseconds.
pub const DEFAULT_TIMEOUT_MS: i32 = 80000;

/// Budget for a disk export, which may take minutes, in milliseconds.
pub const EXPORT_DISK_TIMEOUT_MS: i32 = 900000;

/// Budget for loading the VM component, in milliseconds.
pub const COMPONENT_UPDATER_TIMEOUT_MS: i32 = 120000;

/// Budget for starting the VM service, in milliseconds.
pub const START_CONCIERGE_TIMEOUT_MS: i32 = 30000;

/// A lifecycle operation and its arguments.
#[derive(PartialEq, Eq, Clone, Debug)]
pub enum Operation {
    VmStart { vm_name: String, user_id_hash: String },
    VmStop { vm_name: String, user_id_hash: String },
    VmExport {
        vm_name: String,
        user_id_hash: String,
        export_name: String,
        removable_media: Option<String>,
    },
    VmSharePath { vm_name: String, user_id_hash: String, path: String },
    DiskDestroy { vm_name: String, user_id_hash: String },
    DiskList { user_id_hash: String },
    ContainerCreate {
        vm_name: String,
        user_id_hash: String,
        container_name: String,
        image_server: String,
        image_alias: String,
    },
    ContainerStart { vm_name: String, user_id_hash: String, container_name: String },
    ContainerSetupUser {
        vm_name: String,
        user_id_hash: String,
        container_name: String,
        username: String,
    },
}

/// Format of a disk image to create.
#[derive(PartialEq, Eq, Structural, Clone, Copy, Debug)]
pub enum DiskImageKind {
    /// Let the VM service pick the format.
    Auto,
}

/// Where the VM service keeps a user's disk images.
#[derive(PartialEq, Eq, Structural, Clone, Copy, Debug)]
pub enum DiskStorage {
    /// The root of the user's encrypted home.
    CryptohomeRoot,
}

/// Which of the user's directories a shared path is taken from.
#[derive(PartialEq, Eq, Structural, Clone, Copy, Debug)]
pub enum ShareLocation {
    Downloads,
}

/// A request for the caller to perform.
#[derive(PartialEq, Eq, Clone, Debug)]
pub enum Request {
    /// Ask the component loader to mount `name`.
    LoadComponent { name: String },
    /// Ask the debug daemon to start the VM service.
    StartConcierge,
    /// Measure the free space of the root filesystem.
    GetFreeDiskSpace,
    CreateDiskImage {
        vm_name: String,
        user_id_hash: String,
        disk_size: u64,
        image_type: DiskImageKind,
        storage: DiskStorage,
    },
    /// Start the VM with the disk at `disk_path` attached.
    StartVm {
        vm_name: String,
        user_id_hash: String,
        disk_path: String,
        start_termina: bool,
        writable: bool,
        do_mount: bool,
    },
    StopVm { vm_name: String, user_id_hash: String },
    /// Tell whether something exists at `path`.
    ProbeExportTarget { path: String },
    /// Create `path` exclusively, readable and writable by its owner alone,
    /// and send its descriptor with the export request.
    ExportDiskImage { vm_name: String, user_id_hash: String, path: String },
    DestroyDiskImage { vm_name: String, user_id_hash: String, storage: DiskStorage },
    ListVmDisks { user_id_hash: String, storage: DiskStorage },
    GetVmInfo { vm_name: String, user_id_hash: String },
    SharePath { handle: u32, user_id_hash: String, path: String, storage: ShareLocation },
    CreateContainer {
        vm_name: String,
        user_id_hash: String,
        container_name: String,
        image_server: String,
        image_alias: String,
    },
    /// Wait for the container-created signal.
    AwaitContainerCreated,
    StartContainer { vm_name: String, user_id_hash: String, container_name: String },
    /// Wait for the container-started signal.
    AwaitContainerStarted,
    SetupContainerUser {
        vm_name: String,
        user_id_hash: String,
        container_name: String,
        username: String,
    },
}

impl Request {
    /// The request goes over the bus (the two local probes do not).
    pub open spec fn is_bus_call(&self) -> bool {
        !(self is GetFreeDiskSpace || self is ProbeExportTarget)
    }

    /// How long the caller waits for the reply, in milliseconds.
    pub fn timeout_ms(&self) -> (r: i32)
        ensures
            r == (match self {
                Request::LoadComponent { .. } => COMPONENT_UPDATER_TIMEOUT_MS,
                Request::StartConcierge => START_CONCIERGE_TIMEOUT_MS,
                Request::ExportDiskImage { .. } => EXPORT_DISK_TIMEOUT_MS,
                _ => DEFAULT_TIMEOUT_MS,
            }),
    {
        match self {
            Request::LoadComponent { .. } => COMPONENT_UPDATER_TIMEOUT_MS,
            Request::StartConcierge => START_CONCIERGE_TIMEOUT_MS,
            Request::ExportDiskImage { .. } => EXPORT_DISK_TIMEOUT_MS,
            _ => DEFAULT_TIMEOUT_MS,
        }
    }
}

/// The caller's report on a performed request.
#[derive(Debug)]
pub enum Reply {
    /// The mount path of the loaded component, if the reply held a string.
    ComponentLoaded(Option<String>),
    /// The service starter's answer, if the reply held a boolean.
    ConciergeStarted(Option<bool>),
    /// Free bytes, or the error number of the failed measurement.
    FreeDiskSpace(Result<u64, i32>),
    /// Reply to a disk image creation, destruction or export.
    DiskImage { status: DiskImageStatus, disk_path: String, failure_reason: String },
    VmStarted { success: bool, status: VmStatus, failure_reason: String },
    VmStopped { success: bool, failure_reason: String },
    /// Whether something exists at the export target.
    ExportTarget { exists: bool },
    /// The exclusive creation of the export target found it already there.
    ExportTargetTaken,
    DiskList { success: bool, images: Vec<String>, total_size: u64, failure_reason: String },
    /// The file-sharing server handle, zero where the reply held no VM info.
    VmInfo { success: bool, seneschal_handle: u64 },
    PathShared { success: bool, path: String, failure_reason: String },
    ContainerCreate { status: CreateContainerStatus, failure_reason: String },
    ContainerCreatedSignal { status: ContainerCreatedStatus, failure_reason: String },
    ContainerStart { status: StartContainerStatus, failure_reason: String },
    ContainerStartedSignal,
    SetupUser { status: SetupUserStatus, failure_reason: String },
    /// The request failed on the bus.
    BusFailed(BusError),
}

/// What a successful operation returns.
#[derive(PartialEq, Eq, Clone, Debug)]
pub enum Outcome {
    Unit,
    /// The path, as the caller sees it, of a path shared with the VM.
    SharedPath(String),
    /// The disk images of a user and their total size.
    Disks(Vec<String>, u64),
}

/// What the caller does next.
#[derive(PartialEq, Eq, Debug)]
pub enum Step {
    Call(Request),
    Done(Result<Outcome, ChromeOSError>),
}

/// Where an operation stands: the request it waits on the reply of.
#[derive(PartialEq, Eq, Structural, Clone, Copy, Debug)]
pub enum Stage {
    LoadComponent,
    StartConcierge,
    FreeSpace,
    CreateDisk,
    StartVm,
    StopVm,
    ProbeExport,
    Export,
    Destroy,
    List,
    VmInfo,
    Share,
    CreateContainer,
    AwaitCreated,
    StartContainer,
    AwaitStarted,
    SetupUser,
    Finished,
}

/// One operation in progress.
pub struct Session {
    op: Operation,
    stage: Stage,
    target: String,
    component: String,
}

/// The paths of an optional removable medium.
pub open spec fn media_view(removable_media: Option<String>) -> Option<Seq<char>> {
    match removable_media {
        Some(m) => Some(m@),
        None => None,
    }
}

/// A step that ends the operation with `e`.
pub open spec fn fail(e: ChromeOSError) -> (Stage, Step) {
    (Stage::Finished, Step::Done(Err(e)))
}

/// A step that ends the operation successfully with nothing to return.
pub open spec fn succeed() -> (Stage, Step) {
    (Stage::Finished, Step::Done(Ok(Outcome::Unit)))
}

/// The first request of `op` once the VM service runs; `target` is the
/// export destination.
pub open spec fn service_ready_spec(op: Operation, target: String) -> (Stage, Step) {
    match op {
        Operation::VmStart { .. } => (Stage::FreeSpace, Step::Call(Request::GetFreeDiskSpace)),
        Operation::VmStop { vm_name, user_id_hash } => (
            Stage::StopVm,
            Step::Call(Request::StopVm { vm_name, user_id_hash }),
        ),
        Operation::VmExport { vm_name, user_id_hash, .. } => (
            Stage::Export,
            Step::Call(Request::ExportDiskImage { vm_name, user_id_hash, path: target }),
        ),
        Operation::VmSharePath { vm_name, user_id_hash, .. } => (
            Stage::VmInfo,
            Step::Call(Request::GetVmInfo { vm_name, user_id_hash }),
        ),
        Operation::DiskDestroy { vm_name, user_id_hash } => (
            Stage::Destroy,
            Step::Call(Request::DestroyDiskImage {
                vm_name,
                user_id_hash,
                storage: DiskStorage::CryptohomeRoot,
            }),
        ),
        Operation::DiskList { user_id_hash } => (
            Stage::List,
            Step::Call(Request::ListVmDisks { user_id_hash, storage: DiskStorage::CryptohomeRoot }),
        ),
        Operation::ContainerCreate {
            vm_name,
            user_id_hash,
            container_name,
            image_server,
            image_alias,
        } => (
            Stage::CreateContainer,
            Step::Call(
                Request::CreateContainer {
                    vm_name,
                    user_id_hash,
                    container_name,
                    image_server,
                    image_alias,
                },
            ),
        ),
        Operation::ContainerStart { vm_name, user_id_hash, container_name } => (
            Stage::StartContainer,
            Step::Call(Request::StartContainer { vm_name, user_id_hash, container_name }),
        ),
        Operation::ContainerSetupUser { vm_name, user_id_hash, container_name, username } => (
            Stage::SetupUser,
            Step::Call(
                Request::SetupContainerUser { vm_name, user_id_hash, container_name, username },
            ),
        ),
    }
}

/// The transition table: the stage and step that follow `reply` in stage
/// `stage` of `op`. A successful share is the one transition not listed here:
/// its result is a path composed from the reply (see [`Session::advance`]).
pub open spec fn next_spec(
    op: Operation,
    stage: Stage,
    target: String,
    component: String,
    reply: Reply,
) -> (Stage, Step) {
    match (stage, reply) {
        (Stage::Finished, _) => fail(ChromeOSError::UnexpectedReply),
        (_, Reply::BusFailed(e)) => fail(ChromeOSError::Bus(e)),
        (Stage::LoadComponent, Reply::ComponentLoaded(mount)) => if mount is Some
            && mount->Some_0@.len() > 0 {
            (Stage::StartConcierge, Step::Call(Request::StartConcierge))
        } else {
            fail(ChromeOSError::FailedComponentUpdater(component))
        },
        (Stage::StartConcierge, Reply::ConciergeStarted(started)) => if started == Some(true) {
            service_ready_spec(op, target)
        } else {
            fail(ChromeOSError::BadConciergeStatus)
        },
        (Stage::FreeSpace, Reply::FreeDiskSpace(Err(errno))) => fail(
            ChromeOSError::FailedGetFreeDiskSpace(errno),
        ),
        (Stage::FreeSpace, Reply::FreeDiskSpace(Ok(free))) => match op {
            Operation::VmStart { vm_name, user_id_hash } => (
                Stage::CreateDisk,
                Step::Call(
                    Request::CreateDiskImage {
                        vm_name,
                        user_id_hash,
                        disk_size: disk_size_spec(free as nat) as u64,
                        image_type: DiskImageKind::Auto,
                        storage: DiskStorage::CryptohomeRoot,
                    },
                ),
            ),
            _ => fail(ChromeOSError::UnexpectedReply),
        },
        (Stage::CreateDisk, Reply::DiskImage { status, disk_path, failure_reason }) => match op {
            Operation::VmStart { vm_name, user_id_hash } => if status == DiskImageStatus::Created
                || status == DiskImageStatus::Exists {
                (
                    Stage::StartVm,
                    Step::Call(Request::StartVm {
                        vm_name,
                        user_id_hash,
                        disk_path,
                        start_termina: true,
                        writable: true,
                        do_mount: false,
                    }),
                )
            } else {
                fail(ChromeOSError::BadDiskImageStatus(status, failure_reason))
            },
            _ => fail(ChromeOSError::UnexpectedReply),
        },
        (Stage::StartVm, Reply::VmStarted { success, status, failure_reason }) => if success
            || status == VmStatus::Running || status == VmStatus::Starting {
            succeed()
        } else {
            fail(ChromeOSError::BadVmStatus(status, failure_reason))
        },
        (Stage::StopVm, Reply::VmStopped { success, failure_reason }) => match op {
            Operation::VmStop { vm_name, .. } => if success {
                succeed()
            } else {
                fail(ChromeOSError::FailedStopVm { vm_name, reason: failure_reason })
            },
            _ => fail(ChromeOSError::UnexpectedReply),
        },
        (Stage::ProbeExport, Reply::ExportTarget { exists }) => if exists {
            fail(ChromeOSError::ExportPathExists)
        } else {
            (Stage::LoadComponent, Step::Call(Request::LoadComponent { name: component }))
        },
        (Stage::Export, Reply::ExportTargetTaken) => fail(ChromeOSError::ExportPathExists),
        (Stage::Export, Reply::DiskImage { status, failure_reason, .. }) => if status
            == DiskImageStatus::Created {
            succeed()
        } else {
            fail(ChromeOSError::BadDiskImageStatus(status, failure_reason))
        },
        (Stage::Destroy, Reply::DiskImage { status, failure_reason, .. }) => if status
            == DiskImageStatus::Destroyed || status == DiskImageStatus::DoesNotExist {
            succeed()
        } else {
            fail(ChromeOSError::BadDiskImageStatus(status, failure_reason))
        },
        (Stage::List, Reply::DiskList { success, images, total_size, failure_reason }) => if success {
            (Stage::Finished, Step::Done(Ok(Outcome::Disks(images, total_size))))
        } else {
            fail(ChromeOSError::FailedListDiskImages(failure_reason))
        },
        (Stage::VmInfo, Reply::VmInfo { success, seneschal_handle }) => match op {
            Operation::VmSharePath { user_id_hash, path, .. } => if !success {
                fail(ChromeOSError::FailedGetVmInfo)
            } else if seneschal_handle > u32::MAX {
                fail(ChromeOSError::HandleOverflow(seneschal_handle))
            } else {
                (
                    Stage::Share,
                    Step::Call(
                        Request::SharePath {
                            handle: seneschal_handle as u32,
                            user_id_hash,
                            path,
                            storage: ShareLocation::Downloads,
                        },
                    ),
                )
            },
            _ => fail(ChromeOSError::UnexpectedReply),
        },
        (Stage::Share, Reply::PathShared { success, failure_reason, .. }) => if success {
            (Stage::Finished, Step::Done(Ok(Outcome::Unit)))
        } else {
            fail(ChromeOSError::FailedSharePath(failure_reason))
        },
        (Stage::CreateContainer, Reply::ContainerCreate { status, failure_reason }) => match status {
            CreateContainerStatus::Creating => (
                Stage::AwaitCreated,
                Step::Call(Request::AwaitContainerCreated),
            ),
            CreateContainerStatus::Exists => succeed(),
            _ => fail(ChromeOSError::FailedCreateContainer(status, failure_reason)),
        },
        (Stage::AwaitCreated, Reply::ContainerCreatedSignal { status, failure_reason }) => if status
            == ContainerCreatedStatus::Created {
            succeed()
        } else {
            fail(ChromeOSError::FailedCreateContainerSignal(status, failure_reason))
        },
        (Stage::StartContainer, Reply::ContainerStart { status, failure_reason }) => match status {
            StartContainerStatus::Started => (
                Stage::AwaitStarted,
                Step::Call(Request::AwaitContainerStarted),
            ),
            StartContainerStatus::Running => succeed(),
            _ => fail(ChromeOSError::FailedStartContainerStatus(status, failure_reason)),
        },
        (Stage::AwaitStarted, Reply::ContainerStartedSignal) => succeed(),
        (Stage::SetupUser, Reply::SetupUser { status, failure_reason }) => if status
            == SetupUserStatus::Success || status == SetupUserStatus::Exists {
            succeed()
        } else {
            fail(ChromeOSError::FailedSetupContainerUser(status, failure_reason))
        },
        _ => fail(ChromeOSError::UnexpectedReply),
    }
}

impl Session {
    pub closed spec fn op(&self) -> Operation {
        self.op
    }

    pub closed spec fn stage(&self) -> Stage {
        self.stage
    }

    /// The export destination; empty for the other operations.
    pub closed spec fn target(&self) -> String {
        self.target
    }

    /// The component that is loaded before the VM service starts.
    pub closed spec fn component(&self) -> String {
        self.component
    }

    pub open spec fn is_finished(&self) -> bool {
        self.stage() is Finished
    }

    /// Tells whether the operation has ended.
    pub fn finished(&self) -> (r: bool)
        ensures
            r == self.is_finished(),
    {
        match self.stage {
            Stage::Finished => true,
            _ => false,
        }
    }

    /// Starts `op`. An export ends at once, with no request, when its name or
    /// medium is absolute, when its owner hash is not one plain component, or
    /// when its destination has a parent-directory component; otherwise its
    /// destination lies under the removable-media root or the owner's
    /// downloads, and the export first asks whether it exists. Every other
    /// operation first loads the VM component.
    pub fn begin(op: Operation) -> (r: (Session, Step))
        ensures
            r.0.op() == op,
            r.0.component()@ == TERMINA_COMPONENT@,
            (match op {
                Operation::VmExport { user_id_hash, export_name, removable_media, .. } => {
                    &&& r.0.target()@ == export_path_spec(
                        user_id_hash@,
                        export_name@,
                        media_view(removable_media),
                    )
                    &&& if export_parts_valid_spec(
                        user_id_hash@,
                        export_name@,
                        media_view(removable_media),
                    ) && !has_parent_component_spec(r.0.target()@) {
                        &&& (r.0.stage(), r.1) == (
                            Stage::ProbeExport,
                            Step::Call(Request::ProbeExportTarget { path: r.0.target() }),
                        )
                        &&& confined_to_spec(
                            r.0.target()@,
                            export_root_spec(user_id_hash@, media_view(removable_media)),
                        )
                    } else {
                        (r.0.stage(), r.1) == fail(ChromeOSError::InvalidExportPath)
                    }
                },
                _ => (r.0.stage(), r.1) == (
                    Stage::LoadComponent,
                    Step::Call(Request::LoadComponent { name: r.0.component() }),
                ),
            }),
    {
        let component = String::from_str(TERMINA_COMPONENT);
        match &op {
            Operation::VmExport { user_id_hash, export_name, removable_media, .. } => {
                let media = match removable_media {
                    Some(m) => Some(m.as_str()),
                    None => None,
                };
                let target = export_path(user_id_hash.as_str(), export_name.as_str(), media);
                let valid = export_parts_valid(user_id_hash.as_str(), export_name.as_str(), media);
                if !valid || has_parent_component(target.as_str()) {
                    let session = Session { op, stage: Stage::Finished, target, component };
                    (session, Step::Done(Err(ChromeOSError::InvalidExportPath)))
                } else {
                    proof {
                        lemma_export_path_under_root(
                            user_id_hash@,
                            export_name@,
                            media_view(*removable_media),
                        );
                    }
                    let step = Step::Call(Request::ProbeExportTarget { path: target.clone() });
                    (Session { op, stage: Stage::ProbeExport, target, component }, step)
                }
            },
            _ => {
                let step = Step::Call(Request::LoadComponent { name: component.clone() });
                let target = String::new();
                (Session { op, stage: Stage::LoadComponent, target, component }, step)
            },
        }
    }

    /// The first request of the operation once the VM service runs.
    fn service_ready(&self) -> (r: (Stage, Step))
        ensures
            r == service_ready_spec(self.op(), self.target()),
    {
        match &self.op {
            Operation::VmStart { .. } => (Stage::FreeSpace, Step::Call(Request::GetFreeDiskSpace)),
            Operation::VmStop { vm_name, user_id_hash } => (
                Stage::StopVm,
                Step::Call(
                    Request::StopVm { vm_name: vm_name.clone(), user_id_hash: user_id_hash.clone() },
                ),
            ),
            Operation::VmExport { vm_name, user_id_hash, .. } => (
                Stage::Export,
                Step::Call(
                    Request::ExportDiskImage {
                        vm_name: vm_name.clone(),
                        user_id_hash: user_id_hash.clone(),
                        path: self.target.clone(),
                    },
                ),
            ),
            Operation::VmSharePath { vm_name, user_id_hash, .. } => (
                Stage::VmInfo,
                Step::Call(
                    Request::GetVmInfo {
                        vm_name: vm_name.clone(),
                        user_id_hash: user_id_hash.clone(),
                    },
                ),
            ),
            Operation::DiskDestroy { vm_name, user_id_hash } => (
                Stage::Destroy,
                Step::Call(
                    Request::DestroyDiskImage {
                        vm_name: vm_name.clone(),
                        user_id_hash: user_id_hash.clone(),
                        storage: DiskStorage::CryptohomeRoot,
                    },
                ),
            ),
            Operation::DiskList { user_id_hash } => (
                Stage::List,
                Step::Call(Request::ListVmDisks {
                        user_id_hash: user_id_hash.clone(),
                        storage: DiskStorage::CryptohomeRoot,
                    }),
            ),
            Operation::ContainerCreate {
                vm_name,
                user_id_hash,
                container_name,
                image_server,
                image_alias,
            } => (
                Stage::CreateContainer,
                Step::Call(
                    Request::CreateContainer {
                        vm_name: vm_name.clone(),
                        user_id_hash: user_id_hash.clone(),
                        container_name: container_name.clone(),
                        image_server: image_server.clone(),
                        image_alias: image_alias.clone(),
                    },
                ),
            ),
            Operation::ContainerStart { vm_name, user_id_hash, container_name } => (
                Stage::StartContainer,
                Step::Call(
                    Request::StartContainer {
                        vm_name: vm_name.clone(),
                        user_id_hash: user_id_hash.clone(),
                        container_name: container_name.clone(),
                    },
                ),
            ),
            Operation::ContainerSetupUser { vm_name, user_id_hash, container_name, username } => (
                Stage::SetupUser,
                Step::Call(
                    Request::SetupContainerUser {
                        vm_name: vm_name.clone(),
                        user_id_hash: user_id_hash.clone(),
                        container_name: container_name.clone(),
                        username: username.clone(),
                    },
                ),
            ),
        }
    }

    /// Takes the reply to the last request and says what to do next; the
    /// operation's result ends it.
    pub fn advance(&mut self, reply: Reply) -> (r: Step)
        ensures
            final(self).op() == old(self).op(),
            final(self).target() == old(self).target(),
            final(self).component() == old(self).component(),
            (match (old(self).stage(), reply) {
                (Stage::Share, Reply::PathShared { success: true, path, .. }) => {
                    &&& final(self).is_finished()
                    &&& r matches Step::Done(Ok(Outcome::SharedPath(p)))
                    &&& p@ == shared_path_spec(path@)
                },
                _ => (final(self).stage(), r) == next_spec(
                    old(self).op(),
                    old(self).stage(),
                    old(self).target(),
                    old(self).component(),
                    reply,
                ),
            }),
    {
        let (stage, step) = self.transition(reply);
        self.stage = stage;
        step
    }

    fn transition(&self, reply: Reply) -> (r: (Stage, Step))
        ensures
            (match (self.stage(), reply) {
                (Stage::Share, Reply::PathShared { success: true, path, .. }) => {
                    &&& r.0 is Finished
                    &&& r.1 matches Step::Done(Ok(Outcome::SharedPath(p)))
                    &&& p@ == shared_path_spec(path@)
                },
                _ => r == next_spec(
                    self.op(),
                    self.stage(),
                    self.target(),
                    self.component(),
                    reply,
                ),
            }),
    {
        if let Stage::Finished = self.stage {
            return (Stage::Finished, Step::Done(Err(ChromeOSError::UnexpectedReply)));
        }
        match reply {
            Reply::BusFailed(e) => (Stage::Finished, Step::Done(Err(ChromeOSError::Bus(e)))),
            Reply::ComponentLoaded(mount) => match self.stage {
                Stage::LoadComponent => match component_load_result(&self.component, mount) {
                    Ok(()) => (Stage::StartConcierge, Step::Call(Request::StartConcierge)),
                    Err(e) => (Stage::Finished, Step::Done(Err(e))),
                },
                _ => unexpected(),
            },
            Reply::ConciergeStarted(started) => match self.stage {
                Stage::StartConcierge => match concierge_start_result(started) {
                    Ok(()) => self.service_ready(),
                    Err(e) => (Stage::Finished, Step::Done(Err(e))),
                },
                _ => unexpected(),
            },
            Reply::FreeDiskSpace(free) => match (self.stage, &self.op) {
                (Stage::FreeSpace, Operation::VmStart { vm_name, user_id_hash }) => match free_space_result(free) {
                    Ok(free) => (
                        Stage::CreateDisk,
                        Step::Call(
                            Request::CreateDiskImage {
                                vm_name: vm_name.clone(),
                                user_id_hash: user_id_hash.clone(),
                                disk_size: disk_size_for(free),
                                image_type: DiskImageKind::Auto,
                                storage: DiskStorage::CryptohomeRoot,
                            },
                        ),
                    ),
                    Err(e) => (Stage::Finished, Step::Done(Err(e))),
                },
                (Stage::FreeSpace, _) => match free {
                    Ok(_) => unexpected(),
                    Err(errno) => (
                        Stage::Finished,
                        Step::Done(Err(ChromeOSError::FailedGetFreeDiskSpace(errno))),
                    ),
                },
                _ => unexpected(),
            },
            Reply::DiskImage { status, disk_path, failure_reason } => match self.stage {
                Stage::CreateDisk => match &self.op {
                    Operation::VmStart { vm_name, user_id_hash } => match create_disk_result(
                        status,
                        disk_path,
                        failure_reason,
                    ) {
                        Ok(disk_path) => (
                            Stage::StartVm,
                            Step::Call(
                                Request::StartVm {
                                    vm_name: vm_name.clone(),
                                    user_id_hash: user_id_hash.clone(),
                                    disk_path,
                                    start_termina: true,
                                    writable: true,
                                    do_mount: false,
                                },
                            ),
                        ),
                        Err(e) => (Stage::Finished, Step::Done(Err(e))),
                    },
                    _ => unexpected(),
                },
                Stage::Export => finish_unit(export_disk_result(status, failure_reason)),
                Stage::Destroy => finish_unit(destroy_disk_result(status, failure_reason)),
                _ => unexpected(),
            },
            Reply::VmStarted { success, status, failure_reason } => match self.stage {
                Stage::StartVm => finish_unit(start_vm_result(success, status, failure_reason)),
                _ => unexpected(),
            },
            Reply::VmStopped { success, failure_reason } => match (self.stage, &self.op) {
                (Stage::StopVm, Operation::VmStop { vm_name, .. }) => finish_unit(
                    stop_vm_result(vm_name, success, failure_reason),
                ),
                _ => unexpected(),
            },
            Reply::ExportTarget { exists } => match self.stage {
                Stage::ProbeExport => if exists {
                    (Stage::Finished, Step::Done(Err(ChromeOSError::ExportPathExists)))
                } else {
                    (
                        Stage::LoadComponent,
                        Step::Call(Request::LoadComponent { name: self.component.clone() }),
                    )
                },
                _ => unexpected(),
            },
            Reply::ExportTargetTaken => match self.stage {
                Stage::Export => (Stage::Finished, Step::Done(Err(ChromeOSError::ExportPathExists))),
                _ => unexpected(),
            },
            Reply::DiskList { success, images, total_size, failure_reason } => match self.stage {
                Stage::List => match list_disks_result(success, images, total_size, failure_reason) {
                    Ok((images, total_size)) => (
                        Stage::Finished,
                        Step::Done(Ok(Outcome::Disks(images, total_size))),
                    ),
                    Err(e) => (Stage::Finished, Step::Done(Err(e))),
                },
                _ => unexpected(),
            },
            Reply::VmInfo { success, seneschal_handle } => match (self.stage, &self.op) {
                (Stage::VmInfo, Operation::VmSharePath { user_id_hash, path, .. }) => {
                    let handle = match vm_info_result(success, seneschal_handle) {
                        Ok(h) => h,
                        Err(e) => return (Stage::Finished, Step::Done(Err(e))),
                    };
                    match narrow_handle(handle) {
                        Ok(handle) => (
                            Stage::Share,
                            Step::Call(
                                Request::SharePath {
                                    handle,
                                    user_id_hash: user_id_hash.clone(),
                                    path: path.clone(),
                                    storage: ShareLocation::Downloads,
                                },
                            ),
                        ),
                        Err(e) => (Stage::Finished, Step::Done(Err(e))),
                    }
                },
                _ => unexpected(),
            },
            Reply::PathShared { success, path, failure_reason } => match self.stage {
                Stage::Share => match share_path_result(success, path, failure_reason) {
                    Ok(p) => (Stage::Finished, Step::Done(Ok(Outcome::SharedPath(p)))),
                    Err(e) => (Stage::Finished, Step::Done(Err(e))),
                },
                _ => unexpected(),
            },
            Reply::ContainerCreate { status, failure_reason } => match self.stage {
                Stage::CreateContainer => match create_container_result(status, failure_reason) {
                    Ok(Progress::AwaitSignal) => (
                        Stage::AwaitCreated,
                        Step::Call(Request::AwaitContainerCreated),
                    ),
                    Ok(Progress::Done) => (Stage::Finished, Step::Done(Ok(Outcome::Unit))),
                    Err(e) => (Stage::Finished, Step::Done(Err(e))),
                },
                _ => unexpected(),
            },
            Reply::ContainerCreatedSignal { status, failure_reason } => match self.stage {
                Stage::AwaitCreated => finish_unit(
                    container_created_signal_result(status, failure_reason),
                ),
                _ => unexpected(),
            },
            Reply::ContainerStart { status, failure_reason } => match self.stage {
                Stage::StartContainer => match start_container_result(status, failure_reason) {
                    Ok(Progress::AwaitSignal) => (
                        Stage::AwaitStarted,
                        Step::Call(Request::AwaitContainerStarted),
                    ),
                    Ok(Progress::Done) => (Stage::Finished, Step::Done(Ok(Outcome::Unit))),
                    Err(e) => (Stage::Finished, Step::Done(Err(e))),
                },
                _ => unexpected(),
            },
            Reply::ContainerStartedSignal => match self.stage {
                Stage::AwaitStarted => (Stage::Finished, Step::Done(Ok(Outcome::Unit))),
                _ => unexpected(),
            },
            Reply::SetupUser { status, failure_reason } => match self.stage {
                Stage::SetupUser => finish_unit(setup_user_result(status, failure_reason)),
                _ => unexpected(),
            },
        }
    }
}

/// Ends the operation on a reply that does not fit its stage.
fn unexpected() -> (r: (Stage, Step))
    ensures
        r == fail(ChromeOSError::UnexpectedReply),
{
    (Stage::Finished, Step::Done(Err(ChromeOSError::UnexpectedReply)))
}

/// Ends the operation with `result`, which returns nothing on success.
fn finish_unit(result: Result<(), ChromeOSError>) -> (r: (Stage, Step))
    ensures
        r == (match result {
            Ok(()) => succeed(),
            Err(e) => fail(e),
        }),
{
    match result {
        Ok(()) => (Stage::Finished, Step::Done(Ok(Outcome::Unit))),
        Err(e) => (Stage::Finished, Step::Done(Err(e))),
    }
}

/// Disk creation goes on to start the VM exactly when the disk was created or
/// already existed; any other status ends the operation with that status and
/// reason.
pub proof fn lemma_disk_creation_status(
    vm_name: String,
    user_id_hash: String,
    target: String,
    component: String,
    status: DiskImageStatus,
    disk_path: String,
    failure_reason: String,
)
    ensures
        ({
            let op = Operation::VmStart { vm_name, user_id_hash };
            let reply = Reply::DiskImage { status, disk_path, failure_reason };
            let next = next_spec(op, Stage::CreateDisk, target, component, reply);
            if status == DiskImageStatus::Created || status == DiskImageStatus::Exists {
                next == (
                    Stage::StartVm,
                    Step::Call(Request::StartVm {
                        vm_name,
                        user_id_hash,
                        disk_path,
                        start_termina: true,
                        writable: true,
                        do_mount: false,
                    }),
                )
            } else {
                &&& next == fail(ChromeOSError::BadDiskImageStatus(status, failure_reason))
                &&& ChromeOSError::BadDiskImageStatus(status, failure_reason).is_status_error()
            }
        }),
{
}

/// Starting a VM asks for a disk of nine tenths of the free space rounded
/// down to whole 512-byte blocks, computed over unbounded integers: a
/// multiple of 512, at most nine tenths of the free space.
pub proof fn lemma_vm_start_disk_size(
    vm_name: String,
    user_id_hash: String,
    target: String,
    component: String,
    free: u64,
)
    ensures
        ({
            let op = Operation::VmStart { vm_name, user_id_hash };
            let next = next_spec(op, Stage::FreeSpace, target, component, Reply::FreeDiskSpace(Ok(free)));
            &&& next.0 == Stage::CreateDisk
            &&& next.1 matches Step::Call(Request::CreateDiskImage { disk_size, .. })
            &&& disk_size as int == (free as int * 9 / 10) / 512 * 512
            &&& disk_size % 512 == 0
            &&& disk_size as int * 10 <= free as int * 9
        }),
{
    lemma_disk_size_aligned(free as nat);
    let t = free as int * 9 / 10;
    assert(t <= free) by (nonlinear_arith)
        requires
            t == free as int * 9 / 10,
            free >= 0,
    ;
    assert(t * 10 <= free as int * 9) by (nonlinear_arith)
        requires
            t == free as int * 9 / 10,
    ;
}

/// An export whose destination already exists ends with a path validation
/// error; the only request before it is the local probe of that destination.
pub proof fn lemma_existing_export_target_rejected(op: Operation, target: String, component: String)
    requires
        (op is VmExport),
    ensures
        next_spec(op, Stage::ProbeExport, target, component, (Reply::ExportTarget { exists: true }))
            == fail(ChromeOSError::ExportPathExists),
        ChromeOSError::ExportPathExists.is_path_validation_error(),
        !(Request::ProbeExportTarget { path: target }).is_bus_call(),
        next_spec(op, Stage::Export, target, component, Reply::ExportTargetTaken) == fail(
            ChromeOSError::ExportPathExists,
        ),
{
}

/// Container creation: an existing container is success without a wait; a
/// container being created is waited for, and the signal's own status then
/// decides, a failed one carrying the signal's reason.
pub proof fn lemma_container_create_handshake(
    op: Operation,
    target: String,
    component: String,
    failure_reason: String,
    signal_status: ContainerCreatedStatus,
    signal_reason: String,
)
    ensures
        next_spec(
            op,
            Stage::CreateContainer,
            target,
            component,
            (Reply::ContainerCreate { status: CreateContainerStatus::Exists, failure_reason }),
        ) == succeed(),
        next_spec(
            op,
            Stage::CreateContainer,
            target,
            component,
            (Reply::ContainerCreate { status: CreateContainerStatus::Creating, failure_reason }),
        ) == (Stage::AwaitCreated, Step::Call(Request::AwaitContainerCreated)),
        next_spec(
            op,
            Stage::AwaitCreated,
            target,
            component,
            (Reply::ContainerCreatedSignal { status: signal_status, failure_reason: signal_reason }),
        ) == (if signal_status == ContainerCreatedStatus::Created {
            succeed()
        } else {
            fail(ChromeOSError::FailedCreateContainerSignal(signal_status, signal_reason))
        }),
{
}

/// A file-sharing server handle beyond the 32-bit range ends the share with a
/// handle overflow error, before any share request.
pub proof fn lemma_handle_overflow_rejected(
    vm_name: String,
    user_id_hash: String,
    path: String,
    target: String,
    component: String,
    seneschal_handle: u64,
)
    requires
        seneschal_handle > u32::MAX,
    ensures
        next_spec(
            (Operation::VmSharePath { vm_name, user_id_hash, path }),
            Stage::VmInfo,
            target,
            component,
            (Reply::VmInfo { success: true, seneschal_handle }),
        ) == fail(ChromeOSError::HandleOverflow(seneschal_handle)),
{
}

} // verus!
