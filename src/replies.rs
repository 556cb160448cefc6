//! How each peer's reply is read: success, already in the desired state,
//! in progress (wait for a signal), or a failure carrying status and reason.

use vstd::prelude::*;

use crate::error::{BusError, ChromeOSError};
use crate::status::{
    ContainerCreatedStatus, CreateContainerStatus, DiskImageStatus, SetupUserStatus,
    StartContainerStatus, VmStatus,
};

verus! {

/// Where the mount points of shared paths live inside the VM.
pub const MNT_SHARED_ROOT: &'static str = "/mnt/shared";

/// What an accepted request still needs before the operation is complete.
#[derive(PartialEq, Eq, Structural, Clone, Copy, Debug)]
pub enum Progress {
    /// Nothing: the peer is already in the desired state.
    Done,
    /// The peer accepted the work and reports completion by a signal.
    AwaitSignal,
}

/// Reads the component loader's reply: only a non-empty mount path counts.
pub fn component_load_result(name: &String, reply: Option<String>) -> (r: Result<(), ChromeOSError>)
    ensures
        r == (if reply is Some && reply->Some_0@.len() > 0 {
            Ok::<(), ChromeOSError>(())
        } else {
            Err(ChromeOSError::FailedComponentUpdater(*name))
        }),
{
    match reply {
        Some(path) => {
            if path.as_str().unicode_len() > 0 {
                Ok(())
            } else {
                Err(ChromeOSError::FailedComponentUpdater(name.clone()))
            }
        },
        None => Err(ChromeOSError::FailedComponentUpdater(name.clone())),
    }
}

/// Reads the service starter's reply: only an explicit `true` counts.
pub fn concierge_start_result(reply: Option<bool>) -> (r: Result<(), ChromeOSError>)
    ensures
        r == (if reply == Some(true) {
            Ok::<(), ChromeOSError>(())
        } else {
            Err(ChromeOSError::BadConciergeStatus)
        }),
{
    match reply {
        Some(true) => Ok(()),
        _ => Err(ChromeOSError::BadConciergeStatus),
    }
}

/// Reads a disk creation reply: created or already there both yield the path.
pub fn create_disk_result(status: DiskImageStatus, disk_path: String, reason: String) -> (r:
    Result<String, ChromeOSError>)
    ensures
        r == (if status == DiskImageStatus::Created || status == DiskImageStatus::Exists {
            Ok::<String, ChromeOSError>(disk_path)
        } else {
            Err(ChromeOSError::BadDiskImageStatus(status, reason))
        }),
{
    match status {
        DiskImageStatus::Created | DiskImageStatus::Exists => Ok(disk_path),
        _ => Err(ChromeOSError::BadDiskImageStatus(status, reason)),
    }
}

/// Reads a disk destruction reply: destroyed or never there are both success.
pub fn destroy_disk_result(status: DiskImageStatus, reason: String) -> (r: Result<(), ChromeOSError>)
    ensures
        r == (if status == DiskImageStatus::Destroyed || status == DiskImageStatus::DoesNotExist {
            Ok::<(), ChromeOSError>(())
        } else {
            Err(ChromeOSError::BadDiskImageStatus(status, reason))
        }),
{
    match status {
        DiskImageStatus::Destroyed | DiskImageStatus::DoesNotExist => Ok(()),
        _ => Err(ChromeOSError::BadDiskImageStatus(status, reason)),
    }
}

/// Reads a disk export reply: only the exact "created" status is success.
pub fn export_disk_result(status: DiskImageStatus, reason: String) -> (r: Result<(), ChromeOSError>)
    ensures
        r == (if status == DiskImageStatus::Created {
            Ok::<(), ChromeOSError>(())
        } else {
            Err(ChromeOSError::BadDiskImageStatus(status, reason))
        }),
{
    match status {
        DiskImageStatus::Created => Ok(()),
        _ => Err(ChromeOSError::BadDiskImageStatus(status, reason)),
    }
}

/// Reads a disk listing reply, which carries a success flag.
pub fn list_disks_result(success: bool, images: Vec<String>, total_size: u64, reason: String) -> (r:
    Result<(Vec<String>, u64), ChromeOSError>)
    ensures
        r == (if success {
            Ok::<(Vec<String>, u64), ChromeOSError>((images, total_size))
        } else {
            Err(ChromeOSError::FailedListDiskImages(reason))
        }),
{
    if success {
        Ok((images, total_size))
    } else {
        Err(ChromeOSError::FailedListDiskImages(reason))
    }
}

/// Reads a VM start reply: success, or a VM already running or starting.
pub fn start_vm_result(success: bool, status: VmStatus, reason: String) -> (r: Result<(), ChromeOSError>)
    ensures
        r == (if success || status == VmStatus::Running || status == VmStatus::Starting {
            Ok::<(), ChromeOSError>(())
        } else {
            Err(ChromeOSError::BadVmStatus(status, reason))
        }),
{
    if success {
        return Ok(());
    }
    match status {
        VmStatus::Running | VmStatus::Starting => Ok(()),
        _ => Err(ChromeOSError::BadVmStatus(status, reason)),
    }
}

/// Reads a VM stop reply, naming the VM on failure.
pub fn stop_vm_result(vm_name: &String, success: bool, reason: String) -> (r: Result<(), ChromeOSError>)
    ensures
        r == (if success {
            Ok::<(), ChromeOSError>(())
        } else {
            Err(ChromeOSError::FailedStopVm { vm_name: *vm_name, reason })
        }),
{
    if success {
        Ok(())
    } else {
        Err(ChromeOSError::FailedStopVm { vm_name: vm_name.clone(), reason })
    }
}

/// Reads a VM info reply down to the file-sharing server handle.
pub fn vm_info_result(success: bool, seneschal_handle: u64) -> (r: Result<u64, ChromeOSError>)
    ensures
        r == (if success {
            Ok::<u64, ChromeOSError>(seneschal_handle)
        } else {
            Err(ChromeOSError::FailedGetVmInfo)
        }),
{
    if success {
        Ok(seneschal_handle)
    } else {
        Err(ChromeOSError::FailedGetVmInfo)
    }
}

/// Narrows a 64-bit server handle to the 32-bit field of a share request.
pub fn narrow_handle(handle: u64) -> (r: Result<u32, ChromeOSError>)
    ensures
        r == (if handle <= u32::MAX {
            Ok::<u32, ChromeOSError>(handle as u32)
        } else {
            Err(ChromeOSError::HandleOverflow(handle))
        }),
{
    if handle > u32::MAX as u64 {
        Err(ChromeOSError::HandleOverflow(handle))
    } else {
        Ok(handle as u32)
    }
}

/// The path seen by the caller for a path shared at `vm_path` inside the VM.
pub open spec fn shared_path_spec(vm_path: Seq<char>) -> Seq<char> {
    MNT_SHARED_ROOT@ + vm_path
}

/// Reads a share-path reply and places the returned path under the shared
/// mount root.
pub fn share_path_result(success: bool, vm_path: String, reason: String) -> (r: Result<
    String,
    ChromeOSError,
>)
    ensures
        success ==> (r is Ok && r->Ok_0@ == shared_path_spec(vm_path@)),
        !success ==> r == Err::<String, ChromeOSError>(ChromeOSError::FailedSharePath(reason)),
{
    if success {
        let mut full = String::from_str(MNT_SHARED_ROOT);
        full.append(vm_path.as_str());
        Ok(full)
    } else {
        Err(ChromeOSError::FailedSharePath(reason))
    }
}

/// Reads a container creation reply: in progress means waiting for the
/// container-created signal; already existing is success.
pub fn create_container_result(status: CreateContainerStatus, reason: String) -> (r: Result<
    Progress,
    ChromeOSError,
>)
    ensures
        r == (match status {
            CreateContainerStatus::Creating => Ok::<Progress, ChromeOSError>(Progress::AwaitSignal),
            CreateContainerStatus::Exists => Ok(Progress::Done),
            _ => Err(ChromeOSError::FailedCreateContainer(status, reason)),
        }),
{
    match status {
        CreateContainerStatus::Creating => Ok(Progress::AwaitSignal),
        CreateContainerStatus::Exists => Ok(Progress::Done),
        _ => Err(ChromeOSError::FailedCreateContainer(status, reason)),
    }
}

/// Reads the container-created signal: its own status must be "created".
pub fn container_created_signal_result(status: ContainerCreatedStatus, reason: String) -> (r:
    Result<(), ChromeOSError>)
    ensures
        r == (if status == ContainerCreatedStatus::Created {
            Ok::<(), ChromeOSError>(())
        } else {
            Err(ChromeOSError::FailedCreateContainerSignal(status, reason))
        }),
{
    match status {
        ContainerCreatedStatus::Created => Ok(()),
        _ => Err(ChromeOSError::FailedCreateContainerSignal(status, reason)),
    }
}

/// Reads a container start reply: "started" means waiting for the
/// container-started signal; already running is success.
pub fn start_container_result(status: StartContainerStatus, reason: String) -> (r: Result<
    Progress,
    ChromeOSError,
>)
    ensures
        r == (match status {
            StartContainerStatus::Started => Ok::<Progress, ChromeOSError>(Progress::AwaitSignal),
            StartContainerStatus::Running => Ok(Progress::Done),
            _ => Err(ChromeOSError::FailedStartContainerStatus(status, reason)),
        }),
{
    match status {
        StartContainerStatus::Started => Ok(Progress::AwaitSignal),
        StartContainerStatus::Running => Ok(Progress::Done),
        _ => Err(ChromeOSError::FailedStartContainerStatus(status, reason)),
    }
}

/// Reads a container user set-up reply: set up now or earlier are success.
pub fn setup_user_result(status: SetupUserStatus, reason: String) -> (r: Result<(), ChromeOSError>)
    ensures
        r == (if status == SetupUserStatus::Success || status == SetupUserStatus::Exists {
            Ok::<(), ChromeOSError>(())
        } else {
            Err(ChromeOSError::FailedSetupContainerUser(status, reason))
        }),
{
    match status {
        SetupUserStatus::Success | SetupUserStatus::Exists => Ok(()),
        _ => Err(ChromeOSError::FailedSetupContainerUser(status, reason)),
    }
}

/// The result of the active-sessions call for `reply`.
pub open spec fn sessions_spec(reply: Result<Option<Vec<(String, String)>>, BusError>) -> Result<
    Vec<(String, String)>,
    ChromeOSError,
> {
    match reply {
        Ok(Some(sessions)) => Ok(sessions),
        _ => Err(ChromeOSError::RetrieveActiveSessions),
    }
}

/// An empty mapping of active sessions is an empty list, not an error; a
/// failed call is a session lookup error, whatever the bus reported.
pub proof fn lemma_sessions_lookup(sessions: Vec<(String, String)>, e: BusError)
    requires
        sessions@.len() == 0,
    ensures
        sessions_spec(Ok(Some(sessions))) matches Ok(list) && list@.len() == 0,
        sessions_spec(Err(e)) == Err::<Vec<(String, String)>, ChromeOSError>(
            ChromeOSError::RetrieveActiveSessions,
        ),
{
}

/// Reads the active-sessions reply. An empty mapping is an empty list; a
/// missing mapping or a failed call is a session lookup error.
pub fn sessions_result(reply: Result<Option<Vec<(String, String)>>, BusError>) -> (r: Result<
    Vec<(String, String)>,
    ChromeOSError,
>)
    ensures
        r == sessions_spec(reply),
{
    match reply {
        Ok(Some(sessions)) => Ok(sessions),
        _ => Err(ChromeOSError::RetrieveActiveSessions),
    }
}

/// Reads the free-space probe of the root filesystem.
pub fn free_space_result(reply: Result<u64, i32>) -> (r: Result<u64, ChromeOSError>)
    ensures
        r == (match reply {
            Ok(free) => Ok::<u64, ChromeOSError>(free),
            Err(errno) => Err(ChromeOSError::FailedGetFreeDiskSpace(errno)),
        }),
{
    match reply {
        Ok(free) => Ok(free),
        Err(errno) => Err(ChromeOSError::FailedGetFreeDiskSpace(errno)),
    }
}

} // verus!
