//! The operations a backend offers, and two stand-in backends: one that
//! implements nothing and one that succeeds with empty results.

use vstd::prelude::*;

use crate::error::ChromeOSError;

verus! {

/// The operations of a backend, for error messages.
#[derive(PartialEq, Eq, Structural, Clone, Copy, Debug)]
pub enum BackendFunction {
    MetricsSendSample,
    SessionsList,
    VmStart,
    VmStop,
    VmExport,
    VmSharePath,
    VshExec,
    VshExecContainer,
    DiskDestroy,
    DiskList,
    ContainerCreate,
    ContainerStart,
    ContainerSetupUser,
}

impl BackendFunction {
    pub open spec fn name_spec(self) -> Seq<char> {
        match self {
            BackendFunction::MetricsSendSample => "metrics_send_sample"@,
            BackendFunction::SessionsList => "sessions_list"@,
            BackendFunction::VmStart => "vm_start"@,
            BackendFunction::VmStop => "vm_stop"@,
            BackendFunction::VmExport => "vm_export"@,
            BackendFunction::VmSharePath => "vm_share_path"@,
            BackendFunction::VshExec => "vsh_exec"@,
            BackendFunction::VshExecContainer => "vsh_exec_container"@,
            BackendFunction::DiskDestroy => "disk_destroy"@,
            BackendFunction::DiskList => "disk_list"@,
            BackendFunction::ContainerCreate => "container_create"@,
            BackendFunction::ContainerStart => "container_start"@,
            BackendFunction::ContainerSetupUser => "container_setup_user"@,
        }
    }

    /// The method's name.
    pub fn name(&self) -> (r: &'static str)
        ensures
            r@ == self.name_spec(),
    {
        match self {
            BackendFunction::MetricsSendSample => "metrics_send_sample",
            BackendFunction::SessionsList => "sessions_list",
            BackendFunction::VmStart => "vm_start",
            BackendFunction::VmStop => "vm_stop",
            BackendFunction::VmExport => "vm_export",
            BackendFunction::VmSharePath => "vm_share_path",
            BackendFunction::VshExec => "vsh_exec",
            BackendFunction::VshExecContainer => "vsh_exec_container",
            BackendFunction::DiskDestroy => "disk_destroy",
            BackendFunction::DiskList => "disk_list",
            BackendFunction::ContainerCreate => "container_create",
            BackendFunction::ContainerStart => "container_start",
            BackendFunction::ContainerSetupUser => "container_setup_user",
        }
    }
}

/// Why a backend operation failed.
#[derive(PartialEq, Eq, Clone, Debug)]
pub enum BackendError {
    /// The backend named `backend` does not offer `function`.
    Unimplemented { backend: &'static str, function: BackendFunction },
    /// An operation of the system services failed.
    ChromeOS(ChromeOSError),
    /// A local step failed (launching a shell, opening a file).
    Local(String),
}

impl BackendError {
    pub open spec fn message_spec(&self) -> Seq<char> {
        match self {
            BackendError::Unimplemented { backend, function } => "backend `"@ + backend@
                + "` does not implement `"@ + function.name_spec() + "`"@,
            BackendError::ChromeOS(e) => e.message_spec(),
            BackendError::Local(m) => m@,
        }
    }

    /// Describes the error in one line.
    pub fn message(&self) -> (r: String)
        ensures
            r@ == self.message_spec(),
    {
        match self {
            BackendError::Unimplemented { backend, function } => {
                let mut m = String::from_str("backend `");
                m.append(backend);
                m.append("` does not implement `");
                m.append(function.name());
                m.append("`");
                m
            },
            BackendError::ChromeOS(e) => e.message(),
            BackendError::Local(m) => m.clone(),
        }
    }
}

/// The operations on VMs, containers, disks and sessions.
pub trait Backend {
    /// The name of this implementation.
    fn name(&self) -> &'static str;

    /// Sends a sample of a named event histogram.
    fn metrics_send_sample(&mut self, name: &str) -> Result<(), BackendError>;

    /// The active sessions, as pairs of account and user id hash.
    fn sessions_list(&mut self) -> Result<Vec<(String, String)>, BackendError>;

    /// Starts the VM `name` of the user `user_id_hash`.
    fn vm_start(&mut self, name: &str, user_id_hash: &str) -> Result<(), BackendError>;

    /// Stops the VM `name` of the user `user_id_hash`.
    fn vm_stop(&mut self, name: &str, user_id_hash: &str) -> Result<(), BackendError>;

    /// Exports the disk of VM `name` to `file_name`, on the removable medium
    /// `removable_media` if one is given.
    fn vm_export(
        &mut self,
        name: &str,
        user_id_hash: &str,
        file_name: &str,
        removable_media: Option<&str>,
    ) -> Result<(), BackendError>;

    /// Shares `path` with VM `name` and returns where the VM sees it.
    fn vm_share_path(&mut self, name: &str, user_id_hash: &str, path: &str) -> Result<
        String,
        BackendError,
    >;

    /// Opens a shell in VM `vm_name`.
    fn vsh_exec(&mut self, vm_name: &str, user_id_hash: &str) -> Result<(), BackendError>;

    /// Opens a shell in container `container_name` of VM `vm_name`.
    fn vsh_exec_container(&mut self, vm_name: &str, user_id_hash: &str, container_name: &str) -> Result<
        (),
        BackendError,
    >;

    /// Destroys the disk of VM `vm_name`.
    fn disk_destroy(&mut self, vm_name: &str, user_id_hash: &str) -> Result<(), BackendError>;

    /// The disks of the user and their total size.
    fn disk_list(&mut self, user_id_hash: &str) -> Result<(Vec<String>, u64), BackendError>;

    /// Creates container `container_name` in VM `vm_name` from `image_alias`
    /// on `image_server`.
    fn container_create(
        &mut self,
        vm_name: &str,
        user_id_hash: &str,
        container_name: &str,
        image_server: &str,
        image_alias: &str,
    ) -> Result<(), BackendError>;

    /// Starts container `container_name` in VM `vm_name`.
    fn container_start(&mut self, vm_name: &str, user_id_hash: &str, container_name: &str) -> Result<
        (),
        BackendError,
    >;

    /// Sets up `username` in container `container_name` of VM `vm_name`.
    fn container_setup_user(
        &mut self,
        vm_name: &str,
        user_id_hash: &str,
        container_name: &str,
        username: &str,
    ) -> Result<(), BackendError>;
}

/// A backend without side effects that fails every operation.
#[derive(Default)]
pub struct DummyUnimplementedBackend;

impl DummyUnimplementedBackend {
    /// Creates a backend that implements nothing.
    pub fn new() -> DummyUnimplementedBackend {
        DummyUnimplementedBackend
    }

    fn refuse(function: BackendFunction) -> (r: BackendError)
        ensures
            r matches BackendError::Unimplemented { backend, function: f } && f == function
                && backend@ == "Dummy Unimplemented"@,
    {
        BackendError::Unimplemented { backend: "Dummy Unimplemented", function }
    }
}

impl Backend for DummyUnimplementedBackend {
    fn name(&self) -> (r: &'static str)
        ensures
            r@ == "Dummy Unimplemented"@,
    {
        "Dummy Unimplemented"
    }

    fn metrics_send_sample(&mut self, name: &str) -> (r: Result<(), BackendError>)
        ensures
            r matches Err(BackendError::Unimplemented { backend, function }) && function
                == BackendFunction::MetricsSendSample && backend@ == "Dummy Unimplemented"@,
    {
        Err(Self::refuse(BackendFunction::MetricsSendSample))
    }

    fn sessions_list(&mut self) -> (r: Result<Vec<(String, String)>, BackendError>)
        ensures
            r matches Err(BackendError::Unimplemented { backend, function }) && function
                == BackendFunction::SessionsList && backend@ == "Dummy Unimplemented"@,
    {
        Err(Self::refuse(BackendFunction::SessionsList))
    }

    fn vm_start(&mut self, name: &str, user_id_hash: &str) -> (r: Result<(), BackendError>)
        ensures
            r matches Err(BackendError::Unimplemented { backend, function }) && function
                == BackendFunction::VmStart && backend@ == "Dummy Unimplemented"@,
    {
        Err(Self::refuse(BackendFunction::VmStart))
    }

    fn vm_stop(&mut self, name: &str, user_id_hash: &str) -> (r: Result<(), BackendError>)
        ensures
            r matches Err(BackendError::Unimplemented { backend, function }) && function
                == BackendFunction::VmStop && backend@ == "Dummy Unimplemented"@,
    {
        Err(Self::refuse(BackendFunction::VmStop))
    }

    fn vm_export(
        &mut self,
        name: &str,
        user_id_hash: &str,
        file_name: &str,
        removable_media: Option<&str>,
    ) -> (r: Result<(), BackendError>)
        ensures
            r matches Err(BackendError::Unimplemented { backend, function }) && function
                == BackendFunction::VmExport && backend@ == "Dummy Unimplemented"@,
    {
        Err(Self::refuse(BackendFunction::VmExport))
    }

    fn vm_share_path(&mut self, name: &str, user_id_hash: &str, path: &str) -> (r: Result<String, BackendError>)
        ensures
            r matches Err(BackendError::Unimplemented { backend, function }) && function
                == BackendFunction::VmSharePath && backend@ == "Dummy Unimplemented"@,
    {
        Err(Self::refuse(BackendFunction::VmSharePath))
    }

    fn vsh_exec(&mut self, vm_name: &str, user_id_hash: &str) -> (r: Result<(), BackendError>)
        ensures
            r matches Err(BackendError::Unimplemented { backend, function }) && function
                == BackendFunction::VshExec && backend@ == "Dummy Unimplemented"@,
    {
        Err(Self::refuse(BackendFunction::VshExec))
    }

    fn vsh_exec_container(&mut self, vm_name: &str, user_id_hash: &str, container_name: &str) -> (r: Result<(), BackendError>)
        ensures
            r matches Err(BackendError::Unimplemented { backend, function }) && function
                == BackendFunction::VshExecContainer && backend@ == "Dummy Unimplemented"@,
    {
        Err(Self::refuse(BackendFunction::VshExecContainer))
    }

    fn disk_destroy(&mut self, vm_name: &str, user_id_hash: &str) -> (r: Result<(), BackendError>)
        ensures
            r matches Err(BackendError::Unimplemented { backend, function }) && function
                == BackendFunction::DiskDestroy && backend@ == "Dummy Unimplemented"@,
    {
        Err(Self::refuse(BackendFunction::DiskDestroy))
    }

    fn disk_list(&mut self, user_id_hash: &str) -> (r: Result<(Vec<String>, u64), BackendError>)
        ensures
            r matches Err(BackendError::Unimplemented { backend, function }) && function
                == BackendFunction::DiskList && backend@ == "Dummy Unimplemented"@,
    {
        Err(Self::refuse(BackendFunction::DiskList))
    }

    fn container_create(
        &mut self,
        vm_name: &str,
        user_id_hash: &str,
        container_name: &str,
        image_server: &str,
        image_alias: &str,
    ) -> (r: Result<(), BackendError>)
        ensures
            r matches Err(BackendError::Unimplemented { backend, function }) && function
                == BackendFunction::ContainerCreate && backend@ == "Dummy Unimplemented"@,
    {
        Err(Self::refuse(BackendFunction::ContainerCreate))
    }

    fn container_start(&mut self, vm_name: &str, user_id_hash: &str, container_name: &str) -> (r: Result<(), BackendError>)
        ensures
            r matches Err(BackendError::Unimplemented { backend, function }) && function
                == BackendFunction::ContainerStart && backend@ == "Dummy Unimplemented"@,
    {
        Err(Self::refuse(BackendFunction::ContainerStart))
    }

    fn container_setup_user(
        &mut self,
        vm_name: &str,
        user_id_hash: &str,
        container_name: &str,
        username: &str,
    ) -> (r: Result<(), BackendError>)
        ensures
            r matches Err(BackendError::Unimplemented { backend, function }) && function
                == BackendFunction::ContainerSetupUser && backend@ == "Dummy Unimplemented"@,
    {
        Err(Self::refuse(BackendFunction::ContainerSetupUser))
    }
}

/// A backend without side effects that succeeds with empty results.
#[derive(Default)]
pub struct DummyDefaultBackend;

impl DummyDefaultBackend {
    /// Creates a backend that succeeds at everything.
    pub fn new() -> DummyDefaultBackend {
        DummyDefaultBackend
    }
}

impl Backend for DummyDefaultBackend {
    fn name(&self) -> (r: &'static str)
        ensures
            r@ == "Dummy Default"@,
    {
        "Dummy Default"
    }

    fn metrics_send_sample(&mut self, name: &str) -> (r: Result<(), BackendError>)
        ensures
            r == Ok::<(), BackendError>(()),
    {
        Ok(())
    }

    fn sessions_list(&mut self) -> (r: Result<Vec<(String, String)>, BackendError>)
        ensures
            r is Ok && r->Ok_0@.len() == 0,
    {
        Ok(Vec::new())
    }

    fn vm_start(&mut self, name: &str, user_id_hash: &str) -> (r: Result<(), BackendError>)
        ensures
            r == Ok::<(), BackendError>(()),
    {
        Ok(())
    }

    fn vm_stop(&mut self, name: &str, user_id_hash: &str) -> (r: Result<(), BackendError>)
        ensures
            r == Ok::<(), BackendError>(()),
    {
        Ok(())
    }

    fn vm_export(
        &mut self,
        name: &str,
        user_id_hash: &str,
        file_name: &str,
        removable_media: Option<&str>,
    ) -> (r: Result<(), BackendError>)
        ensures
            r == Ok::<(), BackendError>(()),
    {
        Ok(())
    }

    fn vm_share_path(&mut self, name: &str, user_id_hash: &str, path: &str) -> (r: Result<String, BackendError>)
        ensures
            r is Ok && r->Ok_0@.len() == 0,
    {
        Ok(String::new())
    }

    fn vsh_exec(&mut self, vm_name: &str, user_id_hash: &str) -> (r: Result<(), BackendError>)
        ensures
            r == Ok::<(), BackendError>(()),
    {
        Ok(())
    }

    fn vsh_exec_container(&mut self, vm_name: &str, user_id_hash: &str, container_name: &str) -> (r: Result<(), BackendError>)
        ensures
            r == Ok::<(), BackendError>(()),
    {
        Ok(())
    }

    fn disk_destroy(&mut self, vm_name: &str, user_id_hash: &str) -> (r: Result<(), BackendError>)
        ensures
            r == Ok::<(), BackendError>(()),
    {
        Ok(())
    }

    fn disk_list(&mut self, user_id_hash: &str) -> (r: Result<(Vec<String>, u64), BackendError>)
        ensures
            r is Ok && r->Ok_0.0@.len() == 0 && r->Ok_0.1 == 0,
    {
        Ok((Vec::new(), 0))
    }

    fn container_create(
        &mut self,
        vm_name: &str,
        user_id_hash: &str,
        container_name: &str,
        image_server: &str,
        image_alias: &str,
    ) -> (r: Result<(), BackendError>)
        ensures
            r == Ok::<(), BackendError>(()),
    {
        Ok(())
    }

    fn container_start(&mut self, vm_name: &str, user_id_hash: &str, container_name: &str) -> (r: Result<(), BackendError>)
        ensures
            r == Ok::<(), BackendError>(()),
    {
        Ok(())
    }

    fn container_setup_user(
        &mut self,
        vm_name: &str,
        user_id_hash: &str,
        container_name: &str,
        username: &str,
    ) -> (r: Result<(), BackendError>)
        ensures
            r == Ok::<(), BackendError>(()),
    {
        Ok(())
    }
}

} // verus!
