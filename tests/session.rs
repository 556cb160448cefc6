use crostini_client::error::{BusError, ChromeOSError};
use crostini_client::export::{
    export_parts_valid, export_path, has_parent_component, is_plain_component, join_path,
};
use crostini_client::session::{
    DiskImageKind, DiskStorage, Operation, Outcome, Reply, Request, Session, ShareLocation, Step,
};
use crostini_client::status::{
    ContainerCreatedStatus, CreateContainerStatus, DiskImageStatus, StartContainerStatus, VmStatus,
};

fn s(v: &str) -> String {
    v.to_string()
}

fn ready(op: Operation) -> (Session, Step) {
    let (mut session, step) = Session::begin(op);
    assert_eq!(step, Step::Call(Request::LoadComponent { name: s("cros-termina") }));
    let step = session.advance(Reply::ComponentLoaded(Some(s("/run/imageloader/cros-termina"))));
    assert_eq!(step, Step::Call(Request::StartConcierge));
    let step = session.advance(Reply::ConciergeStarted(Some(true)));
    (session, step)
}

fn create_op() -> Operation {
    Operation::ContainerCreate {
        vm_name: s("termina"),
        user_id_hash: s("hash"),
        container_name: s("penguin"),
        image_server: s("https://images"),
        image_alias: s("debian/stretch"),
    }
}

#[test]
fn join_follows_path_rules() {
    assert_eq!(join_path("/a", "b"), "/a/b");
    assert_eq!(join_path("/a/", "b"), "/a/b");
    assert_eq!(join_path("/a", "/etc"), "/etc");
    assert_eq!(join_path("", "b"), "b");
    assert_eq!(join_path("/a", ""), "/a/");
}

#[test]
fn export_destinations() {
    assert_eq!(export_path("hash", "backup", None), "/home/user/hash/Downloads/backup.qcow2");
    assert_eq!(
        export_path("hash", "backup", Some("USB Drive")),
        "/media/removable/USB Drive/backup.qcow2"
    );
}

#[test]
fn parent_components_are_found() {
    assert!(has_parent_component("/home/user/../x"));
    assert!(has_parent_component(".."));
    assert!(has_parent_component("/a/.."));
    assert!(has_parent_component("../a"));
    assert!(!has_parent_component("/a/..b/c"));
    assert!(!has_parent_component("/a/b..c"));
    assert!(!has_parent_component("/a/./b"));
    assert!(!has_parent_component("/a/.../b"));
}

#[test]
fn export_with_parent_component_fails_without_any_call() {
    let op = Operation::VmExport {
        vm_name: s("termina"),
        user_id_hash: s("hash"),
        export_name: s("../../etc/evil"),
        removable_media: None,
    };
    let (session, step) = Session::begin(op);
    assert_eq!(step, Step::Done(Err(ChromeOSError::InvalidExportPath)));
    assert!(session.finished());
    let op = Operation::VmExport {
        vm_name: s("termina"),
        user_id_hash: s("hash"),
        export_name: s("backup"),
        removable_media: Some(s("../../root")),
    };
    assert_eq!(Session::begin(op).1, Step::Done(Err(ChromeOSError::InvalidExportPath)));
}

#[test]
fn export_to_existing_file_fails_without_any_bus_call() {
    let op = Operation::VmExport {
        vm_name: s("termina"),
        user_id_hash: s("hash"),
        export_name: s("backup"),
        removable_media: None,
    };
    let (mut session, step) = Session::begin(op);
    assert_eq!(
        step,
        Step::Call(Request::ProbeExportTarget { path: s("/home/user/hash/Downloads/backup.qcow2") })
    );
    let step = session.advance(Reply::ExportTarget { exists: true });
    assert_eq!(step, Step::Done(Err(ChromeOSError::ExportPathExists)));
}

#[test]
fn export_fresh_target() {
    let op = Operation::VmExport {
        vm_name: s("termina"),
        user_id_hash: s("hash"),
        export_name: s("backup"),
        removable_media: Some(s("USB")),
    };
    let (mut session, _) = Session::begin(op);
    let step = session.advance(Reply::ExportTarget { exists: false });
    assert_eq!(step, Step::Call(Request::LoadComponent { name: s("cros-termina") }));
    session.advance(Reply::ComponentLoaded(Some(s("/c"))));
    let step = session.advance(Reply::ConciergeStarted(Some(true)));
    let request = Request::ExportDiskImage {
        vm_name: s("termina"),
        user_id_hash: s("hash"),
        path: s("/media/removable/USB/backup.qcow2"),
    };
    assert_eq!(request.timeout_ms(), 15 * 60 * 1000);
    assert_eq!(step, Step::Call(request));
    let step = session.advance(Reply::DiskImage {
        status: DiskImageStatus::Created,
        disk_path: String::new(),
        failure_reason: String::new(),
    });
    assert_eq!(step, Step::Done(Ok(Outcome::Unit)));
}

#[test]
fn export_target_taken_at_creation() {
    let op = Operation::VmExport {
        vm_name: s("termina"),
        user_id_hash: s("hash"),
        export_name: s("backup"),
        removable_media: None,
    };
    let (mut session, _) = Session::begin(op);
    session.advance(Reply::ExportTarget { exists: false });
    session.advance(Reply::ComponentLoaded(Some(s("/c"))));
    session.advance(Reply::ConciergeStarted(Some(true)));
    assert_eq!(
        session.advance(Reply::ExportTargetTaken),
        Step::Done(Err(ChromeOSError::ExportPathExists))
    );
}

#[test]
fn container_exists_needs_no_wait() {
    let (mut session, step) = ready(create_op());
    assert_eq!(
        step,
        Step::Call(Request::CreateContainer {
            vm_name: s("termina"),
            user_id_hash: s("hash"),
            container_name: s("penguin"),
            image_server: s("https://images"),
            image_alias: s("debian/stretch"),
        })
    );
    let step = session.advance(Reply::ContainerCreate {
        status: CreateContainerStatus::Exists,
        failure_reason: String::new(),
    });
    assert_eq!(step, Step::Done(Ok(Outcome::Unit)));
}

#[test]
fn container_creating_then_created_signal() {
    let (mut session, _) = ready(create_op());
    let step = session.advance(Reply::ContainerCreate {
        status: CreateContainerStatus::Creating,
        failure_reason: String::new(),
    });
    assert_eq!(step, Step::Call(Request::AwaitContainerCreated));
    let step = session.advance(Reply::ContainerCreatedSignal {
        status: ContainerCreatedStatus::Created,
        failure_reason: String::new(),
    });
    assert_eq!(step, Step::Done(Ok(Outcome::Unit)));
}

#[test]
fn container_creating_then_failed_signal() {
    let (mut session, _) = ready(create_op());
    session.advance(Reply::ContainerCreate {
        status: CreateContainerStatus::Creating,
        failure_reason: String::new(),
    });
    let step = session.advance(Reply::ContainerCreatedSignal {
        status: ContainerCreatedStatus::Other(4),
        failure_reason: s("image download failed"),
    });
    assert_eq!(
        step,
        Step::Done(Err(ChromeOSError::FailedCreateContainerSignal(
            ContainerCreatedStatus::Other(4),
            s("image download failed")
        )))
    );
}

#[test]
fn container_create_other_status_fails_at_once() {
    let (mut session, _) = ready(create_op());
    let step = session.advance(Reply::ContainerCreate {
        status: CreateContainerStatus::Other(7),
        failure_reason: s("no vm"),
    });
    assert_eq!(
        step,
        Step::Done(Err(ChromeOSError::FailedCreateContainer(CreateContainerStatus::Other(7), s("no vm"))))
    );
}

#[test]
fn container_start_waits_for_signal() {
    let op = Operation::ContainerStart {
        vm_name: s("termina"),
        user_id_hash: s("hash"),
        container_name: s("penguin"),
    };
    let (mut session, _) = ready(op);
    let step = session.advance(Reply::ContainerStart {
        status: StartContainerStatus::Started,
        failure_reason: String::new(),
    });
    assert_eq!(step, Step::Call(Request::AwaitContainerStarted));
    assert_eq!(session.advance(Reply::ContainerStartedSignal), Step::Done(Ok(Outcome::Unit)));
}

#[test]
fn share_path_rejects_wide_handle() {
    let op = Operation::VmSharePath { vm_name: s("termina"), user_id_hash: s("hash"), path: s("Downloads") };
    let (mut session, step) = ready(op);
    assert_eq!(step, Step::Call(Request::GetVmInfo { vm_name: s("termina"), user_id_hash: s("hash") }));
    let step = session.advance(Reply::VmInfo { success: true, seneschal_handle: 1 << 32 });
    assert_eq!(step, Step::Done(Err(ChromeOSError::HandleOverflow(1 << 32))));
}

#[test]
fn share_path_success() {
    let op = Operation::VmSharePath { vm_name: s("termina"), user_id_hash: s("hash"), path: s("Downloads") };
    let (mut session, _) = ready(op);
    let step = session.advance(Reply::VmInfo { success: true, seneschal_handle: 9 });
    assert_eq!(
        step,
        Step::Call(Request::SharePath {
            handle: 9,
            user_id_hash: s("hash"),
            path: s("Downloads"),
            storage: ShareLocation::Downloads,
        })
    );
    let step = session.advance(Reply::PathShared {
        success: true,
        path: s("/MyFiles/Downloads"),
        failure_reason: String::new(),
    });
    assert_eq!(step, Step::Done(Ok(Outcome::SharedPath(s("/mnt/shared/MyFiles/Downloads")))));
}

#[test]
fn vm_start_sequence() {
    let op = Operation::VmStart { vm_name: s("termina"), user_id_hash: s("hash") };
    let (mut session, step) = ready(op);
    assert_eq!(step, Step::Call(Request::GetFreeDiskSpace));
    let step = session.advance(Reply::FreeDiskSpace(Ok(10_000)));
    assert_eq!(
        step,
        Step::Call(Request::CreateDiskImage {
            vm_name: s("termina"),
            user_id_hash: s("hash"),
            disk_size: 8704,
            image_type: DiskImageKind::Auto,
            storage: DiskStorage::CryptohomeRoot,
        })
    );
    let step = session.advance(Reply::DiskImage {
        status: DiskImageStatus::Exists,
        disk_path: s("/home/root/hash/crosvm/termina.qcow2"),
        failure_reason: String::new(),
    });
    assert_eq!(
        step,
        Step::Call(Request::StartVm {
            vm_name: s("termina"),
            user_id_hash: s("hash"),
            disk_path: s("/home/root/hash/crosvm/termina.qcow2"),
            start_termina: true,
            writable: true,
            do_mount: false,
        })
    );
    let step = session.advance(Reply::VmStarted {
        success: false,
        status: VmStatus::Running,
        failure_reason: String::new(),
    });
    assert_eq!(step, Step::Done(Ok(Outcome::Unit)));
}

#[test]
fn vm_start_fails_on_bad_disk_status() {
    let op = Operation::VmStart { vm_name: s("termina"), user_id_hash: s("hash") };
    let (mut session, _) = ready(op);
    session.advance(Reply::FreeDiskSpace(Ok(1 << 30)));
    let step = session.advance(Reply::DiskImage {
        status: DiskImageStatus::Other(3),
        disk_path: String::new(),
        failure_reason: s("full"),
    });
    assert_eq!(
        step,
        Step::Done(Err(ChromeOSError::BadDiskImageStatus(DiskImageStatus::Other(3), s("full"))))
    );
}

#[test]
fn service_start_failures_abort() {
    let op = Operation::DiskList { user_id_hash: s("hash") };
    let (mut session, _) = Session::begin(op.clone());
    assert_eq!(
        session.advance(Reply::ComponentLoaded(Some(String::new()))),
        Step::Done(Err(ChromeOSError::FailedComponentUpdater(s("cros-termina"))))
    );
    let (mut session, _) = Session::begin(op);
    session.advance(Reply::ComponentLoaded(Some(s("/c"))));
    assert_eq!(
        session.advance(Reply::ConciergeStarted(Some(false))),
        Step::Done(Err(ChromeOSError::BadConciergeStatus))
    );
}

#[test]
fn bus_failure_aborts_and_later_replies_are_unexpected() {
    let op = Operation::VmStop { vm_name: s("termina"), user_id_hash: s("hash") };
    let (mut session, step) = ready(op);
    assert_eq!(step, Step::Call(Request::StopVm { vm_name: s("termina"), user_id_hash: s("hash") }));
    assert_eq!(
        session.advance(Reply::BusFailed(BusError::Timeout)),
        Step::Done(Err(ChromeOSError::Bus(BusError::Timeout)))
    );
    assert_eq!(
        session.advance(Reply::VmStopped { success: true, failure_reason: String::new() }),
        Step::Done(Err(ChromeOSError::UnexpectedReply))
    );
}

#[test]
fn disk_list_and_destroy() {
    let (mut session, step) = ready(Operation::DiskList { user_id_hash: s("hash") });
    assert_eq!(
        step,
        Step::Call(Request::ListVmDisks { user_id_hash: s("hash"), storage: DiskStorage::CryptohomeRoot })
    );
    let step = session.advance(Reply::DiskList {
        success: true,
        images: vec![s("termina")],
        total_size: 4096,
        failure_reason: String::new(),
    });
    assert_eq!(step, Step::Done(Ok(Outcome::Disks(vec![s("termina")], 4096))));
    let (mut session, _) =
        ready(Operation::DiskDestroy { vm_name: s("termina"), user_id_hash: s("hash") });
    let step = session.advance(Reply::DiskImage {
        status: DiskImageStatus::DoesNotExist,
        disk_path: String::new(),
        failure_reason: String::new(),
    });
    assert_eq!(step, Step::Done(Ok(Outcome::Unit)));
}

#[test]
fn request_timeouts() {
    assert_eq!(Request::LoadComponent { name: s("x") }.timeout_ms(), 120_000);
    assert_eq!(Request::StartConcierge.timeout_ms(), 30_000);
    assert_eq!(Request::ListVmDisks { user_id_hash: s("h"), storage: DiskStorage::CryptohomeRoot }.timeout_ms(), 80_000);
    assert_eq!(Request::AwaitContainerCreated.timeout_ms(), 80_000);
}

fn export_op(user_id_hash: &str, export_name: &str, removable_media: Option<&str>) -> Operation {
    Operation::VmExport {
        vm_name: s("termina"),
        user_id_hash: s(user_id_hash),
        export_name: s(export_name),
        removable_media: removable_media.map(s),
    }
}

#[test]
fn export_cannot_escape_the_allowed_roots() {
    let rejected = Step::Done(Err(ChromeOSError::InvalidExportPath));
    assert_eq!(Session::begin(export_op("hash", "x", Some("/etc"))).1, rejected);
    assert_eq!(Session::begin(export_op("hash", "/tmp/x", None)).1, rejected);
    assert_eq!(Session::begin(export_op("hash", "/tmp/x", Some("USB"))).1, rejected);
    assert_eq!(Session::begin(export_op("/etc", "x", None)).1, rejected);
    assert_eq!(Session::begin(export_op("a/b", "x", None)).1, rejected);
    assert_eq!(Session::begin(export_op("", "x", None)).1, rejected);
    assert_eq!(Session::begin(export_op(".", "x", None)).1, rejected);
    assert_eq!(Session::begin(export_op("..", "x", None)).1, rejected);
}

#[test]
fn export_relative_parts_stay_under_their_root() {
    let (_, step) = Session::begin(export_op("hash", "sub/x", Some("USB/dir")));
    assert_eq!(
        step,
        Step::Call(Request::ProbeExportTarget { path: s("/media/removable/USB/dir/sub/x.qcow2") })
    );
    let (_, step) = Session::begin(export_op("/ignored", "x", Some("")));
    assert_eq!(step, Step::Call(Request::ProbeExportTarget { path: s("/media/removable/x.qcow2") }));
}

#[test]
fn export_part_checks() {
    assert!(export_parts_valid("hash", "x", None));
    assert!(!export_parts_valid("hash", "/x", None));
    assert!(export_parts_valid("/abs", "x", Some("USB")));
    assert!(!export_parts_valid("hash", "x", Some("/USB")));
    assert!(is_plain_component("abc123"));
    assert!(is_plain_component("..."));
    assert!(!is_plain_component(""));
    assert!(!is_plain_component("."));
    assert!(!is_plain_component(".."));
    assert!(!is_plain_component("a/b"));
}
