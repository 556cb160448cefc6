//! Errors of the library.

use vstd::prelude::*;

use crate::status::{
    decimal, decimal_spec,
    ContainerCreatedStatus, CreateContainerStatus, DiskImageStatus, SetupUserStatus,
    StartContainerStatus, VmStatus,
};

verus! {

/// A failure of the bus itself, as opposed to a peer's answer.
#[derive(PartialEq, Eq, Clone, Debug)]
pub enum BusError {
    /// The connection is unusable or the send failed.
    Transport(String),
    /// No reply, or no matching signal, arrived within the time budget.
    Timeout,
    /// The payload does not parse against the expected schema.
    Decode(String),
}

/// Every way an operation can fail.
#[derive(PartialEq, Eq, Clone, Debug)]
pub enum ChromeOSError {
    BadConciergeStatus,
    BadDiskImageStatus(DiskImageStatus, String),
    BadVmStatus(VmStatus, String),
    Bus(BusError),
    ExportPathExists,
    FailedComponentUpdater(String),
    FailedCreateContainer(CreateContainerStatus, String),
    FailedCreateContainerSignal(ContainerCreatedStatus, String),
    FailedGetFreeDiskSpace(i32),
    FailedGetVmInfo,
    FailedListDiskImages(String),
    FailedSetupContainerUser(SetupUserStatus, String),
    FailedSharePath(String),
    FailedStartContainerStatus(StartContainerStatus, String),
    FailedStopVm { vm_name: String, reason: String },
    HandleOverflow(u64),
    InvalidExportPath,
    RetrieveActiveSessions,
    /// A reply that does not answer the request the operation waits on.
    UnexpectedReply,
}

impl ChromeOSError {
    /// The error rejects a disk export target before anything is sent.
    pub open spec fn is_path_validation_error(&self) -> bool {
        self is InvalidExportPath || self is ExportPathExists
    }

    /// The error reports a status value that a peer returned.
    pub open spec fn is_status_error(&self) -> bool {
        ||| self is BadDiskImageStatus
        ||| self is BadVmStatus
        ||| self is FailedCreateContainer
        ||| self is FailedCreateContainerSignal
        ||| self is FailedSetupContainerUser
        ||| self is FailedStartContainerStatus
    }
}

/// Error name the bus gives a call that got no reply in time.
pub const NO_REPLY_ERROR: &'static str = "org.freedesktop.DBus.Error.NoReply";

/// Error name the bus gives an operation that ran out of time.
pub const TIMEOUT_ERROR: &'static str = "org.freedesktop.DBus.Error.Timeout";

/// Text for a bus failure that came without a message.
pub const BUS_FAILURE: &'static str = "bus failure";

impl BusError {
    /// Sorts a bus failure by its error name: the two timeout names are a
    /// timeout, anything else a transport failure carrying the message.
    pub fn from_bus(name: Option<String>, message: Option<String>) -> (r: BusError)
        ensures
            (name matches Some(n) && (n@ == NO_REPLY_ERROR@ || n@ == TIMEOUT_ERROR@)) ==> r
                == BusError::Timeout,
            !(name matches Some(n) && (n@ == NO_REPLY_ERROR@ || n@ == TIMEOUT_ERROR@)) ==> (r
                matches BusError::Transport(m) && m@ == match message {
                Some(t) => t@,
                None => BUS_FAILURE@,
            }),
    {
        if let Some(n) = name {
            if n == String::from_str(NO_REPLY_ERROR) || n == String::from_str(TIMEOUT_ERROR) {
                return BusError::Timeout;
            }
        }
        match message {
            Some(t) => BusError::Transport(t),
            None => BusError::Transport(String::from_str(BUS_FAILURE)),
        }
    }
}

/// `prefix`, then a status between backquotes, then the reason.
pub open spec fn status_line_spec(prefix: Seq<char>, status: Seq<char>, reason: Seq<char>) -> Seq<
    char,
> {
    prefix + "`"@ + status + "`: "@ + reason
}

fn status_line(prefix: &str, status: String, reason: &String) -> (r: String)
    ensures
        r@ == status_line_spec(prefix@, status@, reason@),
{
    let mut m = String::from_str(prefix);
    m.append("`");
    m.append(status.as_str());
    m.append("`: ");
    m.append(reason.as_str());
    m
}

/// `prefix` followed by `detail`.
fn line(prefix: &str, detail: &str) -> (r: String)
    ensures
        r@ == prefix@ + detail@,
{
    let mut m = String::from_str(prefix);
    m.append(detail);
    m
}

impl ChromeOSError {
    /// The one-line description of the error.
    pub open spec fn message_spec(&self) -> Seq<char> {
        match self {
            ChromeOSError::BadConciergeStatus => "failed to start concierge"@,
            ChromeOSError::BadDiskImageStatus(s, reason) => status_line_spec(
                "bad disk image status: "@,
                s.text_spec(),
                reason@,
            ),
            ChromeOSError::BadVmStatus(s, reason) => status_line_spec(
                "bad VM status: "@,
                s.text_spec(),
                reason@,
            ),
            ChromeOSError::Bus(BusError::Transport(m)) => "bus transport failure: "@ + m@,
            ChromeOSError::Bus(BusError::Timeout) => "timeout while waiting for reply or signal"@,
            ChromeOSError::Bus(BusError::Decode(m)) => "failed to decode reply: "@ + m@,
            ChromeOSError::ExportPathExists => "disk export path already exists"@,
            ChromeOSError::FailedComponentUpdater(name) => "component updater could not load component `"@
                + name@ + "`"@,
            ChromeOSError::FailedCreateContainer(s, reason) => status_line_spec(
                "failed to create container: "@,
                s.text_spec(),
                reason@,
            ),
            ChromeOSError::FailedCreateContainerSignal(s, reason) => status_line_spec(
                "failed to create container: "@,
                s.text_spec(),
                reason@,
            ),
            ChromeOSError::FailedGetFreeDiskSpace(e) => "failed to get free disk space: "@
                + decimal_spec(*e as int),
            ChromeOSError::FailedGetVmInfo => "failed to get vm info"@,
            ChromeOSError::FailedListDiskImages(reason) => "failed to list disk images: "@
                + reason@,
            ChromeOSError::FailedSetupContainerUser(s, reason) => status_line_spec(
                "failed to setup container user: "@,
                s.text_spec(),
                reason@,
            ),
            ChromeOSError::FailedSharePath(reason) => "failed to share path with vm: "@ + reason@,
            ChromeOSError::FailedStartContainerStatus(s, reason) => status_line_spec(
                "failed to start container: "@,
                s.text_spec(),
                reason@,
            ),
            ChromeOSError::FailedStopVm { vm_name, reason } => "failed to stop vm `"@ + vm_name@
                + "`: "@ + reason@,
            ChromeOSError::HandleOverflow(_) => "file sharing server handle does not fit in 32 bits"@,
            ChromeOSError::InvalidExportPath => "disk export path is invalid"@,
            ChromeOSError::RetrieveActiveSessions => "failed to retrieve active sessions"@,
            ChromeOSError::UnexpectedReply => "reply does not answer the pending request"@,
        }
    }

    /// Describes the error in one line.
    pub fn message(&self) -> (r: String)
        ensures
            r@ == self.message_spec(),
    {
        match self {
            ChromeOSError::BadConciergeStatus => String::from_str("failed to start concierge"),
            ChromeOSError::BadDiskImageStatus(s, reason) => status_line(
                "bad disk image status: ",
                s.text(),
                reason,
            ),
            ChromeOSError::BadVmStatus(s, reason) => status_line("bad VM status: ", s.text(), reason),
            ChromeOSError::Bus(BusError::Transport(m)) => line("bus transport failure: ", m.as_str()),
            ChromeOSError::Bus(BusError::Timeout) => String::from_str(
                "timeout while waiting for reply or signal",
            ),
            ChromeOSError::Bus(BusError::Decode(m)) => line("failed to decode reply: ", m.as_str()),
            ChromeOSError::ExportPathExists => String::from_str("disk export path already exists"),
            ChromeOSError::FailedComponentUpdater(name) => {
                let mut m = line("component updater could not load component `", name.as_str());
                m.append("`");
                m
            },
            ChromeOSError::FailedCreateContainer(s, reason) => status_line(
                "failed to create container: ",
                s.text(),
                reason,
            ),
            ChromeOSError::FailedCreateContainerSignal(s, reason) => status_line(
                "failed to create container: ",
                s.text(),
                reason,
            ),
            ChromeOSError::FailedGetFreeDiskSpace(e) => {
                let n = decimal(*e);
                line("failed to get free disk space: ", n.as_str())
            },
            ChromeOSError::FailedGetVmInfo => String::from_str("failed to get vm info"),
            ChromeOSError::FailedListDiskImages(reason) => line(
                "failed to list disk images: ",
                reason.as_str(),
            ),
            ChromeOSError::FailedSetupContainerUser(s, reason) => status_line(
                "failed to setup container user: ",
                s.text(),
                reason,
            ),
            ChromeOSError::FailedSharePath(reason) => line(
                "failed to share path with vm: ",
                reason.as_str(),
            ),
            ChromeOSError::FailedStartContainerStatus(s, reason) => status_line(
                "failed to start container: ",
                s.text(),
                reason,
            ),
            ChromeOSError::FailedStopVm { vm_name, reason } => {
                let mut m = line("failed to stop vm `", vm_name.as_str());
                m.append("`: ");
                m.append(reason.as_str());
                m
            },
            ChromeOSError::HandleOverflow(_) => String::from_str(
                "file sharing server handle does not fit in 32 bits",
            ),
            ChromeOSError::InvalidExportPath => String::from_str("disk export path is invalid"),
            ChromeOSError::RetrieveActiveSessions => String::from_str(
                "failed to retrieve active sessions",
            ),
            ChromeOSError::UnexpectedReply => String::from_str(
                "reply does not answer the pending request",
            ),
        }
    }
}

} // verus!
