//! The status values that the peers report, one closed set per method.
//!
//! A value the library has no rule for keeps its raw wire number.

use vstd::prelude::*;

verus! {

/// Status of a disk image operation (create, destroy, export).
#[derive(PartialEq, Eq, Structural, Clone, Copy, Debug)]
pub enum DiskImageStatus {
    Created,
    Exists,
    Destroyed,
    DoesNotExist,
    Other(i32),
}

/// Status reported by a VM start request.
#[derive(PartialEq, Eq, Structural, Clone, Copy, Debug)]
pub enum VmStatus {
    Running,
    Starting,
    Other(i32),
}

/// Status of a container creation request.
#[derive(PartialEq, Eq, Structural, Clone, Copy, Debug)]
pub enum CreateContainerStatus {
    Creating,
    Exists,
    Other(i32),
}

/// Status carried by the container-created signal.
#[derive(PartialEq, Eq, Structural, Clone, Copy, Debug)]
pub enum ContainerCreatedStatus {
    Created,
    Other(i32),
}

/// Status of a container start request.
#[derive(PartialEq, Eq, Structural, Clone, Copy, Debug)]
pub enum StartContainerStatus {
    Started,
    Running,
    Other(i32),
}

/// Status of a container user set-up request.
#[derive(PartialEq, Eq, Structural, Clone, Copy, Debug)]
pub enum SetupUserStatus {
    Success,
    Exists,
    Other(i32),
}

/// The character of the decimal digit `d`.
pub open spec fn digit_char(d: nat) -> char {
    if d == 0 { '0' }
    else if d == 1 { '1' }
    else if d == 2 { '2' }
    else if d == 3 { '3' }
    else if d == 4 { '4' }
    else if d == 5 { '5' }
    else if d == 6 { '6' }
    else if d == 7 { '7' }
    else if d == 8 { '8' }
    else { '9' }
}

/// The decimal digits of `n`, most significant first, without leading zeros.
pub open spec fn digits_spec(n: nat) -> Seq<char>
    decreases n,
{
    if n < 10 {
        seq![digit_char(n)]
    } else {
        digits_spec(n / 10).push(digit_char(n % 10))
    }
}

/// The decimal text of `n`, with a leading minus sign when negative.
pub open spec fn decimal_spec(n: int) -> Seq<char> {
    if n < 0 {
        seq!['-'] + digits_spec((-n) as nat)
    } else {
        digits_spec(n as nat)
    }
}

/// The one-character text of the decimal digit `d`.
fn digit_text(d: u32) -> (r: &'static str)
    requires
        d < 10,
    ensures
        r@ == seq![digit_char(d as nat)],
{
    proof {
        reveal_strlit("0");
        reveal_strlit("1");
        reveal_strlit("2");
        reveal_strlit("3");
        reveal_strlit("4");
        reveal_strlit("5");
        reveal_strlit("6");
        reveal_strlit("7");
        reveal_strlit("8");
        reveal_strlit("9");
    }
    let r = if d == 0 {
        "0"
    } else if d == 1 {
        "1"
    } else if d == 2 {
        "2"
    } else if d == 3 {
        "3"
    } else if d == 4 {
        "4"
    } else if d == 5 {
        "5"
    } else if d == 6 {
        "6"
    } else if d == 7 {
        "7"
    } else if d == 8 {
        "8"
    } else {
        "9"
    };
    assert(r@ =~= seq![digit_char(d as nat)]);
    r
}

/// The decimal digits of `n`.
fn digits(n: u32) -> (r: String)
    ensures
        r@ == digits_spec(n as nat),
    decreases n,
{
    if n < 10 {
        String::from_str(digit_text(n))
    } else {
        let mut r = digits(n / 10);
        r.append(digit_text(n % 10));
        r
    }
}

/// The decimal text of `n`, with a leading `-` when negative.
pub fn decimal(n: i32) -> (r: String)
    ensures
        r@ == decimal_spec(n as int),
{
    if n < 0 {
        let magnitude: u32 = (0i64 - (n as i64)) as u32;
        let mut r = String::from_str("-");
        proof {
            reveal_strlit("-");
        }
        r.append(digits(magnitude).as_str());
        assert(r@ =~= seq!['-'] + digits_spec((-n) as nat));
        r
    } else {
        digits(n as u32)
    }
}

impl DiskImageStatus {
    pub open spec fn text_spec(self) -> Seq<char> {
        match self {
            DiskImageStatus::Created => "DISK_STATUS_CREATED"@,
            DiskImageStatus::Exists => "DISK_STATUS_EXISTS"@,
            DiskImageStatus::Destroyed => "DISK_STATUS_DESTROYED"@,
            DiskImageStatus::DoesNotExist => "DISK_STATUS_DOES_NOT_EXIST"@,
            DiskImageStatus::Other(n) => decimal_spec(n as int),
        }
    }

    /// The status as the peer's schema names it, or its number.
    pub fn text(&self) -> (r: String)
        ensures
            r@ == self.text_spec(),
    {
        match self {
            DiskImageStatus::Created => String::from_str("DISK_STATUS_CREATED"),
            DiskImageStatus::Exists => String::from_str("DISK_STATUS_EXISTS"),
            DiskImageStatus::Destroyed => String::from_str("DISK_STATUS_DESTROYED"),
            DiskImageStatus::DoesNotExist => String::from_str("DISK_STATUS_DOES_NOT_EXIST"),
            DiskImageStatus::Other(n) => decimal(*n),
        }
    }
}

impl VmStatus {
    pub open spec fn text_spec(self) -> Seq<char> {
        match self {
            VmStatus::Running => "VM_STATUS_RUNNING"@,
            VmStatus::Starting => "VM_STATUS_STARTING"@,
            VmStatus::Other(n) => decimal_spec(n as int),
        }
    }

    /// The status as the peer's schema names it, or its number.
    pub fn text(&self) -> (r: String)
        ensures
            r@ == self.text_spec(),
    {
        match self {
            VmStatus::Running => String::from_str("VM_STATUS_RUNNING"),
            VmStatus::Starting => String::from_str("VM_STATUS_STARTING"),
            VmStatus::Other(n) => decimal(*n),
        }
    }
}

impl CreateContainerStatus {
    pub open spec fn text_spec(self) -> Seq<char> {
        match self {
            CreateContainerStatus::Creating => "CREATING"@,
            CreateContainerStatus::Exists => "EXISTS"@,
            CreateContainerStatus::Other(n) => decimal_spec(n as int),
        }
    }

    /// The status as the peer's schema names it, or its number.
    pub fn text(&self) -> (r: String)
        ensures
            r@ == self.text_spec(),
    {
        match self {
            CreateContainerStatus::Creating => String::from_str("CREATING"),
            CreateContainerStatus::Exists => String::from_str("EXISTS"),
            CreateContainerStatus::Other(n) => decimal(*n),
        }
    }
}

impl ContainerCreatedStatus {
    pub open spec fn text_spec(self) -> Seq<char> {
        match self {
            ContainerCreatedStatus::Created => "CREATED"@,
            ContainerCreatedStatus::Other(n) => decimal_spec(n as int),
        }
    }

    /// The status as the peer's schema names it, or its number.
    pub fn text(&self) -> (r: String)
        ensures
            r@ == self.text_spec(),
    {
        match self {
            ContainerCreatedStatus::Created => String::from_str("CREATED"),
            ContainerCreatedStatus::Other(n) => decimal(*n),
        }
    }
}

impl StartContainerStatus {
    pub open spec fn text_spec(self) -> Seq<char> {
        match self {
            StartContainerStatus::Started => "STARTED"@,
            StartContainerStatus::Running => "RUNNING"@,
            StartContainerStatus::Other(n) => decimal_spec(n as int),
        }
    }

    /// The status as the peer's schema names it, or its number.
    pub fn text(&self) -> (r: String)
        ensures
            r@ == self.text_spec(),
    {
        match self {
            StartContainerStatus::Started => String::from_str("STARTED"),
            StartContainerStatus::Running => String::from_str("RUNNING"),
            StartContainerStatus::Other(n) => decimal(*n),
        }
    }
}

impl SetupUserStatus {
    pub open spec fn text_spec(self) -> Seq<char> {
        match self {
            SetupUserStatus::Success => "SUCCESS"@,
            SetupUserStatus::Exists => "EXISTS"@,
            SetupUserStatus::Other(n) => decimal_spec(n as int),
        }
    }

    /// The status as the peer's schema names it, or its number.
    pub fn text(&self) -> (r: String)
        ensures
            r@ == self.text_spec(),
    {
        match self {
            SetupUserStatus::Success => String::from_str("SUCCESS"),
            SetupUserStatus::Exists => String::from_str("EXISTS"),
            SetupUserStatus::Other(n) => decimal(*n),
        }
    }
}

} // verus!
