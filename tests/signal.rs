use crostini_client::backend::{
    Backend, BackendError, BackendFunction, DummyDefaultBackend, DummyUnimplementedBackend,
};
use crostini_client::error::{BusError, ChromeOSError};
use crostini_client::signal::{
    match_rule, remaining_budget, BusItem, SignalWait, WaitAction, WaitEvent,
};

const RULE: &str = "interface='org.chromium.VmCicerone',member='LxdContainerCreated'";

fn signal(interface: &str, member: &str, payload: Result<Vec<u8>, BusError>) -> BusItem {
    BusItem::Signal {
        interface: Some(interface.to_string()),
        member: Some(member.to_string()),
        payload,
    }
}

/// Runs one wait over `items` and counts the rules left registered.
fn run(items: Vec<BusItem>) -> (Result<Vec<u8>, ChromeOSError>, i32) {
    let (mut wait, mut action) = SignalWait::new("org.chromium.VmCicerone", "LxdContainerCreated");
    let mut registered = 0;
    let mut items = items.into_iter();
    loop {
        action = match action {
            WaitAction::AddMatch(rule) => {
                assert_eq!(rule, RULE);
                registered += 1;
                wait.step(WaitEvent::MatchAdded(Ok(())))
            }
            WaitAction::NextItem => wait.step(WaitEvent::Item(items.next().unwrap_or(BusItem::Nothing))),
            WaitAction::RemoveMatch(rule) => {
                assert_eq!(rule, RULE);
                registered -= 1;
                wait.step(WaitEvent::MatchRemoved(Ok(())))
            }
            WaitAction::Finish(outcome) => return (outcome, registered),
        }
    }
}

#[test]
fn rule_names_interface_and_member() {
    assert_eq!(match_rule("org.chromium.VmCicerone", "LxdContainerCreated"), RULE);
}

#[test]
fn wait_returns_matching_payload_and_unsubscribes() {
    let (outcome, registered) = run(vec![
        BusItem::Other,
        signal("org.chromium.VmCicerone", "ContainerStarted", Ok(vec![1])),
        signal("org.chromium.Other", "LxdContainerCreated", Ok(vec![2])),
        signal("org.chromium.VmCicerone", "LxdContainerCreated", Ok(vec![3, 4])),
    ]);
    assert_eq!(outcome, Ok(vec![3, 4]));
    assert_eq!(registered, 0);
}

#[test]
fn wait_timeout_unsubscribes() {
    let (outcome, registered) = run(vec![BusItem::Other, BusItem::Nothing]);
    assert_eq!(outcome, Err(ChromeOSError::Bus(BusError::Timeout)));
    assert_eq!(registered, 0);
}

#[test]
fn wait_decode_error_unsubscribes() {
    let bad = BusError::Decode("not a byte array".to_string());
    let (outcome, registered) =
        run(vec![signal("org.chromium.VmCicerone", "LxdContainerCreated", Err(bad.clone()))]);
    assert_eq!(outcome, Err(ChromeOSError::Bus(bad)));
    assert_eq!(registered, 0);
}

#[test]
fn two_waits_in_a_row_leave_no_rule() {
    let (first, r1) = run(vec![BusItem::Nothing]);
    let (second, r2) = run(vec![signal("org.chromium.VmCicerone", "LxdContainerCreated", Ok(vec![]))]);
    assert_eq!(first, Err(ChromeOSError::Bus(BusError::Timeout)));
    assert_eq!(second, Ok(vec![]));
    assert_eq!(r1 + r2, 0);
}

#[test]
fn failed_subscription_finishes_at_once() {
    let (mut wait, _) = SignalWait::new("i", "m");
    let e = BusError::Transport("closed".to_string());
    assert_eq!(
        wait.step(WaitEvent::MatchAdded(Err(e.clone()))),
        WaitAction::Finish(Err(ChromeOSError::Bus(e)))
    );
}

#[test]
fn failed_removal_is_reported() {
    let (mut wait, _) = SignalWait::new("i", "m");
    wait.step(WaitEvent::MatchAdded(Ok(())));
    assert_eq!(wait.step(WaitEvent::Item(BusItem::Nothing)), WaitAction::RemoveMatch("interface='i',member='m'".to_string()));
    let e = BusError::Transport("closed".to_string());
    assert_eq!(
        wait.step(WaitEvent::MatchRemoved(Err(e.clone()))),
        WaitAction::Finish(Err(ChromeOSError::Bus(e)))
    );
}

#[test]
fn unimplemented_backend_fails_everything() {
    let mut b = DummyUnimplementedBackend::new();
    assert_eq!(b.name(), "Dummy Unimplemented");
    let e = b.vm_start("", "").unwrap_err();
    assert_eq!(
        e,
        BackendError::Unimplemented { backend: "Dummy Unimplemented", function: BackendFunction::VmStart }
    );
    assert_eq!(e.message(), "backend `Dummy Unimplemented` does not implement `vm_start`");
    assert!(b.metrics_send_sample("").is_err());
    assert!(b.sessions_list().is_err());
    assert!(b.vm_stop("", "").is_err());
    assert!(b.vm_export("", "", "", None).is_err());
    assert!(b.vm_share_path("", "", "").is_err());
    assert!(b.vsh_exec("", "").is_err());
    assert!(b.vsh_exec_container("", "", "").is_err());
    assert!(b.disk_destroy("", "").is_err());
    assert!(b.disk_list("").is_err());
    assert!(b.container_create("", "", "", "", "").is_err());
    assert!(b.container_start("", "", "").is_err());
    assert_eq!(
        b.container_setup_user("", "", "", "").unwrap_err().message(),
        "backend `Dummy Unimplemented` does not implement `container_setup_user`"
    );
}

#[test]
fn default_backend_succeeds_with_defaults() {
    let mut b = DummyDefaultBackend::new();
    assert_eq!(b.name(), "Dummy Default");
    assert_eq!(b.metrics_send_sample(""), Ok(()));
    assert_eq!(b.sessions_list(), Ok(Vec::new()));
    assert_eq!(b.vm_start("", ""), Ok(()));
    assert_eq!(b.vm_stop("", ""), Ok(()));
    assert_eq!(b.vm_export("", "", "", None), Ok(()));
    assert_eq!(b.vm_share_path("", "", ""), Ok(String::new()));
    assert_eq!(b.vsh_exec("", ""), Ok(()));
    assert_eq!(b.vsh_exec_container("", "", ""), Ok(()));
    assert_eq!(b.disk_destroy("", ""), Ok(()));
    assert_eq!(b.disk_list(""), Ok((Vec::new(), 0)));
    assert_eq!(b.container_create("", "", "", "", ""), Ok(()));
    assert_eq!(b.container_start("", "", ""), Ok(()));
    assert_eq!(b.container_setup_user("", "", "", ""), Ok(()));
}

#[test]
fn bus_errors_are_sorted_by_name() {
    assert_eq!(
        BusError::from_bus(Some("org.freedesktop.DBus.Error.NoReply".to_string()), Some("late".to_string())),
        BusError::Timeout
    );
    assert_eq!(
        BusError::from_bus(Some("org.freedesktop.DBus.Error.Timeout".to_string()), None),
        BusError::Timeout
    );
    assert_eq!(
        BusError::from_bus(Some("org.freedesktop.DBus.Error.ServiceUnknown".to_string()), Some("gone".to_string())),
        BusError::Transport("gone".to_string())
    );
    assert_eq!(BusError::from_bus(None, None), BusError::Transport("bus failure".to_string()));
}

#[test]
fn wait_budget() {
    assert_eq!(remaining_budget(80_000, 0), Some(80_000));
    assert_eq!(remaining_budget(80_000, 79_999), Some(1));
    assert_eq!(remaining_budget(80_000, 80_000), None);
    assert_eq!(remaining_budget(80_000, u64::MAX), None);
    assert_eq!(remaining_budget(0, 0), None);
    assert_eq!(remaining_budget(-5, 0), None);
}
