use usb_guard::control::{class_installer_outcome, DeviceControlError};
use usb_guard::ports::{
    block_all_usb_ports_plan, unblock_usb_port_plan, PolicyAction, RegistryHive,
    DENY_ALL_REMOVABLE, SERVICE_START_DISABLED, SERVICE_START_ON_DEMAND,
};
use usb_guard::service::{restart_usb_service_outcome, restart_usb_service_plan};

#[test]
fn global_block_scenario() {
    let plan = block_all_usb_ports_plan();
    assert_eq!(plan.len(), 5);
    match &plan[0] {
        PolicyAction::SetValue { hive, path, name, value } => {
            assert_eq!(*hive, RegistryHive::LocalMachine);
            assert_eq!(path.as_str(), "SYSTEM\\CurrentControlSet\\Services\\USBSTOR");
            assert_eq!(name.as_str(), "Start");
            assert_eq!(*value, SERVICE_START_DISABLED);
        }
        _ => panic!("first step must set the machine-level start policy"),
    }
    match &plan[1] {
        PolicyAction::SetValue { hive, path, name, value } => {
            assert_eq!(*hive, RegistryHive::CurrentUser);
            assert_eq!(path.as_str(), "Software\\Policies\\Microsoft\\Windows\\RemovableStorageDevices");
            assert_eq!(name.as_str(), "Deny_All");
            assert_eq!(*value, DENY_ALL_REMOVABLE);
        }
        _ => panic!("second step must set the user-level deny-all policy"),
    }
    assert!(matches!(plan[2], PolicyAction::StopStorageService));
    assert!(matches!(plan[3], PolicyAction::StartStorageService));
    assert!(matches!(plan[4], PolicyAction::RefreshPolicy));
}

#[test]
fn global_unblock_restores_and_drops_restrictions() {
    let plan = unblock_usb_port_plan();
    assert_eq!(plan.len(), 5);
    match &plan[0] {
        PolicyAction::SetValue { hive, path, name, value } => {
            assert_eq!(*hive, RegistryHive::LocalMachine);
            assert_eq!(path.as_str(), "SYSTEM\\CurrentControlSet\\Services\\USBSTOR");
            assert_eq!(name.as_str(), "Start");
            assert_eq!(*value, SERVICE_START_ON_DEMAND);
        }
        _ => panic!("first step must restore the machine-level start policy"),
    }
    match &plan[1] {
        PolicyAction::DeleteKey { hive, path } => {
            assert_eq!(*hive, RegistryHive::CurrentUser);
            assert_eq!(path.as_str(), "Software\\Policies\\Microsoft\\Windows\\RemovableStorageDevices");
        }
        _ => panic!("second step must drop the user-level restrictions"),
    }
    assert!(matches!(plan[2], PolicyAction::StopStorageService));
    assert!(matches!(plan[3], PolicyAction::StartStorageService));
    assert!(matches!(plan[4], PolicyAction::RefreshPolicy));
}

#[test]
fn restart_plan_is_stop_start_refresh() {
    let plan = restart_usb_service_plan();
    assert_eq!(plan.len(), 3);
    assert!(matches!(plan[0], PolicyAction::StopStorageService));
    assert!(matches!(plan[1], PolicyAction::StartStorageService));
    assert!(matches!(plan[2], PolicyAction::RefreshPolicy));
}

#[test]
fn stop_failure_is_tolerated() {
    let r = restart_usb_service_outcome(Some("service not started".to_string()), None, None);
    assert!(r.is_ok());
}

#[test]
fn start_failure_is_fatal() {
    let r = restart_usb_service_outcome(None, Some("access denied".to_string()), None);
    assert_eq!(r.unwrap_err(), "access denied");
}

#[test]
fn refresh_failure_is_fatal() {
    let r = restart_usb_service_outcome(None, None, Some("gpupdate missing".to_string()));
    assert_eq!(r.unwrap_err(), "gpupdate missing");
}

#[test]
fn class_installer_outcomes() {
    assert!(class_installer_outcome(true).is_ok());
    assert_eq!(
        class_installer_outcome(false).unwrap_err(),
        DeviceControlError::ClassInstallerFailure
    );
}
